//! The mathematical model of a machine: its configuration, and what one
//! transition makes of it.

use vstd::prelude::*;

use crate::rule::{Move, Rule, State};

verus! {

/// Whether `symbol` is a value that `Sym::default()` may return: the blank
/// that fills a cell by which the tape grows.
pub open spec fn is_blank<Sym: Default>(symbol: Sym) -> bool {
    call_ensures(Sym::default, (), symbol)
}

/// A configuration: the status, the whole tape, and the index of the cell
/// that the head rests on.
pub struct Config<S, Sym> {
    pub state: State<S>,
    pub tape: Seq<Sym>,
    pub head: int,
}

impl<S, Sym> Config<S, Sym> {
    /// The head rests on a cell of the tape; so the tape is not empty.
    pub open spec fn wf(self) -> bool {
        0 <= self.head < self.tape.len()
    }

    pub open spec fn halted(self) -> bool {
        self.state is Halt
    }

    /// The symbol under the head.
    pub open spec fn symbol(self) -> Sym {
        self.tape[self.head]
    }

    /// Under `rule` the tape grows at its front: the machine is running,
    /// and the head is to move left from the first cell.
    pub open spec fn grows_left(self, rule: Rule<S, Sym>) -> bool {
        !self.halted() && rule.head_move == Some(Move::Left) && self.head == 0
    }

    /// Under `rule` the tape grows at its back: the machine is running,
    /// and the head is to move right from the last cell.
    pub open spec fn grows_right(self, rule: Rule<S, Sym>) -> bool {
        !self.halted() && rule.head_move == Some(Move::Right) && self.head == self.tape.len() - 1
    }

    /// This configuration with the status replaced, where one is given.
    pub open spec fn enter(self, new_state: Option<State<S>>) -> Self {
        match new_state {
            Some(state) => Config { state, ..self },
            None => self,
        }
    }

    /// This configuration with the cell under the head overwritten, where
    /// a symbol is given.
    pub open spec fn write(self, write: Option<Sym>) -> Self {
        match write {
            Some(symbol) => Config { tape: self.tape.update(self.head, symbol), ..self },
            None => self,
        }
    }

    /// This configuration with the head shifted by one cell, where a
    /// direction is given. A shift past either end of the tape adds a cell
    /// holding `blank` there, and the head comes to rest on it: at the
    /// front the index of the head stays 0, and every old cell moves up by
    /// one.
    pub open spec fn shift(self, head_move: Option<Move>, blank: Sym) -> Self {
        match head_move {
            None => self,
            Some(Move::Left) => if self.head == 0 {
                Config { tape: seq![blank] + self.tape, ..self }
            } else {
                Config { head: self.head - 1, ..self }
            },
            Some(Move::Right) => if self.head == self.tape.len() - 1 {
                Config { tape: self.tape.push(blank), head: self.head + 1, ..self }
            } else {
                Config { head: self.head + 1, ..self }
            },
        }
    }

    /// What `rule` makes of this configuration, with `blank` for the cell
    /// that the tape may grow by. A halted machine stays as it is. A
    /// running one takes the new status, then the write, then the move.
    pub open spec fn apply(self, rule: Rule<S, Sym>, blank: Sym) -> Self {
        if self.halted() {
            self
        } else {
            self.enter(rule.new_state).write(rule.write).shift(rule.head_move, blank)
        }
    }
}

impl<S, Sym: Default> Config<S, Sym> {
    /// `next` is what `rule` makes of this configuration with `blank` for
    /// a new cell, and `blank` is a blank where the tape grows.
    pub open spec fn steps_with(self, rule: Rule<S, Sym>, blank: Sym, next: Self) -> bool {
        &&& next == self.apply(rule, blank)
        &&& self.grows_left(rule) || self.grows_right(rule) ==> is_blank(blank)
    }

    /// One step under `rule` may lead from this configuration to `next`:
    /// `next` is what `rule` makes of this one, and a cell that the tape
    /// grew by holds a blank.
    pub open spec fn steps_to(self, rule: Rule<S, Sym>, next: Self) -> bool {
        exists|blank: Sym| self.steps_with(rule, blank, next)
    }
}

} // verus!
