//! The machine: a tape, a head on it and a status, advanced one
//! transition at a time.

use std::collections::VecDeque;

use vstd::prelude::*;

use crate::config::{is_blank, Config};
use crate::deque;
use crate::executor::{may_answer, Executor};
use crate::rule::{Move, Rule, State};

verus! {

/// A single-tape machine over states `S` and symbols `Sym`. Its view is
/// its configuration. The head rests on a cell of the tape at all times
/// (`self@.wf()`): the constructors establish that, and every step keeps it.
#[derive(Debug)]
pub struct Machine<S, Sym: Default> {
    state: State<S>,
    tape: VecDeque<Sym>,
    head: usize,
}

/// What `Machine::peek` shows of a machine, borrowed from it.
pub struct MachinePeek<'a, S, Sym: Default> {
    pub state: &'a State<S>,
    /// The tape in two parts: the first followed by the second is the
    /// whole tape.
    pub tape: (&'a [Sym], &'a [Sym]),
    pub head: usize,
}

impl<S, Sym: Default> View for Machine<S, Sym> {
    type V = Config<S, Sym>;

    closed spec fn view(&self) -> Config<S, Sym> {
        Config { state: self.state, tape: self.tape@, head: self.head as int }
    }
}

impl<S, Sym> Machine<S, Sym> where Sym: Default {
    /// A running machine in state `state` over `tape`, with the head on
    /// the first cell. The tape must hold at least one cell.
    pub fn new(state: S, tape: VecDeque<Sym>) -> (machine: Self)
        requires
            tape@.len() > 0,
        ensures
            machine@ == (Config { state: State::State(state), tape: tape@, head: 0 }),
            machine@.wf(),
    {
        Self { state: State::State(state), tape, head: 0 }
    }

    /// One step of the automaton `E`. A running machine hands `E` its
    /// state and the symbol under the head, and applies the rule that `E`
    /// answers with. A halted machine stays as it is, and `E` is not asked.
    pub fn execute<E>(&mut self) where E: Executor<S, Sym>
        requires
            old(self)@.wf(),
        ensures
            final(self)@.wf(),
            old(self)@.halted() ==> final(self)@ == old(self)@,
            old(self)@.state matches State::State(state) ==> exists|rule: Rule<S, Sym>|
                #[trigger] may_answer::<S, Sym, E>(state, old(self)@.symbol(), rule)
                    && old(self)@.steps_to(rule, final(self)@),
    {
        let rule = match &self.state {
            State::State(state) => E::execute(state, &self.tape[self.head]),
            State::Halt => return ,
        };
        assert(may_answer::<S, Sym, E>(self@.state->0, self@.symbol(), rule));
        self.apply(rule);
    }

    /// Applies `rule` to a running machine: the new status, then the
    /// write, then the move, each where the rule gives one. A halted
    /// machine stays as it is.
    pub fn apply(&mut self, rule: Rule<S, Sym>)
        requires
            old(self)@.wf(),
        ensures
            final(self)@.wf(),
            old(self)@.steps_to(rule, final(self)@),
            old(self)@.halted() ==> final(self)@ == old(self)@,
            old(self)@.grows_left(rule) ==> final(self)@.tape.len() == old(self)@.tape.len() + 1
                && is_blank(final(self)@.tape[0])
                && final(self)@.head == 0,
            old(self)@.grows_right(rule) ==> final(self)@.tape.len() == old(self)@.tape.len() + 1
                && is_blank(final(self)@.tape.last())
                && final(self)@.head == final(self)@.tape.len() - 1,
            !old(self)@.grows_left(rule) && !old(self)@.grows_right(rule)
                ==> final(self)@.tape.len() == old(self)@.tape.len(),
    {
        if !self.halted() {
            let Rule { new_state, write, head_move } = rule;
            if let Some(new_state) = new_state {
                self.state = new_state;
            }
            if let Some(write) = write {
                self.write_tape(write);
            }
            if let Some(head_move) = head_move {
                match head_move {
                    Move::Left => self.head_move_left(),
                    Move::Right => self.head_move_right(),
                }
            }
        }
        // The symbol under the head serves as the blank of the step: where
        // the tape grew, the head rests on the new cell.
        assert(old(self)@.steps_with(rule, self@.symbol(), self@));
    }

    /// Whether the machine has halted.
    pub fn halted(&self) -> (halted: bool)
        ensures
            halted == self@.halted(),
    {
        matches!(&self.state, State::Halt)
    }

    /// A look at the status, the tape and the head. The tape is borrowed,
    /// not copied, in the two parts in which the machine holds it.
    pub fn peek(&self) -> (peek: MachinePeek<'_, S, Sym>)
        ensures
            *peek.state == self@.state,
            peek.tape.0@ + peek.tape.1@ == self@.tape,
            peek.head == self@.head,
    {
        MachinePeek { state: &self.state, tape: deque::as_slices(&self.tape), head: self.head }
    }

    /// Gives up the machine for its tape and its status.
    pub fn finish(self) -> (end: (VecDeque<Sym>, State<S>))
        ensures
            end.0@ == self@.tape,
            end.1 == self@.state,
    {
        (self.tape, self.state)
    }

    /// Puts `write` into the cell under the head.
    fn write_tape(&mut self, write: Sym)
        requires
            old(self)@.wf(),
        ensures
            final(self)@ == old(self)@.write(Some(write)),
    {
        *deque::get_mut(&mut self.tape, self.head).unwrap() = write;
    }

    /// Shifts the head one cell to the left. From the first cell there is
    /// nowhere to go, so a blank cell is put in front of the tape, and the
    /// index of the head stays 0.
    fn head_move_left(&mut self)
        requires
            old(self)@.wf(),
        ensures
            final(self)@ == old(self)@.shift(Some(Move::Left), final(self)@.symbol()),
            old(self)@.head == 0 ==> is_blank(final(self)@.symbol()),
    {
        match self.head {
            0 => self.tape.push_front(Sym::default()),
            _ => self.head -= 1,
        }
    }

    /// Shifts the head one cell to the right, after a blank cell has been
    /// added behind the last one where the head rests on that.
    fn head_move_right(&mut self)
        requires
            old(self)@.wf(),
        ensures
            final(self)@ == old(self)@.shift(Some(Move::Right), final(self)@.symbol()),
            old(self)@.head == old(self)@.tape.len() - 1 ==> is_blank(final(self)@.symbol()),
    {
        if self.head == self.tape.len() - 1 {
            self.tape.push_back(Sym::default());
        }
        self.head += 1;
    }
}

impl<S, Sym> Default for Machine<S, Sym> where S: Default, Sym: Default {
    /// A running machine in a default state, over a tape of one blank
    /// cell, with the head on that cell.
    fn default() -> (machine: Self)
        ensures
            machine@.state matches State::State(state) && call_ensures(S::default, (), state),
            !machine@.halted(),
            machine@.tape.len() == 1,
            is_blank(machine@.tape[0]),
            machine@.head == 0,
            machine@.wf(),
    {
        let mut tape = VecDeque::new();
        tape.push_back(Sym::default());
        Self::new(S::default(), tape)
    }
}

} // verus!
