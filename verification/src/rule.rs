//! The vocabulary of transitions: where the head goes, what the machine's
//! status is, and the partial update that one transition prescribes.

use vstd::prelude::*;

verus! {

/// A direction in which the head shifts by one cell.
#[derive(Debug)]
pub enum Move {
    Left,
    Right,
}

/// The status of a machine: running with a payload, or halted for good.
#[derive(Debug, PartialEq, Eq)]
pub enum State<S> {
    State(S),
    Halt,
}

/// One transition. Each field is independent, and an absent field leaves
/// that aspect of the machine as it is.
#[derive(Debug)]
pub struct Rule<S, Sym> {
    /// The status to switch to; `Some(State::Halt)` stops the machine.
    pub new_state: Option<State<S>>,
    /// The symbol to put into the cell under the head.
    pub write: Option<Sym>,
    /// The direction in which to shift the head afterwards.
    pub head_move: Option<Move>,
}

} // verus!
