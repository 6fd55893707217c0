//! The transition function that a caller supplies.

use vstd::prelude::*;

use crate::rule::Rule;

verus! {

/// The transition function of an automaton over states `S` and symbols
/// `Sym`. The machine asks it once per step, and only while running.
pub trait Executor<S, Sym: Default> {
    /// The rule to apply in `state` when the head reads `symbol`.
    fn execute(state: &S, symbol: &Sym) -> Rule<S, Sym>;
}

/// Whether `rule` is an answer that `E::execute` may give to `state` and
/// `symbol`. An implementation narrows this down by the `ensures` that it
/// puts on its `execute`.
pub open spec fn may_answer<S, Sym: Default, E: Executor<S, Sym>>(
    state: S,
    symbol: Sym,
    rule: Rule<S, Sym>,
) -> bool {
    call_ensures(E::execute, (&state, &symbol), rule)
}

} // verus!
