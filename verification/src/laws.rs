//! What holds of every machine: of each step, proved of the model, and of
//! what `peek` and `finish` show.

use std::collections::VecDeque;

use vstd::prelude::*;

use crate::config::{is_blank, Config};
use crate::machine::{Machine, MachinePeek};
use crate::rule::{Rule, State};

verus! {

/// A step keeps the head on the tape.
pub proof fn step_keeps_head_on_tape<S, Sym: Default>(
    before: Config<S, Sym>,
    rule: Rule<S, Sym>,
    after: Config<S, Sym>,
)
    requires
        before.wf(),
        before.steps_to(rule, after),
    ensures
        after.wf(),
{
}

/// A step is determined by the configuration and the rule, as far as the
/// blank is: where `Sym` has one default value, two steps under one rule
/// end in one configuration.
pub proof fn step_is_determined<S, Sym: Default>(
    before: Config<S, Sym>,
    rule: Rule<S, Sym>,
    one: Config<S, Sym>,
    other: Config<S, Sym>,
)
    requires
        before.wf(),
        forall|x: Sym, y: Sym| #[trigger] is_blank(x) && #[trigger] is_blank(y) ==> x == y,
        before.steps_to(rule, one),
        before.steps_to(rule, other),
    ensures
        one == other,
{
}

/// Halting is for good: a step leaves a halted machine as it is, status,
/// tape and head, whatever the rule.
pub proof fn halted_stays_as_it_is<S, Sym: Default>(
    before: Config<S, Sym>,
    rule: Rule<S, Sym>,
    after: Config<S, Sym>,
)
    requires
        before.halted(),
        before.steps_to(rule, after),
    ensures
        after == before,
{
}

/// A running machine halts in a step exactly when the rule says so, and
/// otherwise goes on in the state that the rule gives, or in its own.
pub proof fn halts_exactly_on_halting_rule<S, Sym: Default>(
    before: Config<S, Sym>,
    rule: Rule<S, Sym>,
    after: Config<S, Sym>,
)
    requires
        !before.halted(),
        before.steps_to(rule, after),
    ensures
        after.halted() <==> rule.new_state == Some(State::<S>::Halt),
        rule.new_state matches Some(state) ==> after.state == state,
        rule.new_state is None ==> after.state == before.state,
{
}

/// A move to the left from the first cell makes the tape one cell longer.
/// The new cell stands at the front and holds a blank, the head stays at
/// index 0, and behind the new cell the tape is as the write left it.
pub proof fn left_move_at_front_grows_tape<S, Sym: Default>(
    before: Config<S, Sym>,
    rule: Rule<S, Sym>,
    after: Config<S, Sym>,
)
    requires
        before.wf(),
        before.grows_left(rule),
        before.steps_to(rule, after),
    ensures
        after.tape.len() == before.tape.len() + 1,
        is_blank(after.tape[0]),
        after.head == 0,
        after.tape.skip(1) == before.write(rule.write).tape,
{
    assert(after.tape.skip(1) =~= before.write(rule.write).tape);
}

/// A move to the right from the last cell makes the tape one cell longer.
/// The new cell stands at the back and holds a blank, the head comes to
/// rest on it, and before the new cell the tape is as the write left it.
pub proof fn right_move_at_back_grows_tape<S, Sym: Default>(
    before: Config<S, Sym>,
    rule: Rule<S, Sym>,
    after: Config<S, Sym>,
)
    requires
        before.wf(),
        before.grows_right(rule),
        before.steps_to(rule, after),
    ensures
        after.tape.len() == before.tape.len() + 1,
        is_blank(after.tape.last()),
        after.head == after.tape.len() - 1,
        after.tape.drop_last() == before.write(rule.write).tape,
{
    assert(after.tape.drop_last() =~= before.write(rule.write).tape);
}

/// A step that takes the head past neither end of the tape leaves the
/// length of the tape as it was.
pub proof fn tape_grows_only_at_its_ends<S, Sym: Default>(
    before: Config<S, Sym>,
    rule: Rule<S, Sym>,
    after: Config<S, Sym>,
)
    requires
        before.wf(),
        !before.grows_left(rule),
        !before.grows_right(rule),
        before.steps_to(rule, after),
    ensures
        after.tape.len() == before.tape.len(),
{
}

/// What `peek` shows of a machine is what `finish` hands over when called
/// at that point: the two parts of the tape, one after the other, are the
/// final tape, and the status is the final status.
pub proof fn peek_agrees_with_finish<S, Sym: Default>(
    machine: Machine<S, Sym>,
    peek: MachinePeek<S, Sym>,
    end: (VecDeque<Sym>, State<S>),
)
    requires
        call_ensures(Machine::<S, Sym>::peek, (&machine,), peek),
        call_ensures(Machine::<S, Sym>::finish, (machine,), end),
    ensures
        peek.tape.0@ + peek.tape.1@ == end.0@,
        *peek.state == end.1,
{
}

} // verus!
