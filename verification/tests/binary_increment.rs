use turing_machine::{Executor, Machine, Move, Rule, State};

#[derive(Default, Debug, PartialEq, Eq)]
struct Inc;
struct IncExecutor;

impl Executor<Inc, bool> for IncExecutor {
    fn execute(_state: &Inc, symbol: &bool) -> Rule<Inc, bool> {
        if *symbol {
            Rule {
                new_state: None,
                write: Some(false),
                head_move: Some(Move::Right),
            }
        } else {
            Rule {
                new_state: Some(State::Halt),
                write: Some(true),
                head_move: None,
            }
        }
    }
}

fn increment(bits: Vec<bool>) -> (Vec<bool>, State<Inc>, usize) {
    let mut machine: Machine<Inc, bool> = Machine::new(Inc, bits.into());
    let mut steps: usize = 0;
    while !machine.halted() {
        machine.execute::<IncExecutor>();
        steps += 1;
    }
    let (tape, state) = machine.finish();
    (tape.into_iter().collect(), state, steps)
}

#[test]
fn binary_inc_test() {
    let mut machine: Machine<Inc, bool> = Machine::new(Inc, [false, true].into());

    while !machine.halted() {
        machine.execute::<IncExecutor>();
    }

    let (mut vec, state) = machine.finish();

    vec.make_contiguous();
    let (vec_slice, _) = vec.as_slices();

    assert_eq!(vec_slice, &[true, true]);
    assert_eq!(state, State::Halt);

    let mut machine: Machine<Inc, bool> = Machine::new(Inc, [true, true].into());

    while !machine.halted() {
        machine.execute::<IncExecutor>();
    }

    let (mut vec, state) = machine.finish();

    vec.make_contiguous();
    let (vec_slice, _) = vec.as_slices();

    assert_eq!(vec_slice, &[false, false, true]);
    assert_eq!(state, State::Halt);
}

#[test]
fn increment_without_carry_halts_after_one_step() {
    let (tape, state, steps) = increment(vec![false, true]);
    assert_eq!(tape, vec![true, true]);
    assert_eq!(state, State::Halt);
    assert_eq!(steps, 1);
}

#[test]
fn increment_carries_past_the_last_cell() {
    let (tape, state, steps) = increment(vec![true, true, true]);
    assert_eq!(tape, vec![false, false, false, true]);
    assert_eq!(state, State::Halt);
    assert_eq!(steps, 4);
}

#[test]
fn increment_stops_at_the_first_zero() {
    let (tape, state, steps) = increment(vec![true, false, true, true]);
    assert_eq!(tape, vec![false, true, true, true]);
    assert_eq!(state, State::Halt);
    assert_eq!(steps, 2);
}

#[test]
fn halted_machine_ignores_further_steps() {
    let mut machine: Machine<Inc, bool> = Machine::new(Inc, [true, true].into());
    while !machine.halted() {
        machine.execute::<IncExecutor>();
    }
    let peek = machine.peek();
    let tape: Vec<bool> = [peek.tape.0, peek.tape.1].concat();
    let head = peek.head;
    assert_eq!(tape, vec![false, false, true]);
    assert_eq!(head, 2);

    for _ in 0..5 {
        machine.execute::<IncExecutor>();
        assert!(machine.halted());
        let peek = machine.peek();
        assert_eq!(*peek.state, State::Halt);
        assert_eq!([peek.tape.0, peek.tape.1].concat(), tape);
        assert_eq!(peek.head, head);
    }
}
