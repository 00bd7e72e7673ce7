use typestate::driver::{step, Step};
use typestate::state::{FailureReason, StateMachine};

fn second_payload(machine: &StateMachine) -> i32 {
    match machine {
        StateMachine::Second(s) => s.payload(),
        other => panic!("expected the middle state, got {other:?}"),
    }
}

fn third_payload(machine: &StateMachine) -> i64 {
    match machine {
        StateMachine::Third(t) => t.payload(),
        other => panic!("expected the terminal state, got {other:?}"),
    }
}

#[test]
fn always_advancing_reaches_third_in_two_steps_then_stops() {
    let machine = StateMachine::new(1);

    let r1 = step(machine, true, 0);
    assert!(!r1.done);
    assert!(r1.failure.is_none());
    assert_eq!(second_payload(&r1.machine), 13);

    let r2 = step(r1.machine, true, 0);
    assert!(!r2.done);
    assert!(r2.failure.is_none());
    assert_eq!(third_payload(&r2.machine), 52);

    let r3 = step(r2.machine, true, 0);
    assert!(r3.done);
    assert!(r3.failure.is_none());
    assert_eq!(third_payload(&r3.machine), 55);
}

#[test]
fn first_self_loop_applies_the_increment() {
    let Step { machine, done, failure } = step(StateMachine::new(1), false, 7);
    assert!(!done);
    assert!(failure.is_none());
    match machine {
        StateMachine::First(f) => assert_eq!(f.payload(), 8),
        other => panic!("expected the entry state, got {other:?}"),
    }
}

#[test]
fn second_self_loop_adds_its_delta() {
    let r1 = step(StateMachine::new(1), true, 0);
    assert_eq!(second_payload(&r1.machine), 13);
    let r2 = step(r1.machine, false, 0);
    assert!(!r2.done);
    assert_eq!(second_payload(&r2.machine), 15);
}

#[test]
fn retreat_from_third_divides() {
    let r1 = step(StateMachine::new(1), true, 0);
    let r2 = step(r1.machine, true, 0);
    assert_eq!(third_payload(&r2.machine), 52);
    let r3 = step(r2.machine, false, 0);
    assert!(!r3.done);
    // 52 / 3, truncated toward zero.
    assert_eq!(second_payload(&r3.machine), 17);
}

#[test]
fn failed_advance_keeps_the_machine_in_place() {
    let second = match StateMachine::new(i32::MAX as u32) {
        StateMachine::First(f) => f.into_second(0),
        other => panic!("expected the entry state, got {other:?}"),
    };
    let r = step(StateMachine::Second(second), true, 0);
    assert!(!r.done);
    assert_eq!(r.failure, Some(FailureReason::TransitionOverflow));
    assert_eq!(second_payload(&r.machine), i32::MAX);
}
