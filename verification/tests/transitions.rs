use typestate::state::{FailureReason, First, StateMachine};

fn first_of(machine: StateMachine) -> First {
    match machine {
        StateMachine::First(f) => f,
        other => panic!("expected the entry state, got {other:?}"),
    }
}

#[test]
fn machine_starts_in_first_with_seed() {
    let machine = StateMachine::new(1);
    assert_eq!(first_of(machine).payload(), 1);
}

#[test]
fn scenario_seed_loop_and_advance() {
    let first = first_of(StateMachine::new(1));
    assert_eq!(first.payload(), 1);
    let looped = first.add(5);
    assert_eq!(looped.payload(), 6);
    let second = looped.into_second(12);
    assert_eq!(second.payload(), 18);
}

#[test]
fn scenario_advance_to_third() {
    let second = first_of(StateMachine::new(6)).into_second(12);
    assert_eq!(second.payload(), 18);
    let third = second.into_third(4).expect("18 * 4 fits the carrier");
    assert_eq!(third.payload(), 72);
}

#[test]
fn scenario_overflow_returns_original_capsule() {
    let second = first_of(StateMachine::new(3)).into_second(0);
    assert_eq!(second.payload(), 3);
    let (original, reason) = match second.into_third(i32::MAX) {
        Ok(third) => panic!("3 * i32::MAX must overflow, got {:?}", third.payload()),
        Err(pair) => pair,
    };
    assert_eq!(reason, FailureReason::TransitionOverflow);
    assert_eq!(original.payload(), 3);
    // The returned capsule is fully usable: retry with a factor that fits.
    let third = original.into_third(2).expect("3 * 2 fits the carrier");
    assert_eq!(third.payload(), 6);
}

#[test]
fn scenario_retreat_truncates() {
    let third = first_of(StateMachine::new(6))
        .into_second(12)
        .into_third(4)
        .expect("18 * 4 fits the carrier");
    assert_eq!(third.payload(), 72);
    let second = third.into_b(3);
    assert_eq!(second.payload(), 24);
}

#[test]
fn retreat_truncates_toward_zero() {
    let third = first_of(StateMachine::new(5))
        .into_second(0)
        .into_third(10)
        .expect("5 * 10 fits the carrier");
    assert_eq!(third.payload(), 50);
    // 50 / 7 is 7.14...; the payload keeps the whole part only.
    assert_eq!(third.into_b(7).payload(), 7);
}

#[test]
fn self_loops_fuse_on_first() {
    let first = first_of(StateMachine::new(10));
    assert_eq!(first.add(2).add(3).payload(), first.add(5).payload());
    assert_eq!(first.add(2).add(3).payload(), 15);
}

#[test]
fn self_loops_fuse_on_second() {
    let second = first_of(StateMachine::new(10)).into_second(0);
    assert_eq!(second.add(-4).add(7).payload(), second.add(3).payload());
    assert_eq!(second.add(-4).add(7).payload(), 13);
}

#[test]
fn self_loops_fuse_on_third() {
    let third = first_of(StateMachine::new(10))
        .into_second(0)
        .into_third(1)
        .expect("10 * 1 fits the carrier");
    assert_eq!(third.add(2).add(-5).payload(), third.add(-3).payload());
    assert_eq!(third.add(2).add(-5).payload(), 7);
}

#[test]
fn round_trip_recovers_the_payload() {
    let second = first_of(StateMachine::new(6)).into_second(0);
    let back = second
        .into_third(7)
        .expect("6 * 7 fits the carrier")
        .into_b(7);
    assert_eq!(back.payload(), 6);
}

#[test]
fn round_trip_with_negative_factor() {
    let second = first_of(StateMachine::new(9)).into_second(0);
    let back = second
        .into_third(-11)
        .expect("9 * -11 fits the carrier")
        .into_b(-11);
    assert_eq!(back.payload(), 9);
}

#[test]
fn failure_reason_has_a_message() {
    assert_eq!(
        FailureReason::TransitionOverflow.message(),
        "transition overflow: payload and factor cannot be combined"
    );
}
