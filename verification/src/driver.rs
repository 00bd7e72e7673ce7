//! Decision logic for a loop that walks the machine.
//!
//! The loop itself lives with the caller: it samples a boolean choice (and,
//! for the entry state's self-loop, an increment) from whatever oracle it
//! prefers, hands both to [`step`], does its own logging, and stops when
//! [`Step::done`] says so. From the current state and the choice, `step`
//! takes the one transition the walk prescribes: `false` keeps the machine
//! in its state through the self-loop, `true` advances it — except in the
//! terminal state, where `true` loops one last time and ends the walk, and
//! `false` retreats to the middle state.

use crate::state::{
    clamp_i32, div_trunc, lemma_div_trunc_in_range, self_loop, FailureReason, StateMachine,
};
use vstd::prelude::*;

verus! {

/// Parameter summed onto the payload when advancing out of the entry state.
pub const FIRST_ADVANCE_ADDEND: i32 = 12;

/// Factor applied to the payload when advancing out of the middle state.
pub const SECOND_ADVANCE_FACTOR: i32 = 4;

/// Delta of the middle state's self-loop.
pub const SECOND_LOOP_DELTA: i32 = 2;

/// Delta of the terminal state's self-loop.
pub const THIRD_LOOP_DELTA: i64 = 3;

/// Divisor of the retreat from the terminal state.
pub const THIRD_RETREAT_DIVISOR: i32 = 3;

/// A payload-level picture of a machine: which state it is in, and the
/// number its capsule holds.
pub enum MachineModel {
    First(int),
    Second(int),
    Third(int),
}

/// The picture a machine value presents.
pub open spec fn model_of(m: StateMachine) -> MachineModel {
    match m {
        StateMachine::First(f) => MachineModel::First(f@ as int),
        StateMachine::Second(s) => MachineModel::Second(s@ as int),
        StateMachine::Third(t) => MachineModel::Third(t@ as int),
    }
}

/// Each payload sits inside its state's carrier.
pub open spec fn model_wf(s: MachineModel) -> bool {
    match s {
        MachineModel::First(p) => 0 <= p <= u32::MAX,
        MachineModel::Second(p) => i32::MIN <= p <= i32::MAX,
        MachineModel::Third(p) => i64::MIN <= p <= i64::MAX,
    }
}

/// When the arithmetic of the prescribed transition stays in range, so the
/// step may be taken at all.
pub open spec fn step_enabled(s: MachineModel, advance: bool, increment: int) -> bool {
    match s {
        MachineModel::First(p) => if advance {
            p + FIRST_ADVANCE_ADDEND <= i32::MAX
        } else {
            p + increment <= u32::MAX
        },
        MachineModel::Second(p) => advance || i32::MIN <= p + SECOND_LOOP_DELTA <= i32::MAX,
        MachineModel::Third(p) => !advance || p + THIRD_LOOP_DELTA <= i64::MAX,
    }
}

/// What one step of the walk does, on the payload-level picture: the
/// picture after the step, whether the walk stops, and the reason when an
/// attempted advance was declined.
pub open spec fn step_model(s: MachineModel, advance: bool, increment: int) -> (
    MachineModel,
    bool,
    Option<FailureReason>,
)
    recommends
        step_enabled(s, advance, increment),
{
    match s {
        MachineModel::First(p) => if advance {
            (MachineModel::Second(p + FIRST_ADVANCE_ADDEND), false, None)
        } else {
            (MachineModel::First(self_loop(p, increment)), false, None)
        },
        MachineModel::Second(p) => if advance {
            if i32::MIN <= p * SECOND_ADVANCE_FACTOR <= i32::MAX {
                (MachineModel::Third(p * SECOND_ADVANCE_FACTOR), false, None)
            } else {
                (MachineModel::Second(p), false, Some(FailureReason::TransitionOverflow))
            }
        } else {
            (MachineModel::Second(self_loop(p, SECOND_LOOP_DELTA as int)), false, None)
        },
        MachineModel::Third(p) => if advance {
            (MachineModel::Third(self_loop(p, THIRD_LOOP_DELTA as int)), true, None)
        } else {
            (
                MachineModel::Second(div_trunc(clamp_i32(p), THIRD_RETREAT_DIVISOR as int)),
                false,
                None,
            )
        },
    }
}

/// The outcome of one driver step.
pub struct Step {
    /// The machine after the step.
    pub machine: StateMachine,
    /// Whether the walk stops here.
    pub done: bool,
    /// The reason, when an attempted advance was declined; the machine then
    /// stands exactly where it stood.
    pub failure: Option<FailureReason>,
}

/// One step of the walk: from the machine's current state and the oracle's
/// choice, take the prescribed transition and say whether the walk stops.
/// The machine after the step, the stop flag and the failure report are
/// exactly what [`step_model`] prescribes for the machine's picture.
pub fn step(machine: StateMachine, advance: bool, increment: u32) -> (r: Step)
    requires
        step_enabled(model_of(machine), advance, increment as int),
    ensures
        (model_of(r.machine), r.done, r.failure) == step_model(
            model_of(machine),
            advance,
            increment as int,
        ),
{
    match machine {
        StateMachine::First(a) => {
            if advance {
                Step {
                    machine: StateMachine::Second(a.into_second(FIRST_ADVANCE_ADDEND)),
                    done: false,
                    failure: None,
                }
            } else {
                Step {
                    machine: StateMachine::First(a.add(increment)),
                    done: false,
                    failure: None,
                }
            }
        },
        StateMachine::Second(b) => {
            if advance {
                match b.into_third(SECOND_ADVANCE_FACTOR) {
                    Ok(third) => Step {
                        machine: StateMachine::Third(third),
                        done: false,
                        failure: None,
                    },
                    Err((original, reason)) => Step {
                        machine: StateMachine::Second(original),
                        done: false,
                        failure: Some(reason),
                    },
                }
            } else {
                Step {
                    machine: StateMachine::Second(b.add(SECOND_LOOP_DELTA)),
                    done: false,
                    failure: None,
                }
            }
        },
        StateMachine::Third(c) => {
            if advance {
                Step {
                    machine: StateMachine::Third(c.add(THIRD_LOOP_DELTA)),
                    done: true,
                    failure: None,
                }
            } else {
                Step {
                    machine: StateMachine::Second(c.into_b(THIRD_RETREAT_DIVISOR)),
                    done: false,
                    failure: None,
                }
            }
        },
    }
}

/// An enabled step leads from a well-formed picture to a well-formed
/// picture: however the oracle chooses, the walk never carries a payload
/// out of its state's range.
pub proof fn lemma_step_preserves_wf(s: MachineModel, advance: bool, increment: int)
    requires
        model_wf(s),
        0 <= increment <= u32::MAX,
        step_enabled(s, advance, increment),
    ensures
        model_wf(step_model(s, advance, increment).0),
{
    match s {
        MachineModel::Third(p) => {
            if !advance {
                lemma_div_trunc_in_range(clamp_i32(p), THIRD_RETREAT_DIVISOR as int);
            }
        },
        _ => {},
    }
}

/// An oracle that always chooses to advance drives the walk from the entry
/// state to the terminal state in exactly two steps, provided the two sums
/// along the way fit their carriers; the step after that is the terminal
/// self-loop, which stops the walk.
pub proof fn lemma_always_advance_terminates(seed: int)
    requires
        0 <= seed <= u32::MAX,
        seed + FIRST_ADVANCE_ADDEND <= i32::MAX,
        (seed + FIRST_ADVANCE_ADDEND) * SECOND_ADVANCE_FACTOR <= i32::MAX,
    ensures
        ({
            let r1 = step_model(MachineModel::First(seed), true, 0);
            let r2 = step_model(r1.0, true, 0);
            let r3 = step_model(r2.0, true, 0);
            &&& step_enabled(MachineModel::First(seed), true, 0)
            &&& r1.0 is Second
            &&& !r1.1
            &&& r1.2 is None
            &&& step_enabled(r1.0, true, 0)
            &&& r2.0 is Third
            &&& !r2.1
            &&& r2.2 is None
            &&& step_enabled(r2.0, true, 0)
            &&& r3.0 is Third
            &&& r3.1
            &&& r3.2 is None
        }),
{
}

} // verus!
