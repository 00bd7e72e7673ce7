//! The state capsules and the machine handle.
//!
//! Each capsule's payload is a private field: outside this module a capsule
//! can only come from `StateMachine::new` or from a transition operation on
//! a capsule already in hand, so every reachable machine value is a finite
//! composition of the operations below.

use vstd::arithmetic::div_mod::{
    lemma_div_is_strictly_smaller, lemma_div_multiples_vanish, lemma_div_nonincreasing,
    lemma_div_pos_is_pos,
};
use vstd::prelude::*;

verus! {

/// Why a fallible cross-transition declined to move.
#[derive(Debug, Clone, Copy, PartialEq, Eq)]
pub enum FailureReason {
    /// Combining the payload with the parameter would overflow the
    /// destination state's carrier.
    TransitionOverflow,
}

impl FailureReason {
    /// A human-readable line for a diagnostic sink.
    pub fn message(&self) -> (r: &'static str)
        ensures
            r@ == "transition overflow: payload and factor cannot be combined"@,
    {
        "transition overflow: payload and factor cannot be combined"
    }
}

/// The entry state's capsule: an unsigned payload.
#[derive(Debug)]
pub struct First(u32);

/// The middle state's capsule: a signed payload.
#[derive(Debug)]
pub struct Second(i32);

/// The terminal state's capsule.
///
/// Its payload is carried as a wide integer, at scale one: the forward
/// transition installs a product of two 32-bit values, and the self-loop
/// adds whole deltas, so the payload is integral in every reachable
/// machine and the arithmetic below stays exact.
#[derive(Debug)]
pub struct Third(i64);

impl View for First {
    type V = u32;

    closed spec fn view(&self) -> u32 {
        self.0
    }
}

impl View for Second {
    type V = i32;

    closed spec fn view(&self) -> i32 {
        self.0
    }
}

impl View for Third {
    type V = i64;

    closed spec fn view(&self) -> i64 {
        self.0
    }
}

/// The payload a state's self-loop lands on: grown by the delta.
pub open spec fn self_loop(payload: int, delta: int) -> int {
    payload + delta
}

/// Narrowing of the terminal payload to the 32-bit signed carrier,
/// saturating at the carrier's bounds.
pub open spec fn clamp_i32(v: int) -> int {
    if v > i32::MAX {
        i32::MAX as int
    } else if v < i32::MIN {
        i32::MIN as int
    } else {
        v
    }
}

/// Division truncating toward zero, the behaviour of machine division on
/// the signed carriers. (In specifications, `/` alone rounds toward
/// negative infinity when an operand is negative.)
pub open spec fn div_trunc(a: int, d: int) -> int
    recommends
        d != 0,
{
    if a == 0 {
        0
    } else if a > 0 && d > 0 {
        a / d
    } else if a < 0 && d < 0 {
        (a * -1) / (d * -1)
    } else if a < 0 {
        ((a * -1) / d) * -1
    } else {
        (a / (d * -1)) * -1
    }
}

/// Truncating division keeps a 32-bit value in the 32-bit range, except
/// when the smallest value is divided by minus one.
pub proof fn lemma_div_trunc_in_range(a: int, d: int)
    requires
        i32::MIN <= a <= i32::MAX,
        d != 0,
        !(a == i32::MIN && d == -1),
    ensures
        i32::MIN <= div_trunc(a, d) <= i32::MAX,
{
    if a != 0 {
        if a > 0 && d > 0 {
            lemma_div_pos_is_pos(a, d);
            lemma_div_nonincreasing(a, d);
        } else if a < 0 && d < 0 {
            lemma_div_pos_is_pos(-a, -d);
            lemma_div_nonincreasing(-a, -d);
            if d < -1 {
                lemma_div_is_strictly_smaller(-a, -d);
            }
        } else if a < 0 {
            lemma_div_pos_is_pos(-a, d);
            lemma_div_nonincreasing(-a, d);
        } else {
            lemma_div_pos_is_pos(a, -d);
            lemma_div_nonincreasing(a, -d);
        }
    }
}

impl First {
    /// Self-loop: a fresh capsule whose payload has grown by `addend`.
    ///
    /// The sum must fit the carrier; overflowing silently is not
    /// acceptable, so staying in range is the caller's obligation.
    pub fn add(&self, addend: u32) -> (r: Self)
        requires
            self@ + addend <= u32::MAX,
        ensures
            r@ == self_loop(self@ as int, addend as int),
    {
        First(self.0 + addend)
    }

    /// The payload, read only; observing it moves nothing.
    pub fn payload(&self) -> (r: u32)
        ensures
            r == self@,
    {
        self.0
    }

    /// Cross-transition to the middle state, consuming the capsule.
    ///
    /// The payload moves to the signed carrier and `addend` is summed onto
    /// it; keeping both the payload and the sum in the signed range is the
    /// caller's obligation.
    pub fn into_second(self, addend: i32) -> (r: Second)
        requires
            self@ <= i32::MAX,
            i32::MIN <= self@ + addend <= i32::MAX,
        ensures
            r@ == self@ + addend,
    {
        Second(self.0 as i32 + addend)
    }
}

impl Second {
    /// Self-loop: a fresh capsule whose payload has grown by `addend`.
    pub fn add(&self, addend: i32) -> (r: Self)
        requires
            i32::MIN <= self@ + addend <= i32::MAX,
        ensures
            r@ == self_loop(self@ as int, addend as int),
    {
        Second(self.0 + addend)
    }

    /// The payload, read only; observing it moves nothing.
    pub fn payload(&self) -> (r: i32)
        ensures
            r == self@,
    {
        self.0
    }

    /// Fallible cross-transition to the terminal state.
    ///
    /// On success the capsule is consumed and the terminal payload is the
    /// product of the payload and `factor`. When that product overflows the
    /// 32-bit signed carrier, the very capsule is handed back, unharmed,
    /// together with the reason, so the machine is never stranded.
    pub fn into_third(self, factor: i32) -> (r: Result<Third, (Second, FailureReason)>)
        ensures
            i32::MIN <= self@ * factor <= i32::MAX ==> (r matches Ok(t) && t@ == self@
                * factor),
            !(i32::MIN <= self@ * factor <= i32::MAX) ==> (r matches Err(e) && e.0@ == self@
                && e.1 == FailureReason::TransitionOverflow),
    {
        match self.0.checked_mul(factor) {
            Some(product) => Ok(Third(product as i64)),
            None => Err((self, FailureReason::TransitionOverflow)),
        }
    }
}

impl Third {
    /// Self-loop: a fresh capsule whose payload has grown by `addend`.
    pub fn add(&self, addend: i64) -> (r: Self)
        requires
            i64::MIN <= self@ + addend <= i64::MAX,
        ensures
            r@ == self_loop(self@ as int, addend as int),
    {
        Third(self.0 + addend)
    }

    /// The payload, read only; observing it moves nothing.
    pub fn payload(&self) -> (r: i64)
        ensures
            r == self@,
    {
        self.0
    }

    /// Cross-transition back to the middle state, consuming the capsule.
    ///
    /// The payload is narrowed to the 32-bit signed carrier, saturating at
    /// its bounds, and divided by `divisor`, truncating toward zero. A zero
    /// divisor, or a division whose result leaves the carrier, is a
    /// contract violation, not a handled error.
    pub fn into_b(self, divisor: i32) -> (r: Second)
        requires
            divisor != 0,
            !(self@ <= i32::MIN && divisor == -1),
        ensures
            r@ == div_trunc(clamp_i32(self@ as int), divisor as int),
    {
        let clamped: i32 = if self.0 > i32::MAX as i64 {
            i32::MAX
        } else if self.0 < i32::MIN as i64 {
            i32::MIN
        } else {
            self.0 as i32
        };
        proof {
            lemma_div_trunc_in_range(clamped as int, divisor as int);
        }
        match clamped.checked_div(divisor) {
            Some(q) => Second(q),
            None => {
                proof {
                    assert(false);
                }
                Second(0)
            },
        }
    }
}

/// Self-loops fuse: looping a payload by `a` and then by `b` lands on the
/// same payload as looping once by `a + b`. Every state's self-loop acts on
/// its payload as `self_loop`, so this covers all three of them.
pub proof fn lemma_self_loop_fuses(payload: int, a: int, b: int)
    ensures
        self_loop(self_loop(payload, a), b) == self_loop(payload, a + b),
{
}

/// Round trip: a middle payload carried forward with a nonzero factor whose
/// product stays in the 32-bit range, and straight back with that same
/// number as the divisor, returns to exactly the payload it started from.
/// The terminal payload is held at scale one, which makes the trip exact:
/// the forward move installs `payload * factor` and the backward move
/// divides it by `factor` with no remainder.
pub proof fn lemma_round_trip(payload: int, factor: int)
    requires
        i32::MIN <= payload <= i32::MAX,
        factor != 0,
        i32::MIN <= payload * factor <= i32::MAX,
    ensures
        div_trunc(clamp_i32(payload * factor), factor) == payload,
{
    let prod = payload * factor;
    assert(clamp_i32(prod) == prod);
    if payload == 0 {
        assert(prod == 0) by (nonlinear_arith)
            requires
                prod == payload * factor,
                payload == 0,
        ;
    } else if payload > 0 && factor > 0 {
        assert(prod > 0 && prod == factor * payload) by (nonlinear_arith)
            requires
                prod == payload * factor,
                payload > 0,
                factor > 0,
        ;
        lemma_div_multiples_vanish(payload, factor);
    } else if payload < 0 && factor < 0 {
        assert(prod > 0 && prod == (-factor) * (-payload)) by (nonlinear_arith)
            requires
                prod == payload * factor,
                payload < 0,
                factor < 0,
        ;
        lemma_div_multiples_vanish(-payload, -factor);
    } else if payload > 0 && factor < 0 {
        assert(prod < 0 && -prod == (-factor) * payload) by (nonlinear_arith)
            requires
                prod == payload * factor,
                payload > 0,
                factor < 0,
        ;
        lemma_div_multiples_vanish(payload, -factor);
    } else {
        assert(prod < 0 && -prod == factor * (-payload)) by (nonlinear_arith)
            requires
                prod == payload * factor,
                payload < 0,
                factor > 0,
        ;
        lemma_div_multiples_vanish(-payload, factor);
    }
}

/// The machine handle: a closed union carrying exactly one capsule at every
/// observable instant. It performs no business logic of its own; it is the
/// carrier plus the privacy boundary that keeps the capsule constructors
/// out of reach.
#[derive(Debug)]
pub enum StateMachine {
    First(First),
    Second(Second),
    Third(Third),
}

impl StateMachine {
    /// The sole public way into the machine: every machine begins in the
    /// entry state, wrapping the seed. The seed carries no precondition.
    pub fn new(initial: u32) -> (r: Self)
        ensures
            (r matches StateMachine::First(f) && f@ == initial),
    {
        StateMachine::First(First(initial))
    }
}

} // verus!
