//! First-order lag on a fixed-point value.
//!
//! The lag is stepped implicitly: during a tick of length `dt` the output
//! covers the fraction `dt / (tau + dt)` of its distance to the input, where
//! `tau` is the time constant. The output therefore never overshoots,
//! however long the tick, and because the step is rounded up it reaches a
//! steady input exactly, after which it no longer changes.

use vstd::prelude::*;
use crate::fixed_point::Ratio;

verus! {

/// Quotient of `a` by a positive `d`, rounded up.
pub open spec fn div_rounded_up(a: nat, d: nat) -> nat {
    if a % d == 0 {
        a / d
    } else {
        a / d + 1
    }
}

/// How far an output moves in `dt` nanoseconds toward a target that is
/// `distance` away, with time constant `tau`: the fraction `dt / (tau + dt)`
/// of the distance, rounded up so that a move is never lost to rounding.
pub open spec fn travel(distance: nat, dt: nat, tau: nat) -> nat {
    if dt == 0 {
        0
    } else {
        div_rounded_up(distance * dt, tau + dt)
    }
}

/// The output that follows `output` after `dt` nanoseconds of tracking
/// `target`.
pub open spec fn filtered(output: int, target: int, dt: nat, tau: nat) -> int {
    if target >= output {
        output + travel((target - output) as nat, dt, tau)
    } else {
        output - travel((output - target) as nat, dt, tau)
    }
}

/// A move is never longer than the distance to the target, and whenever
/// time passes and the target is not reached yet, the output moves.
pub proof fn lemma_travel_bounds(distance: nat, dt: nat, tau: nat)
    ensures
        travel(distance, dt, tau) <= distance,
        dt > 0 && distance > 0 ==> travel(distance, dt, tau) >= 1,
{
    if dt > 0 {
        let a = distance * dt;
        let d = tau + dt;
        let q = a / d;
        let r = a % d;
        assert(a == q * d + r && 0 <= r < d) by (nonlinear_arith)
            requires
                d > 0,
                q == a / d,
                r == a % d,
        ;
        assert(a <= distance * d) by (nonlinear_arith)
            requires
                a == distance * dt,
                d == tau + dt,
        ;
        assert(q <= distance && (r > 0 ==> q < distance)) by (nonlinear_arith)
            requires
                a == q * d + r,
                0 <= r < d,
                a <= distance * d,
        ;
        if distance > 0 {
            assert(a > 0) by (nonlinear_arith)
                requires
                    a == distance * dt,
                    distance > 0,
                    dt > 0,
            ;
            assert(q >= 1 || r > 0) by (nonlinear_arith)
                requires
                    a == q * d + r,
                    a > 0,
                    q >= 0,
            ;
        }
    }
}

/// The filtered output lies between the previous output and the target.
pub proof fn lemma_filtered_between(output: int, target: int, dt: nat, tau: nat)
    ensures
        output <= target ==> output <= filtered(output, target, dt, tau) <= target,
        output >= target ==> target <= filtered(output, target, dt, tau) <= output,
        dt > 0 && output != target ==> filtered(output, target, dt, tau) != output,
{
    if target >= output {
        lemma_travel_bounds((target - output) as nat, dt, tau);
    } else {
        lemma_travel_bounds((output - target) as nat, dt, tau);
    }
}

/// The distance between two values.
pub open spec fn distance(a: int, b: int) -> nat {
    if a >= b {
        (a - b) as nat
    } else {
        (b - a) as nat
    }
}

/// One update shrinks the distance to the target at least by the factor
/// `tau / (tau + dt)`.
pub proof fn lemma_filtered_closes_in(output: int, target: int, dt: nat, tau: nat)
    ensures
        distance(filtered(output, target, dt, tau), target) * (tau + dt) <= distance(output, target)
            * tau,
{
    let d = distance(output, target);
    let moved = travel(d, dt, tau);
    lemma_travel_bounds(d, dt, tau);
    assert(distance(filtered(output, target, dt, tau), target) == d - moved);
    if dt > 0 {
        let a = d * dt;
        let span = tau + dt;
        let q = a / span;
        let r = a % span;
        assert(a == q * span + r && 0 <= r < span) by (nonlinear_arith)
            requires
                span > 0,
                q == a / span,
                r == a % span,
        ;
        assert(moved * span >= a) by (nonlinear_arith)
            requires
                a == q * span + r,
                0 <= r < span,
                moved == if r == 0 {
                    q
                } else {
                    q + 1
                },
        ;
        assert((d - moved) * span <= d * tau) by (nonlinear_arith)
            requires
                moved * span >= a,
                a == d * dt,
                span == tau + dt,
        ;
    } else {
        assert(moved == 0);
        assert((d - moved) * (tau + dt) == d * tau);
    }
}

/// A value that follows its input with a first-order lag.
pub struct LowPassFilter {
    time_constant_ns: u64,
    filtered_output: Ratio,
}

impl LowPassFilter {
    /// The time constant, in nanoseconds.
    pub closed spec fn time_constant(&self) -> nat {
        self.time_constant_ns as nat
    }

    /// The current output, in billionths.
    pub closed spec fn value(&self) -> int {
        self.filtered_output.nano as int
    }

    /// A filter with the given time constant whose output starts at zero.
    pub fn new(time_constant_ns: u64) -> (filter: Self)
        ensures
            filter.time_constant() == time_constant_ns,
            filter.value() == 0,
    {
        LowPassFilter { time_constant_ns, filtered_output: Ratio { nano: 0 } }
    }

    /// Lets `time_delta_ns` nanoseconds pass while the input is `new_input`,
    /// and returns the new output.
    pub fn update(&mut self, time_delta_ns: u64, new_input: Ratio) -> (output: Ratio)
        ensures
            final(self).time_constant() == old(self).time_constant(),
            final(self).value() == filtered(
                old(self).value(),
                new_input.nano as int,
                time_delta_ns as nat,
                old(self).time_constant(),
            ),
            output.nano == final(self).value(),
    {
        let current: i64 = self.filtered_output.nano;
        let rising: bool = new_input.nano >= current;
        let gap: u128 = if rising {
            (new_input.nano as i128 - current as i128) as u128
        } else {
            (current as i128 - new_input.nano as i128) as u128
        };
        let step: u128 = if time_delta_ns == 0 {
            0
        } else {
            assert(gap * time_delta_ns <= 0xffff_ffff_ffff_ffff * 0xffff_ffff_ffff_ffff)
                by (nonlinear_arith)
                requires
                    gap <= 0xffff_ffff_ffff_ffff,
                    time_delta_ns <= 0xffff_ffff_ffff_ffff,
            ;
            let weighted: u128 = gap * (time_delta_ns as u128);
            let span: u128 = self.time_constant_ns as u128 + time_delta_ns as u128;
            if weighted % span == 0 {
                weighted / span
            } else {
                weighted / span + 1
            }
        };
        proof {
            lemma_travel_bounds(
                gap as nat,
                time_delta_ns as nat,
                self.time_constant_ns as nat,
            );
        }
        let next: i64 = if rising {
            (current as i128 + step as i128) as i64
        } else {
            (current as i128 - step as i128) as i64
        };
        self.filtered_output = Ratio { nano: next };
        self.filtered_output
    }

    /// The current output.
    pub fn output(&self) -> (output: Ratio)
        ensures
            output.nano == self.value(),
    {
        self.filtered_output
    }

    /// Forces the output to `reset_value` at once.
    pub fn reset(&mut self, reset_value: Ratio)
        ensures
            final(self).time_constant() == old(self).time_constant(),
            final(self).value() == reset_value.nano,
    {
        self.filtered_output = reset_value;
    }
}

} // verus!
