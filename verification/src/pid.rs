//! Proportional-integral-derivative controller over scaled integers.
//!
//! Gains are in thousandths, the process variable and target share one
//! scaled unit (the angle controller feeds millidegrees), and the output
//! is in thousandths of full drive power. The integral term uses Clegg
//! anti-windup: it resets to zero the moment the error changes sign, and
//! is clamped to one unit of full power either way.

use vstd::prelude::*;

use crate::num::{clamp, tdiv};

verus! {

/// Bound on gains, in thousandths.
pub const MAX_GAIN: i64 = 1_000_000;

/// Bound on the target and process variable, in scaled units.
pub const MAX_MEASURE: i64 = 1_000_000_000;

/// Integration is skipped when more than this many milliseconds passed
/// since the previous poll: a stalled loop must not produce an integral
/// spike out of one huge time step.
pub const MAX_SANE_DT_MS: u64 = 50;

/// Sign of an error sample; zero counts as positive, so a run of zero
/// errors does not read as a sign change.
pub open spec fn sgn(x: int) -> int {
    if x >= 0 {
        1
    } else {
        -1
    }
}

pub struct Pid {
    pub kp: i64,
    pub ki: i64,
    pub kd: i64,
    pub target: i64,
    pub ki_integral: i64,
    pub last_error: i64,
    pub first_update: bool,
}

/// The integral accumulator after one poll: reset on a sign flip, then
/// grown by `ki * error * dt` (thousandth gain, milliseconds to seconds),
/// then clamped to one unit of full power.
pub open spec fn pid_integral_next(
    ki: int,
    old_integral: int,
    old_last_error: int,
    error: int,
    dt_ms: int,
) -> int {
    let base = if sgn(error) != sgn(old_last_error) {
        0
    } else {
        old_integral
    };
    let growth = if 0 < dt_ms <= MAX_SANE_DT_MS as int {
        tdiv(ki * error * dt_ms, 1_000_000)
    } else {
        0
    };
    clamp(base + growth, -1000, 1000)
}

/// The control output: the proportional term in thousandths, the
/// already-clamped integral accumulator, and the derivative of the
/// error over the elapsed time. Two polls in the same millisecond must
/// not divide by zero: the derivative term is then dropped. The
/// thousandth gain and the millisecond-to-second scale cancel in the
/// derivative quotient.
pub open spec fn pid_output_spec(
    kp: int,
    kd: int,
    error: int,
    old_last_error: int,
    integral: int,
    dt_ms: int,
) -> int {
    let derivative = if dt_ms > 0 {
        tdiv(kd * (error - old_last_error), dt_ms)
    } else {
        0
    };
    tdiv(kp * error, 1000) + integral + derivative
}

impl Pid {
    /// Gains and accumulated state stay inside the ranges the fixed-point
    /// arithmetic was sized for.
    pub open spec fn wf(self) -> bool {
        &&& -MAX_GAIN <= self.kp <= MAX_GAIN
        &&& -MAX_GAIN <= self.ki <= MAX_GAIN
        &&& -MAX_GAIN <= self.kd <= MAX_GAIN
        &&& -MAX_MEASURE <= self.target <= MAX_MEASURE
        &&& -1000 <= self.ki_integral <= 1000
        &&& -2 * MAX_MEASURE <= self.last_error <= 2 * MAX_MEASURE
    }

    pub fn new(kp: i64, ki: i64, kd: i64) -> (r: Pid)
        requires
            -MAX_GAIN <= kp <= MAX_GAIN,
            -MAX_GAIN <= ki <= MAX_GAIN,
            -MAX_GAIN <= kd <= MAX_GAIN,
        ensures
            r.wf(),
            r.kp == kp && r.ki == ki && r.kd == kd,
            r.target == 0 && r.ki_integral == 0 && r.last_error == 0,
            r.first_update,
    {
        Pid { kp, ki, kd, target: 0, ki_integral: 0, last_error: 0, first_update: true }
    }

    /// Aim at a new setpoint. The integral accumulator and previous
    /// error are cleared with it, so a setpoint jump cannot produce an
    /// integral carry-over or a derivative kick.
    pub fn set_target(&mut self, target: i64)
        requires
            old(self).wf(),
            -MAX_MEASURE <= target <= MAX_MEASURE,
        ensures
            final(self).wf(),
            *final(self) == (Pid {
                target,
                ki_integral: 0,
                last_error: 0,
                first_update: true,
                ..*old(self)
            }),
    {
        self.target = target;
        self.ki_integral = 0;
        self.last_error = 0;
        self.first_update = true;
    }

    /// Forget all accumulated state; to be called whenever the target
    /// jumps, so that no stale integral or derivative kick carries over.
    pub fn reset(&mut self)
        requires
            old(self).wf(),
        ensures
            final(self).wf(),
            *final(self) == (Pid {
                ki_integral: 0,
                last_error: 0,
                first_update: true,
                ..*old(self)
            }),
    {
        self.first_update = true;
        self.ki_integral = 0;
        self.last_error = 0;
    }

    /// One controller step, `dt_ms` milliseconds after the previous one.
    pub fn poll(&mut self, pv: i64, dt_ms: u64) -> (out: i64)
        requires
            old(self).wf(),
            -MAX_MEASURE <= pv <= MAX_MEASURE,
        ensures
            final(self).wf(),
            final(self).kp == old(self).kp,
            final(self).ki == old(self).ki,
            final(self).kd == old(self).kd,
            final(self).target == old(self).target,
            final(self).last_error == old(self).target - pv,
            final(self).ki_integral == pid_integral_next(
                old(self).ki as int,
                old(self).ki_integral as int,
                old(self).last_error as int,
                old(self).target - pv,
                dt_ms as int,
            ),
            out == pid_output_spec(
                old(self).kp as int,
                old(self).kd as int,
                old(self).target - pv,
                old(self).last_error as int,
                final(self).ki_integral as int,
                dt_ms as int,
            ),
    {
        let error = self.target - pv;

        // Clegg integrator: a sign change on the error empties the
        // accumulator, so overshoot does not fight stale windup.
        let flip = if self.last_error >= 0 {
            error < 0
        } else {
            error >= 0
        };
        if flip {
            self.ki_integral = 0;
        }

        if 0 < dt_ms && dt_ms <= MAX_SANE_DT_MS {
            proof {
                crate::num::lemma_mul_bound(
                    self.ki as int,
                    error as int,
                    MAX_GAIN as int,
                    2 * MAX_MEASURE as int,
                );
                crate::num::lemma_mul_bound(
                    self.ki as int * error as int,
                    dt_ms as int,
                    MAX_GAIN as int * 2 * MAX_MEASURE as int,
                    MAX_SANE_DT_MS as int,
                );
                crate::num::lemma_tdiv_bound(
                    self.ki as int * error as int * dt_ms as int,
                    1_000_000,
                    100_000_000_000_000_000,
                );
            }
            let growth = crate::num::div_trunc(self.ki * error * dt_ms as i64, 1_000_000);
            self.ki_integral = self.ki_integral + growth;
        }
        self.ki_integral = crate::num::clamp_i64(self.ki_integral, -1000, 1000);

        proof {
            crate::num::lemma_mul_bound(
                self.kp as int,
                error as int,
                MAX_GAIN as int,
                2 * MAX_MEASURE as int,
            );
            crate::num::lemma_mul_bound(
                self.kd as int,
                error as int - self.last_error as int,
                MAX_GAIN as int,
                4 * MAX_MEASURE as int,
            );
            crate::num::lemma_tdiv_bound(
                self.kp as int * error as int,
                1000,
                2 * MAX_GAIN as int * MAX_MEASURE as int,
            );
        }
        let p_term = crate::num::div_trunc(self.kp * error, 1000);
        let d_term: i64 = if dt_ms > 0 {
            // A divisor past the derivative numerator's own range only
            // yields zero either way; capping it keeps the division in
            // the machine word.
            let dt_div: i64 = if dt_ms > 0x4000_0000_0000_0000 {
                0x4000_0000_0000_0000
            } else {
                dt_ms as i64
            };
            proof {
                crate::num::lemma_tdiv_bound(
                    self.kd as int * (error as int - self.last_error as int),
                    dt_div as int,
                    4 * MAX_GAIN as int * MAX_MEASURE as int,
                );
                if dt_ms > 0x4000_0000_0000_0000 {
                    lemma_tiny_quotient_is_zero(
                        self.kd as int * (error as int - self.last_error as int),
                        dt_div as int,
                        dt_ms as int,
                    );
                }
            }
            crate::num::div_trunc(self.kd * (error - self.last_error), dt_div)
        } else {
            0
        };
        let out = p_term + self.ki_integral + d_term;

        self.last_error = error;
        out
    }
}

/// A numerator smaller than either of two large divisors divides to
/// zero under both.
proof fn lemma_tiny_quotient_is_zero(a: int, d1: int, d2: int)
    requires
        d1 >= 0x4000_0000_0000_0000,
        d2 >= 0x4000_0000_0000_0000,
        -4_000_000_000_000_000 <= a <= 4_000_000_000_000_000,
    ensures
        tdiv(a, d1) == 0,
        tdiv(a, d2) == 0,
        tdiv(a, d1) == tdiv(a, d2),
{
    assert(tdiv(a, d1) == 0 && tdiv(a, d2) == 0) by (nonlinear_arith)
        requires
            d1 >= 0x4000_0000_0000_0000,
            d2 >= 0x4000_0000_0000_0000,
            -4_000_000_000_000_000 <= a <= 4_000_000_000_000_000,
            tdiv(a, d1) == (if a >= 0 {
                a / d1
            } else {
                -((-a) / d1)
            }),
            tdiv(a, d2) == (if a >= 0 {
                a / d2
            } else {
                -((-a) / d2)
            }),
    ;
}

/// The anti-windup law: at a tick where the error sign flips, the new
/// accumulator is built from zero — whatever had wound up before the
/// flip has no effect on it.
pub proof fn lemma_clegg_reset_discards_windup(
    ki: int,
    integral_a: int,
    integral_b: int,
    old_last_error: int,
    error: int,
    dt_ms: int,
)
    requires
        sgn(error) != sgn(old_last_error),
    ensures
        pid_integral_next(ki, integral_a, old_last_error, error, dt_ms) == pid_integral_next(
            ki,
            integral_b,
            old_last_error,
            error,
            dt_ms,
        ),
{
}

} // verus!
