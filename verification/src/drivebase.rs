//! The tank drivetrain's command mapping: operator or engine commands
//! in thousandths of full power become per-motor millivolt or rpm
//! targets, and raw drive encoder counts become smoothed distances.

use vstd::prelude::*;

use crate::num::{clamp, tdiv};

verus! {

/// Full bus voltage in millivolts.
pub const MAX_MILLIVOLT: i64 = 12_000;

/// The share of the turn command mixed into each side during driver
/// control, in thousandths.
pub const TURN_MULTIPLIER_PER_MILLE: i64 = 500;

/// Drive encoder counts per micrometre numerator: one count is
/// 1/340000 of a metre, so micrometres are counts times fifty over
/// seventeen.
pub const ENC_UM_NUM: i64 = 50;

/// Denominator of the count-to-micrometre scale.
pub const ENC_UM_DEN: i64 = 17;

/// Window over which raw encoder reads are blended, in milliseconds.
pub const ENC_SMOOTH_WINDOW_MS: i64 = 40;

/// A side command clamped into one unit of power and negated for a
/// reversed motor.
pub open spec fn map_side(v: int, reversed: bool) -> int {
    let c = clamp(v, -1000, 1000);
    if reversed {
        -c
    } else {
        c
    }
}

/// The millivolt target for one motor of a side.
pub fn side_millivolts(v: i64, reversed: bool) -> (r: i64)
    ensures
        r == map_side(v as int, reversed) * 12,
        -MAX_MILLIVOLT <= r <= MAX_MILLIVOLT,
{
    let c = crate::num::clamp_i64(v, -1000, 1000);
    let c = if reversed {
        -c
    } else {
        c
    };
    c * 12
}

/// The rpm target for one motor of a side, against a maximum speed.
pub fn side_rpm(v: i64, reversed: bool, max_rpm: i64) -> (r: i64)
    requires
        0 <= max_rpm <= 10_000,
    ensures
        r == tdiv(map_side(v as int, reversed) * max_rpm, 1000),
        -max_rpm <= r <= max_rpm,
{
    let c = crate::num::clamp_i64(v, -1000, 1000);
    let c = if reversed {
        -c
    } else {
        c
    };
    proof {
        crate::num::lemma_mul_bound(c as int, max_rpm as int, 1000, 10_000);
        crate::num::lemma_tdiv_bound(c as int * max_rpm as int, 1000, 10_000_000);
        assert(tdiv(c as int * max_rpm as int, 1000) <= max_rpm && -max_rpm <= tdiv(
            c as int * max_rpm as int,
            1000,
        )) by (nonlinear_arith)
            requires
                -1000 <= c <= 1000,
                0 <= max_rpm,
                tdiv(c as int * max_rpm as int, 1000) == (if c as int * max_rpm as int >= 0 {
                    (c as int * max_rpm as int) / 1000
                } else {
                    -((-(c as int * max_rpm as int)) / 1000)
                }),
        ;
    }
    crate::num::div_trunc(c * max_rpm, 1000)
}

/// The arcade mix for driver control: forward plus half the turn on
/// the left, forward minus half the turn on the right, each clamped
/// into one unit of power.
pub fn arcade_mix(forward: i64, turning: i64) -> (r: (i64, i64))
    requires
        -2000 <= forward <= 2000,
        -2000 <= turning <= 2000,
    ensures
        r.0 == clamp(forward + tdiv(turning * TURN_MULTIPLIER_PER_MILLE, 1000), -1000, 1000),
        r.1 == clamp(forward - tdiv(turning * TURN_MULTIPLIER_PER_MILLE, 1000), -1000, 1000),
{
    proof {
        crate::num::lemma_mul_bound(turning as int, TURN_MULTIPLIER_PER_MILLE as int, 2000, 500);
        crate::num::lemma_tdiv_bound(
            turning as int * TURN_MULTIPLIER_PER_MILLE as int,
            1000,
            1_000_000,
        );
    }
    let half_turn = crate::num::div_trunc(turning * TURN_MULTIPLIER_PER_MILLE, 1000);
    (
        crate::num::clamp_i64(forward + half_turn, -1000, 1000),
        crate::num::clamp_i64(forward - half_turn, -1000, 1000),
    )
}

/// Wheel circumference in micrometres, for velocity targets: the
/// drive wheels are just under eighty-four millimetres across.
pub const WHEEL_CIRC_UM: i64 = 263_580;

/// A side velocity in millimetres a second as a wheel speed in
/// revolutions per minute.
pub fn vel_to_rpm(v_mm_s: i64) -> (r: i64)
    requires
        -1_000_000 <= v_mm_s <= 1_000_000,
    ensures
        r == tdiv(v_mm_s * 60_000, WHEEL_CIRC_UM as int),
        -230_000 <= r <= 230_000,
{
    proof {
        crate::num::lemma_mul_bound(v_mm_s as int, 60_000, 1_000_000, 60_000);
        crate::num::lemma_tdiv_bound(v_mm_s as int * 60_000, WHEEL_CIRC_UM as int, 60_000_000_000int);
        assert(tdiv(v_mm_s as int * 60_000, WHEEL_CIRC_UM as int) <= 230_000 && -230_000 <= tdiv(
            v_mm_s as int * 60_000,
            WHEEL_CIRC_UM as int,
        )) by (nonlinear_arith)
            requires
                -1_000_000 <= v_mm_s <= 1_000_000,
                WHEEL_CIRC_UM == 263_580,
                tdiv(v_mm_s as int * 60_000, WHEEL_CIRC_UM as int) == (if v_mm_s as int * 60_000
                    >= 0 {
                    (v_mm_s as int * 60_000) / (WHEEL_CIRC_UM as int)
                } else {
                    -((-(v_mm_s as int * 60_000)) / (WHEEL_CIRC_UM as int))
                }),
        ;
    }
    crate::num::div_trunc(v_mm_s * 60_000, WHEEL_CIRC_UM)
}

/// A drive encoder count as micrometres of travel.
pub open spec fn enc_counts_to_um(counts: int) -> int {
    tdiv(counts * ENC_UM_NUM, ENC_UM_DEN as int)
}

/// Convert a raw drive encoder count to micrometres, negated for a
/// reversed motor.
pub fn encoder_um(counts: i32, reversed: bool) -> (r: i64)
    ensures
        r == (if reversed {
            enc_counts_to_um(-counts as int)
        } else {
            enc_counts_to_um(counts as int)
        }),
        -0x4_0000_0000_0000 <= r <= 0x4_0000_0000_0000,
{
    let c: i64 = if reversed {
        -(counts as i64)
    } else {
        counts as i64
    };
    proof {
        crate::num::lemma_mul_bound(c as int, ENC_UM_NUM as int, 0x8000_0000, 50);
        crate::num::lemma_tdiv_bound(c as int * ENC_UM_NUM as int, ENC_UM_DEN as int, 0x8000_0000int * 50);
    }
    crate::num::div_trunc(c * ENC_UM_NUM, ENC_UM_DEN)
}

/// Blend the previous accepted encoder distance with a fresh read to
/// avoid aliasing at coarse resolution: within the smoothing window
/// the fresh value only carries its elapsed share.
pub fn smooth_encoder(last_um: i64, fresh_um: i64, elapsed_ms: i64) -> (r: i64)
    requires
        -0x4_0000_0000_0000 <= last_um <= 0x4_0000_0000_0000,
        -0x4_0000_0000_0000 <= fresh_um <= 0x4_0000_0000_0000,
        0 <= elapsed_ms,
    ensures
        r == (if elapsed_ms < ENC_SMOOTH_WINDOW_MS {
            tdiv(
                (ENC_SMOOTH_WINDOW_MS - elapsed_ms) * last_um + elapsed_ms * fresh_um,
                ENC_SMOOTH_WINDOW_MS as int,
            )
        } else {
            fresh_um as int
        }),
    {
    if elapsed_ms < ENC_SMOOTH_WINDOW_MS {
        proof {
            crate::num::lemma_mul_bound(
                ENC_SMOOTH_WINDOW_MS as int - elapsed_ms,
                last_um as int,
                40,
                0x4_0000_0000_0000int,
            );
            crate::num::lemma_mul_bound(
                elapsed_ms as int,
                fresh_um as int,
                40,
                0x4_0000_0000_0000int,
            );
            crate::num::lemma_tdiv_bound(
                (ENC_SMOOTH_WINDOW_MS as int - elapsed_ms) * last_um + elapsed_ms * fresh_um,
                ENC_SMOOTH_WINDOW_MS as int,
                80 * 0x4_0000_0000_0000int,
            );
        }
        crate::num::div_trunc(
            (ENC_SMOOTH_WINDOW_MS - elapsed_ms) * last_um + elapsed_ms * fresh_um,
            ENC_SMOOTH_WINDOW_MS,
        )
    } else {
        fresh_um
    }
}

} // verus!
