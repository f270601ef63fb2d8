//! Velocity from a precomputed waypoint profile: parallel lists of
//! positions and target velocities, sampled ahead of time from a
//! trapezoid or triangle time-optimal profile. The commanded velocity
//! at a position interpolates between the three samples around the
//! nearest one, weighted by inverse squared distance.
//!
//! The path engine itself drives the analytic projection profile; this
//! interpolated form serves precomputed routes.

use vstd::prelude::*;

use crate::num::tdiv;
use crate::vec::{coord_in_range, dist_sq, Vec2, MAX_COORD_MM};

verus! {

/// The inverse-distance weight scale; squared distances are clamped to
/// one square millimetre so a sample exactly under the robot does not
/// divide by zero.
pub const WEIGHT_SCALE: i64 = 1_000_000_000_000;

/// Bound on a waypoint target velocity, in millimetres a second.
pub const MAX_WAYPOINT_VEL: i64 = 1_000_000;

/// The index of the sample nearest `pos` among the first `n` points;
/// on ties the later index wins, as a left fold keeps the last best.
pub open spec fn closest_index(points: Seq<Vec2>, pos: Vec2, n: int) -> int
    recommends
        1 <= n <= points.len(),
    decreases n,
{
    if n <= 1 {
        0
    } else {
        let prev = closest_index(points, pos, n - 1);
        if dist_sq(points[prev], pos) < dist_sq(points[n - 1], pos) {
            prev
        } else {
            n - 1
        }
    }
}

/// The inverse-squared-distance weight of one sample.
pub open spec fn sample_weight(point: Vec2, pos: Vec2) -> int {
    let d = dist_sq(point, pos);
    if d < 1 {
        WEIGHT_SCALE as int
    } else {
        WEIGHT_SCALE as int / d
    }
}

/// The three sample indices interpolated around the nearest one: its
/// neighbours where both exist, the three nearest samples at either
/// edge.
pub open spec fn interp_indices(len: int, min_i: int) -> (int, int, int) {
    if min_i == 0 {
        (0, 1, 2)
    } else if min_i == len - 1 {
        (len - 3, len - 2, len - 1)
    } else {
        (min_i - 1, min_i, min_i + 1)
    }
}

/// The interpolated velocity: the weighted mean of the three samples,
/// or the nearest sample's own velocity where all weights round to
/// zero (every sample more than a metre away).
pub open spec fn profile_velocity_spec(vels: Seq<i64>, points: Seq<Vec2>, pos: Vec2) -> int
    recommends
        vels.len() == points.len(),
        points.len() >= 3,
{
    let min_i = closest_index(points, pos, points.len() as int);
    let (a, b, c) = interp_indices(points.len() as int, min_i);
    let wa = sample_weight(points[a], pos);
    let wb = sample_weight(points[b], pos);
    let wc = sample_weight(points[c], pos);
    let wsum = wa + wb + wc;
    if wsum == 0 {
        vels[min_i] as int
    } else {
        tdiv(wa * vels[a] + wb * vels[b] + wc * vels[c], wsum)
    }
}

/// Interpolate the target velocity for `pos` from a waypoint profile.
pub fn get_profile_velocity(vels: &Vec<i64>, points: &Vec<Vec2>, pos: Vec2) -> (r: i64)
    requires
        vels@.len() == points@.len(),
        points@.len() >= 3,
        coord_in_range(pos),
        forall|i: int| 0 <= i < points@.len() ==> coord_in_range(#[trigger] points@[i]),
        forall|i: int|
            0 <= i < vels@.len() ==> -MAX_WAYPOINT_VEL <= #[trigger] vels@[i] <= MAX_WAYPOINT_VEL,
    ensures
        r == profile_velocity_spec(vels@, points@, pos),
        -MAX_WAYPOINT_VEL <= r <= MAX_WAYPOINT_VEL,
{
    // Find the nearest sample.
    let mut min_i: usize = 0;
    let mut i: usize = 1;
    while i < points.len()
        invariant
            1 <= i <= points@.len(),
            points@.len() >= 3,
            coord_in_range(pos),
            forall|j: int| 0 <= j < points@.len() ==> coord_in_range(#[trigger] points@[j]),
            min_i < i,
            min_i as int == closest_index(points@, pos, i as int),
        decreases points@.len() - i,
    {
        let cur = point_dist_sq(points[min_i], pos);
        let cand = point_dist_sq(points[i], pos);
        if cur < cand {
        } else {
            min_i = i;
        }
        i = i + 1;
    }

    let len = points.len();
    let (a, b, c): (usize, usize, usize) = if min_i == 0 {
        (0, 1, 2)
    } else if min_i == len - 1 {
        (len - 3, len - 2, len - 1)
    } else {
        (min_i - 1, min_i, min_i + 1)
    };

    let wa = weight_exec(points[a], pos);
    let wb = weight_exec(points[b], pos);
    let wc = weight_exec(points[c], pos);
    let wsum = wa + wb + wc;
    if wsum == 0 {
        vels[min_i]
    } else {
        proof {
            crate::num::lemma_mul_bound(
                wa as int,
                vels@[a as int] as int,
                WEIGHT_SCALE as int,
                MAX_WAYPOINT_VEL as int,
            );
            crate::num::lemma_mul_bound(
                wb as int,
                vels@[b as int] as int,
                WEIGHT_SCALE as int,
                MAX_WAYPOINT_VEL as int,
            );
            crate::num::lemma_mul_bound(
                wc as int,
                vels@[c as int] as int,
                WEIGHT_SCALE as int,
                MAX_WAYPOINT_VEL as int,
            );
        }
        let num: i128 = (wa as i128) * (vels[a] as i128) + (wb as i128) * (vels[b] as i128) + (
        wc as i128) * (vels[c] as i128);
        let quotient: i128 = if num >= 0 {
            num / (wsum as i128)
        } else {
            -((-num) / (wsum as i128))
        };
        proof {
            lemma_weighted_mean_bounded(
                wa as int,
                wb as int,
                wc as int,
                vels@[a as int] as int,
                vels@[b as int] as int,
                vels@[c as int] as int,
            );
        }
        quotient as i64
    }
}

/// Squared distance between a waypoint and the position.
fn point_dist_sq(point: Vec2, pos: Vec2) -> (r: i64)
    requires
        coord_in_range(point),
        coord_in_range(pos),
    ensures
        r == dist_sq(point, pos),
        0 <= r <= 0x8_0000_0000_0000,
{
    let dx = pos.x - point.x;
    let dy = pos.y - point.y;
    proof {
        crate::num::lemma_mul_bound(
            dx as int,
            dx as int,
            2 * MAX_COORD_MM as int,
            2 * MAX_COORD_MM as int,
        );
        crate::num::lemma_mul_bound(
            dy as int,
            dy as int,
            2 * MAX_COORD_MM as int,
            2 * MAX_COORD_MM as int,
        );
        assert(dx as int * dx as int >= 0 && dy as int * dy as int >= 0) by (nonlinear_arith);
    }
    dx * dx + dy * dy
}

/// One sample's inverse-squared-distance weight.
fn weight_exec(point: Vec2, pos: Vec2) -> (r: i64)
    requires
        coord_in_range(point),
        coord_in_range(pos),
    ensures
        r == sample_weight(point, pos),
        0 <= r <= WEIGHT_SCALE,
{
    let d = point_dist_sq(point, pos);
    if d < 1 {
        WEIGHT_SCALE
    } else {
        proof {
            assert(WEIGHT_SCALE as int / (d as int) <= WEIGHT_SCALE) by (nonlinear_arith)
                requires
                    d >= 1,
                    WEIGHT_SCALE == 1_000_000_000_000,
            ;
        }
        WEIGHT_SCALE / d
    }
}

/// A weighted mean of bounded values, with nonnegative weights not
/// all zero, stays within the bound.
proof fn lemma_weighted_mean_bounded(wa: int, wb: int, wc: int, va: int, vb: int, vc: int)
    requires
        0 <= wa && 0 <= wb && 0 <= wc,
        wa + wb + wc > 0,
        -MAX_WAYPOINT_VEL <= va <= MAX_WAYPOINT_VEL,
        -MAX_WAYPOINT_VEL <= vb <= MAX_WAYPOINT_VEL,
        -MAX_WAYPOINT_VEL <= vc <= MAX_WAYPOINT_VEL,
    ensures
        -MAX_WAYPOINT_VEL <= tdiv(wa * va + wb * vb + wc * vc, wa + wb + wc) <= MAX_WAYPOINT_VEL,
{
    let m = MAX_WAYPOINT_VEL as int;
    let num = wa * va + wb * vb + wc * vc;
    let den = wa + wb + wc;
    assert(-(den * m) <= num <= den * m) by (nonlinear_arith)
        requires
            0 <= wa && 0 <= wb && 0 <= wc,
            den == wa + wb + wc,
            num == wa * va + wb * vb + wc * vc,
            -m <= va <= m,
            -m <= vb <= m,
            -m <= vc <= m,
    ;
    assert(-m <= tdiv(num, den) <= m) by (nonlinear_arith)
        requires
            den > 0,
            -(den * m) <= num <= den * m,
            m > 0,
            tdiv(num, den) == (if num >= 0 {
                num / den
            } else {
                -((-num) / den)
            }),
    ;
}

} // verus!
