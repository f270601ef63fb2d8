//! Velocity profile for straight moves, from the scalar projection of
//! the current position onto the segment being driven.
//!
//! The commanded speed is in thousandths of full speed. Plotted against
//! distance the profile is a square-root ramp at both ends (constant
//! acceleration is linear in time, not in distance), capped at full
//! speed, and floored at a tenth of full speed on the approach half so
//! the robot cannot stall chasing a commanded velocity of zero.

use vstd::prelude::*;

use crate::num::{abs, sqrt_floor, tdiv};
use crate::vec::{coord_in_range, Vec2};

verus! {

/// Full speed, in thousandths.
pub const FULL_SPEED: i64 = 1000;

/// The non-zero floor commanded on the approach half, a tenth of full
/// speed.
pub const FLOOR_SPEED: i64 = 100;

/// Signed distance of `pos` along the segment from `start` towards
/// `end`, in millimetres: the scalar projection onto the segment.
pub open spec fn proj_dist(start: Vec2, end: Vec2, path_dist: int, pos: Vec2) -> int {
    tdiv(
        (pos.x - start.x) * (end.x - start.x) + (pos.y - start.y) * (end.y - start.y),
        path_dist,
    )
}

/// The square-root ramp over the distance from the closest segment end,
/// already capped at full speed.
pub open spec fn ramp_speed(from_closest_end: int) -> int {
    let v = sqrt_floor(tdiv(from_closest_end * 4000, 3) as nat) as int;
    if v > FULL_SPEED {
        FULL_SPEED as int
    } else {
        v
    }
}

/// Commanded speed at `pos` for the segment `start -> end` of length
/// `path_dist`, in thousandths of full speed. A degenerate zero-length
/// segment commands zero.
pub open spec fn profile_speed(start: Vec2, end: Vec2, path_dist: int, pos: Vec2) -> int {
    if path_dist <= 0 {
        0
    } else {
        let dist = proj_dist(start, end, path_dist, pos);
        let halfway = path_dist / 2;
        let from_hw = abs(halfway - dist);
        let from_closest_end = if halfway - from_hw > 0 {
            halfway - from_hw
        } else {
            0
        };
        let capped = ramp_speed(from_closest_end);
        if dist < halfway && capped < FLOOR_SPEED {
            FLOOR_SPEED as int
        } else {
            capped
        }
    }
}

/// Commanded speed at `pos` for the segment `start -> end`.
pub fn velocity_profile(start: Vec2, end: Vec2, path_dist: i64, pos: Vec2) -> (r: i64)
    requires
        coord_in_range(start),
        coord_in_range(end),
        coord_in_range(pos),
        path_dist <= 4 * crate::vec::MAX_COORD_MM,
    ensures
        r == profile_speed(start, end, path_dist as int, pos),
        0 <= r <= FULL_SPEED,
{
    if path_dist <= 0 {
        return 0;
    }
    let m = crate::vec::MAX_COORD_MM;
    proof {
        crate::num::lemma_mul_bound(
            pos.x as int - start.x as int,
            end.x as int - start.x as int,
            2 * m as int,
            2 * m as int,
        );
        crate::num::lemma_mul_bound(
            pos.y as int - start.y as int,
            end.y as int - start.y as int,
            2 * m as int,
            2 * m as int,
        );
        crate::num::lemma_tdiv_bound(
            (pos.x as int - start.x as int) * (end.x as int - start.x as int) + (pos.y as int
                - start.y as int) * (end.y as int - start.y as int),
            path_dist as int,
            8 * m as int * m as int,
        );
    }
    let dist = crate::num::div_trunc(
        (pos.x - start.x) * (end.x - start.x) + (pos.y - start.y) * (end.y - start.y),
        path_dist,
    );
    let halfway = path_dist / 2;
    let from_hw = crate::num::abs_i64(halfway - dist);
    let from_closest_end = if halfway - from_hw > 0 {
        halfway - from_hw
    } else {
        0
    };
    let ramp_arg = (from_closest_end * 4000) / 3;
    let v = crate::num::isqrt(ramp_arg as u64);
    proof {
        crate::num::lemma_sqrt_floor_bounds(ramp_arg as nat);
        if sqrt_floor(ramp_arg as nat) > 3_000_000 {
            assert(false) by (nonlinear_arith)
                requires
                    sqrt_floor(ramp_arg as nat) * sqrt_floor(ramp_arg as nat) <= ramp_arg,
                    ramp_arg <= 6_000_000_000,
                    sqrt_floor(ramp_arg as nat) > 3_000_000,
            ;
        }
    }
    let capped = if v > 1000 {
        1000i64
    } else {
        v as i64
    };
    if dist < halfway && capped < FLOOR_SPEED {
        FLOOR_SPEED
    } else {
        capped
    }
}

/// At the start of a long enough segment the profile commands the
/// floor speed, not zero: the square-root ramp vanishes there and the
/// approach-half floor takes over.
pub proof fn lemma_profile_floor_at_start(start: Vec2, end: Vec2, path_dist: int)
    requires
        path_dist >= 2,
    ensures
        profile_speed(start, end, path_dist, start) == FLOOR_SPEED,
{
    assert(proj_dist(start, end, path_dist, start) == 0);
    assert(ramp_speed(0) == 0);
}

/// At the midpoint of a segment whose half-length covers the full
/// acceleration distance, the profile commands exactly full speed.
pub proof fn lemma_profile_full_speed_at_midpoint(
    start: Vec2,
    end: Vec2,
    path_dist: int,
    pos: Vec2,
)
    requires
        path_dist >= 1500,
        proj_dist(start, end, path_dist, pos) == path_dist / 2,
    ensures
        profile_speed(start, end, path_dist, pos) == FULL_SPEED,
{
    let halfway = path_dist / 2;
    assert(halfway >= 750);
    assert(tdiv(halfway * 4000, 3) >= 1_000_000) by (nonlinear_arith)
        requires
            halfway >= 750,
            tdiv(halfway * 4000, 3) == halfway * 4000 / 3,
    ;
    let arg = tdiv(halfway * 4000, 3) as nat;
    crate::num::lemma_sqrt_floor_bounds(arg);
    if sqrt_floor(arg) < 1000 {
        assert((sqrt_floor(arg) + 1) * (sqrt_floor(arg) + 1) <= 1_000_000) by (nonlinear_arith)
            requires
                sqrt_floor(arg) + 1 <= 1000,
        ;
    }
}

/// Beyond either end of the segment the profile clamps: before the
/// start it commands the floor speed, past the end it commands zero.
pub proof fn lemma_profile_clamps_outside(start: Vec2, end: Vec2, path_dist: int, pos: Vec2)
    requires
        path_dist >= 2,
    ensures
        proj_dist(start, end, path_dist, pos) < 0 ==> profile_speed(start, end, path_dist, pos)
            == FLOOR_SPEED,
        proj_dist(start, end, path_dist, pos) >= path_dist ==> profile_speed(
            start,
            end,
            path_dist,
            pos,
        ) == 0,
{
    let dist = proj_dist(start, end, path_dist, pos);
    let halfway = path_dist / 2;
    if dist < 0 {
        assert(ramp_speed(0) == 0);
    }
    if dist >= path_dist {
        assert(2 * halfway <= path_dist);
        assert(halfway - abs(halfway - dist) <= 0);
        assert(ramp_speed(0) == 0);
    }
}

} // verus!
