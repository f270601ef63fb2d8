//! Fixed-point arithmetic, angles, geometry and the velocity profile.

use lemon::angle;
use lemon::motion_profile::get_profile_velocity;
use lemon::num;
use lemon::profile;
use lemon::vec::{distance_mm, perpendicular_distance, Vec2};

#[test]
fn isqrt_small_values() {
    assert_eq!(num::isqrt(0), 0);
    assert_eq!(num::isqrt(1), 1);
    assert_eq!(num::isqrt(15), 3);
    assert_eq!(num::isqrt(16), 4);
    assert_eq!(num::isqrt(1_000_000), 1000);
    assert_eq!(num::isqrt(999_999), 999);
}

#[test]
fn isqrt_round_rounds_to_nearest() {
    assert_eq!(num::isqrt_round(24_999_041), 5000);
    assert_eq!(num::isqrt_round(2), 1);
    assert_eq!(num::isqrt_round(3), 2);
    assert_eq!(num::isqrt_round(50_000_000), 7071);
}

#[test]
fn div_trunc_rounds_toward_zero() {
    assert_eq!(num::div_trunc(7, 2), 3);
    assert_eq!(num::div_trunc(-7, 2), -3);
    assert_eq!(num::div_trunc(-1, 2), 0);
}

#[test]
fn norm_wraps_into_full_turn() {
    assert_eq!(angle::norm_mdeg(0), 0);
    assert_eq!(angle::norm_mdeg(360_000), 0);
    assert_eq!(angle::norm_mdeg(-90_000), 270_000);
    assert_eq!(angle::norm_mdeg(725_000), 5_000);
    assert_eq!(angle::norm_mdeg(-725_000), 355_000);
}

#[test]
fn heading_wrap_picks_nearest_equivalent() {
    // A bearing of 270 degrees from heading zero is a quarter turn the
    // other way.
    assert_eq!(angle::optimise_target_heading(0, 270_000), -90_000);
    // From two full turns, a ninety-degree bearing resolves just past
    // two turns, not back at the origin.
    assert_eq!(angle::optimise_target_heading(720_000, 90_000), 810_000);
    // Within half a turn the bearing is taken as is.
    assert_eq!(angle::optimise_target_heading(10_000, 100_000), 100_000);
    // The resolved angle differs from the current heading by at most
    // half a turn, whatever the inputs.
    let r = angle::optimise_target_heading(123_456_789, 17);
    assert!((r - 123_456_789i64).abs() <= 180_000);
    assert_eq!((r - 17).rem_euclid(360_000), 0);
}

#[test]
fn sine_cosine_exact_points() {
    assert_eq!(angle::sin_mdeg(0), 0);
    assert_eq!(angle::sin_mdeg(90_000), 1_000_000);
    assert_eq!(angle::sin_mdeg(30_000), 500_000);
    assert_eq!(angle::sin_mdeg(150_000), 500_000);
    assert_eq!(angle::sin_mdeg(180_000), 0);
    assert_eq!(angle::sin_mdeg(-90_000), -1_000_000);
    assert_eq!(angle::cos_mdeg(0), 1_000_000);
    assert_eq!(angle::cos_mdeg(90_000), 0);
    assert_eq!(angle::cos_mdeg(180_000), -1_000_000);
    assert_eq!(angle::cos_mdeg(360_000), 1_000_000);
}

#[test]
fn sine_is_close_between_exact_points() {
    // sin 45 degrees is 0.7071...; the rational approximation stays
    // within two thousandths of it.
    let s = angle::sin_mdeg(45_000);
    assert!((s - 707_107i64).abs() < 2_000);
    let s60 = angle::sin_mdeg(60_000);
    assert!((s60 - 866_025i64).abs() < 2_000);
}

#[test]
fn atan2_axes_and_diagonals() {
    assert_eq!(angle::atan2_mdeg(0, 0), 0);
    assert_eq!(angle::atan2_mdeg(1_000, 0), 90_000);
    assert_eq!(angle::atan2_mdeg(-1_000, 0), -90_000);
    assert_eq!(angle::atan2_mdeg(0, 1_000), 0);
    assert_eq!(angle::atan2_mdeg(0, -1_000), 180_000);
    assert_eq!(angle::atan2_mdeg(1_000, 1_000), 45_000);
    // A shallow angle lands within a fraction of a degree.
    let a = angle::atan2_mdeg(500, 1_000);
    assert!((a - 26_565i64).abs() < 300);
}

#[test]
fn dot_product_of_plane_vectors() {
    let a = Vec2::new(3, 4);
    let b = Vec2::new(-2, 5);
    assert_eq!(a.dot(b), 14);
    assert_eq!(a.dot(a), 25);
}

#[test]
fn distance_rounds_to_nearest_millimetre() {
    let a = Vec2 { x: 0, y: 0 };
    let b = Vec2 { x: 3, y: 4 };
    assert_eq!(distance_mm(a, b), 5);
    let c = Vec2 { x: 7_071, y: 7_071 };
    assert_eq!(distance_mm(a, c), 10_000);
}

#[test]
fn herons_formula_right_triangle() {
    // For start (0,0), end (10,0) and position (5,5) in metres scaled
    // to millimetres, the perpendicular distance is exactly five
    // metres.
    let start = Vec2 { x: 0, y: 0 };
    let end = Vec2 { x: 10_000, y: 0 };
    let pos = Vec2 { x: 5_000, y: 5_000 };
    assert_eq!(perpendicular_distance(start, end, pos), 5_000);
}

#[test]
fn herons_formula_degenerate_cases() {
    let start = Vec2 { x: 0, y: 0 };
    // A zero-length base reports zero instead of dividing by it.
    assert_eq!(perpendicular_distance(start, start, Vec2 { x: 5, y: 5 }), 0);
    // A collinear position is on the line.
    let end = Vec2 { x: 10_000, y: 0 };
    assert_eq!(perpendicular_distance(start, end, Vec2 { x: 4_000, y: 0 }), 0);
}

#[test]
fn profile_floor_at_start_and_cap_at_midpoint() {
    let start = Vec2 { x: 0, y: 0 };
    let end = Vec2 { x: 10_000, y: 0 };
    // At the start the ramp would command zero; the floor takes over.
    assert_eq!(profile::velocity_profile(start, end, 10_000, start), 100);
    // At the midpoint of a long segment the cap is reached exactly.
    let mid = Vec2 { x: 5_000, y: 0 };
    assert_eq!(profile::velocity_profile(start, end, 10_000, mid), 1000);
}

#[test]
fn profile_clamps_outside_the_segment() {
    let start = Vec2 { x: 0, y: 0 };
    let end = Vec2 { x: 10_000, y: 0 };
    // Before the start: clamped to the start's floored value.
    let before = Vec2 { x: -500, y: 0 };
    assert_eq!(profile::velocity_profile(start, end, 10_000, before), 100);
    // Past the end: zero.
    let past = Vec2 { x: 11_000, y: 0 };
    assert_eq!(profile::velocity_profile(start, end, 10_000, past), 0);
    // A zero-length segment commands zero.
    assert_eq!(profile::velocity_profile(start, start, 0, start), 0);
}

#[test]
fn profile_ramps_up_through_the_approach() {
    let start = Vec2 { x: 0, y: 0 };
    let end = Vec2 { x: 10_000, y: 0 };
    // v = sqrt(d * 4000 / 3) thousandths at d millimetres in.
    let at = Vec2 { x: 300, y: 0 };
    assert_eq!(profile::velocity_profile(start, end, 10_000, at), 632);
}

#[test]
fn waypoint_interpolation_weights_by_distance() {
    let points = vec![
        Vec2 { x: 0, y: 0 },
        Vec2 { x: 100, y: 0 },
        Vec2 { x: 200, y: 0 },
        Vec2 { x: 300, y: 0 },
    ];
    let vels = vec![0, 400, 400, 0];
    // Exactly on an interior sample the weight of that sample
    // dominates its neighbours by four orders of magnitude.
    let v = get_profile_velocity(&vels, &points, Vec2 { x: 100, y: 0 });
    assert!(v > 390 && v <= 400);
    // Midway between two interior samples the mean leans on both.
    let v = get_profile_velocity(&vels, &points, Vec2 { x: 150, y: 0 });
    assert!(v > 350 && v <= 400);
    // On the last sample the edge triple keeps the result near its
    // own target velocity.
    let v = get_profile_velocity(&vels, &points, Vec2 { x: 300, y: 0 });
    assert!(v < 10);
}
