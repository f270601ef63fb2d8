//! The PID controller, the pose estimator and the velocity pipeline.

use lemon::odom::{GyroPoller, Odometry, TrackingWheels, VelocityEstimator};
use lemon::pid::Pid;

#[test]
fn pid_proportional_step() {
    let mut pid = Pid::new(1000, 1000, 0);
    pid.set_target(100);
    let out = pid.poll(0, 10);
    // kp term 100, integral 1000 * 100 * 10ms / 1e6 = 1.
    assert_eq!(pid.ki_integral, 1);
    assert_eq!(out, 101);
}

#[test]
fn pid_anti_windup_resets_integral_on_sign_flip() {
    let mut pid = Pid::new(1000, 1000, 0);
    pid.set_target(100);
    // Wind the integral up with fifty ticks of persistent positive
    // error.
    let mut i = 0;
    while i < 50 {
        let _ = pid.poll(0, 10);
        i += 1;
    }
    assert_eq!(pid.ki_integral, 50);
    // The moment the error changes sign the accumulator restarts from
    // zero: only this tick's own contribution remains.
    let out = pid.poll(200, 10);
    assert_eq!(pid.ki_integral, -1);
    assert_eq!(out, -101);
}

#[test]
fn pid_integral_is_clamped() {
    let mut pid = Pid::new(0, 1_000_000, 0);
    pid.set_target(1_000_000);
    let mut i = 0;
    while i < 10 {
        let _ = pid.poll(0, 50);
        i += 1;
    }
    // Each tick would add 50000; the accumulator pegs at one unit of
    // full power.
    assert_eq!(pid.ki_integral, 1000);
}

#[test]
fn pid_skips_integration_across_a_stall() {
    let mut pid = Pid::new(0, 1000, 0);
    pid.set_target(1000);
    let out = pid.poll(0, 10_000);
    // Ten seconds between polls: the stalled tick must not integrate.
    assert_eq!(pid.ki_integral, 0);
    assert_eq!(out, 0);
}

#[test]
fn pid_derivative_term_is_over_elapsed_time() {
    let mut pid = Pid::new(0, 0, 1000);
    pid.set_target(0);
    // First poll: the error steps from 0 to -100 over 10 milliseconds.
    let out = pid.poll(100, 10);
    assert_eq!(out, -10_000);
    // Error recovered by 50 over 10 milliseconds: slope 5 per
    // millisecond under unit gain.
    let out = pid.poll(50, 10);
    assert_eq!(out, 5_000);
    // The same change over twice the time is half the derivative.
    let out = pid.poll(0, 20);
    assert_eq!(out, 2_500);
}

#[test]
fn pid_zero_dt_drops_the_derivative() {
    let mut pid = Pid::new(1000, 0, 1000);
    pid.set_target(100);
    // Two polls in the same millisecond: no division by zero, the
    // derivative term is simply dropped.
    let out = pid.poll(0, 0);
    assert_eq!(out, 100);
}

#[test]
fn pid_set_target_resets_accumulated_state() {
    let mut pid = Pid::new(1000, 1000, 0);
    pid.set_target(100);
    let _ = pid.poll(0, 10);
    assert!(pid.ki_integral != 0 && pid.last_error != 0);
    // A setpoint jump clears the accumulator and the previous error,
    // so no integral carry-over or derivative kick survives it.
    pid.set_target(-100);
    assert_eq!(pid.ki_integral, 0);
    assert_eq!(pid.last_error, 0);
    assert_eq!(pid.target, -100);
}

#[test]
fn pid_reset_clears_state() {
    let mut pid = Pid::new(1000, 1000, 1000);
    pid.set_target(500);
    let _ = pid.poll(0, 10);
    pid.reset();
    assert_eq!(pid.ki_integral, 0);
    assert_eq!(pid.last_error, 0);
    assert_eq!(pid.target, 500);
}

#[test]
fn odometry_straight_line_uses_plain_heading() {
    // Equal side distances with no heading change move the pose
    // exactly along the heading: the midpoint heading degenerates to
    // the current heading.
    let mut odom = Odometry::new();
    odom.update(Some(1_000_000), Some(1_000_000), Some(0));
    assert_eq!(odom.pos_x_um, 1_000_000);
    assert_eq!(odom.pos_y_um, 0);
    assert_eq!(odom.heading_mdeg, 0);
}

#[test]
fn odometry_straight_line_at_an_angle() {
    let mut odom = Odometry::new();
    // Turn ten degrees in place first (within the spike limit).
    odom.update(Some(0), Some(0), Some(10_000));
    assert_eq!(odom.heading_mdeg, 10_000);
    assert_eq!(odom.pos_x_um, 0);
    // One metre straight: displacement is the distance rotated by the
    // heading, at the fixed-point cosine and sine values exactly.
    odom.update(Some(1_000_000), Some(1_000_000), Some(0));
    assert_eq!(odom.pos_x_um, 984_615);
    assert_eq!(odom.pos_y_um, 175_257);
}

#[test]
fn odometry_midpoint_heading_while_turning() {
    let mut odom = Odometry::new();
    // Moving and turning in one tick: the displacement uses the old
    // heading plus half the delta, here five degrees.
    odom.update(Some(1_000_000), Some(1_000_000), Some(10_000));
    let cos5 = lemon::angle::cos_mdeg(5_000);
    let sin5 = lemon::angle::sin_mdeg(5_000);
    assert_eq!(odom.pos_x_um, cos5);
    assert_eq!(odom.pos_y_um, sin5);
    assert_eq!(odom.heading_mdeg, 10_000);
}

#[test]
fn odometry_fault_is_hold_last() {
    // A failed read behaves exactly as if it had returned the previous
    // value: the poses after the five reads agree.
    let reads: [Option<i64>; 5] = [
        Some(100_000),
        Some(200_000),
        None,
        Some(400_000),
        Some(500_000),
    ];
    let substituted: [Option<i64>; 5] = [
        Some(100_000),
        Some(200_000),
        Some(200_000),
        Some(400_000),
        Some(500_000),
    ];
    let mut with_fault = Odometry::new();
    let mut with_sub = Odometry::new();
    let mut i = 0;
    while i < 5 {
        with_fault.update(reads[i], reads[i], Some(1_000));
        with_sub.update(substituted[i], substituted[i], Some(1_000));
        i += 1;
    }
    assert_eq!(with_fault.pos_x_um, with_sub.pos_x_um);
    assert_eq!(with_fault.pos_y_um, with_sub.pos_y_um);
    assert_eq!(with_fault.heading_mdeg, with_sub.heading_mdeg);
}

#[test]
fn odometry_rejects_heading_spikes_and_noise() {
    let mut odom = Odometry::new();
    odom.update(Some(0), Some(0), Some(10_000));
    // A sixteen-degree single-sample jump is a fault; the previous
    // delta is integrated again instead.
    odom.update(Some(0), Some(0), Some(16_000));
    assert_eq!(odom.heading_mdeg, 20_000);
    // A delta below the noise floor integrates as exactly zero.
    odom.update(Some(0), Some(0), Some(5));
    assert_eq!(odom.heading_mdeg, 20_000);
}

#[test]
fn tracking_wheels_hold_and_reject_jumps() {
    let mut wheels = TrackingWheels::new(100, 100, 100);
    // 1024 ticks past the zero is a quarter revolution: 54860
    // micrometres of travel.
    wheels.calc_distances(Some(1124), Some(1124), Some(1124));
    let (l, r, b) = wheels.distances();
    assert_eq!(l, 54_860);
    assert_eq!(r, 54_860);
    assert_eq!(b, 54_860);
    // A failed read holds the previous distance.
    wheels.calc_distances(None, Some(1124), Some(1124));
    assert_eq!(wheels.distances().0, 54_860);
    // A jump of more than a tenth of a metre in one tick is discarded,
    // though the raw count is remembered.
    wheels.calc_distances(Some(9316), Some(9316), Some(9316));
    assert_eq!(wheels.distances().0, 54_860);
    assert_eq!(wheels.raw_left, 9316);
}

#[test]
fn velocity_estimator_tracks_distance_over_time() {
    let mut vel = VelocityEstimator::new();
    vel.update(5, 0, 0);
    // 50 millimetres in 20 milliseconds on the left, backwards on the
    // right: micrometres over milliseconds is millimetres a second.
    vel.update(20, 50_000, -50_000);
    let (l, r) = vel.side_velocities();
    assert_eq!(l, 2_500);
    assert_eq!(r, -2_500);
}

#[test]
fn velocity_estimator_ignores_too_quick_samples() {
    let mut vel = VelocityEstimator::new();
    vel.update(5, 0, 0);
    vel.update(8, 99_000, 99_000);
    // Five milliseconds is below the minimum spacing: the estimate
    // stands.
    assert_eq!(vel.side_velocities(), (0, 0));
}

#[test]
fn gyro_poller_enforces_minimum_spacing() {
    let mut gyro = GyroPoller::new();
    // 90 degrees a second for 20 milliseconds is 1.8 degrees.
    assert_eq!(gyro.angle_difference(20, Some(90_000)), Some(1_800));
    // Ten milliseconds later is inside the sensor's update window.
    assert_eq!(gyro.angle_difference(30, Some(90_000)), None);
    // A failed read reports no data and keeps the window open.
    assert_eq!(gyro.angle_difference(45, None), None);
    assert_eq!(gyro.angle_difference(45, Some(-45_000)), Some(-1_125));
}

#[test]
fn three_wheel_odometry_sees_lateral_drift() {
    // Sliding sideways without rolling the side wheels: only the back
    // wheel moves, and the pose shifts along local y.
    let mut odom = Odometry::new();
    odom.update_three_wheel(Some(0), Some(0), Some(50_000), Some(0));
    assert_eq!(odom.pos_x_um, 0);
    assert_eq!(odom.pos_y_um, 50_000);
    // A pure rotation rolls the back wheel by offset times angle; the
    // lateral remainder is then zero and the pose holds still.
    let mut turning = Odometry::new();
    // Ten degrees rolls the back wheel 17453 micrometres.
    turning.update_three_wheel(Some(0), Some(0), Some(17_453), Some(10_000));
    assert_eq!(turning.pos_x_um, 0);
    assert_eq!(turning.pos_y_um, 0);
    assert_eq!(turning.heading_mdeg, 10_000);
    // An anomalously large back-wheel jump is discarded.
    let mut jump = Odometry::new();
    jump.update_three_wheel(Some(0), Some(0), Some(500_000), Some(0));
    assert_eq!(jump.pos_y_um, 0);
    assert_eq!(jump.last_back_um, 500_000);
}
