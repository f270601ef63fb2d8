//! Robot operating state, operator input, digital outputs and the
//! mechanism state machines.

use lemon::brain::{self, update_state, Packet, COMP_AUTONOMOUS, COMP_CONNECTED, COMP_DISABLED};
use lemon::catapult::{Catapult, CatapultState, Loader as CatapultLoader, LoaderPosState, LoaderState};
use lemon::controller::Controller;
use lemon::drivebase::{arcade_mix, encoder_um, side_millivolts, side_rpm, smooth_encoder, vel_to_rpm};
use lemon::loader::{Loader, State as ArmState, ARM_POWER};
use lemon::motor::{sanitize_target, target_power, Target};
use lemon::robot::RobotState;
use lemon::state::{compute_comp_state, fcs_state, is_competition, FieldControlState, InputChanges};
use lemon::triports::{Triport, TriportChange};
use lemon::CompetitionState;

fn packet(buttons: u16, axes: [i8; 4]) -> Packet {
    Packet {
        timestamp_ms: 0,
        brain_state: brain::State::Driver,
        buttons,
        axes,
        auton_program: 0,
    }
}

#[test]
fn brain_state_from_flag_bits() {
    assert_eq!(brain::State::from_bits(COMP_DISABLED), brain::State::Disabled);
    assert_eq!(
        brain::State::from_bits(COMP_DISABLED | COMP_AUTONOMOUS),
        brain::State::Disabled
    );
    assert_eq!(brain::State::from_bits(COMP_AUTONOMOUS), brain::State::Auton);
    assert_eq!(brain::State::from_bits(0), brain::State::Driver);
}

#[test]
fn robot_state_from_brain_state() {
    assert_eq!(
        RobotState::from_brain_state(brain::State::Disabled, true),
        RobotState::Disabled
    );
    assert_eq!(
        RobotState::from_brain_state(brain::State::Auton, true),
        RobotState::AutonSkills
    );
    assert_eq!(
        RobotState::from_brain_state(brain::State::Auton, false),
        RobotState::DriverAuton
    );
    assert_eq!(
        RobotState::from_brain_state(brain::State::Driver, true),
        RobotState::DriverSkills
    );
    assert_eq!(
        RobotState::from_brain_state(brain::State::Driver, false),
        RobotState::DriverDriver
    );
    assert_eq!(RobotState::default(), RobotState::Off);
}

#[test]
fn silence_past_the_timeout_turns_the_robot_off() {
    let mut p = packet(0, [0; 4]);
    p.brain_state = brain::State::Auton;
    p.auton_program = 1;
    assert_eq!(update_state(Some(p), 0, RobotState::Off), RobotState::AutonSkills);
    // Short silence keeps the state.
    assert_eq!(
        update_state(None, 400, RobotState::DriverDriver),
        RobotState::DriverDriver
    );
    // Long silence means the connection is lost.
    assert_eq!(update_state(None, 501, RobotState::DriverDriver), RobotState::Off);
    assert_eq!(update_state(None, 9_999, RobotState::Off), RobotState::Off);
}

#[test]
fn input_changes_are_edges_between_packets() {
    let last = packet(0b0011, [0, 0, 0, 0]);
    let current = packet(0b0110, [1, 0, 0, 0]);
    let ic = InputChanges::from_difference(&last, &current);
    assert_eq!(ic.pressed, 0b0100);
    assert_eq!(ic.released, 0b0001);
    assert_eq!(ic.held, 0b0110);
    assert!(ic.axes_changed);
    assert!(ic.button_pressed(0b0100));
    assert!(!ic.button_pressed(0b0010));
    assert!(ic.button_released(0b0001));
    assert!(ic.button_held(0b0010));
    let same = InputChanges::from_difference(&current, &current);
    assert!(!same.change_occured());
}

#[test]
fn field_control_transitions() {
    assert_eq!(fcs_state(0, COMP_CONNECTED), FieldControlState::Joined);
    assert_eq!(fcs_state(COMP_CONNECTED, 0), FieldControlState::Left);
    assert_eq!(
        fcs_state(COMP_CONNECTED, COMP_CONNECTED),
        FieldControlState::Connected
    );
    assert_eq!(fcs_state(0, 0), FieldControlState::Disconnected);
    assert!(is_competition(COMP_CONNECTED | COMP_DISABLED));
    assert!(!is_competition(COMP_DISABLED));
}

#[test]
fn competition_phase_from_flags() {
    assert!(matches!(
        compute_comp_state(COMP_DISABLED | COMP_CONNECTED),
        CompetitionState::Disabled
    ));
    assert!(matches!(
        compute_comp_state(COMP_AUTONOMOUS),
        CompetitionState::Autonomous
    ));
    assert!(matches!(compute_comp_state(0), CompetitionState::UserControl));
}

#[test]
fn controller_edges_and_axes() {
    let first = packet(0b01, [127, -127, 64, 0]);
    let second = packet(0b10, [0, 0, 0, 0]);
    let mut ctl = Controller::from_packets(&first, &second);
    assert!(ctl.held(0b01));
    assert!(ctl.pressed(0b01));
    assert!(ctl.released(0b10));
    assert_eq!(ctl.lx(), 1000);
    assert_eq!(ctl.ly(), -1000);
    assert_eq!(ctl.rx(), 503);
    assert_eq!(ctl.ry(), 0);
    // Absorbing the edges stops them from repeating.
    ctl.update_no_change();
    assert!(!ctl.pressed(0b01));
    assert!(ctl.held(0b01));
}

#[test]
fn triport_bits() {
    let mut pins: u8 = 0;
    let a = Triport::new(0);
    let b = Triport::new(3);
    a.set_active(&mut pins);
    b.set_active(&mut pins);
    assert_eq!(pins, 0b1001);
    a.set_inactive(&mut pins);
    assert_eq!(pins, 0b1000);
    b.toggle(&mut pins);
    assert_eq!(pins, 0);
    a.change(&mut pins, TriportChange::Toggle);
    assert_eq!(pins, 1);
    lemon::triports::change_masked(&mut pins, 0b11, TriportChange::Inactive);
    assert_eq!(pins, 0);
}

#[test]
fn drivebase_mappings() {
    assert_eq!(side_millivolts(1_000, false), 12_000);
    assert_eq!(side_millivolts(1_500, false), 12_000);
    assert_eq!(side_millivolts(500, true), -6_000);
    assert_eq!(side_rpm(1_000, false, 200), 200);
    assert_eq!(side_rpm(-500, false, 200), -100);
    assert_eq!(side_rpm(500, true, 200), -100);
    // Forward with a right turn: left speeds up, right slows down.
    assert_eq!(arcade_mix(800, 600), (1_000, 500));
    assert_eq!(encoder_um(340, false), 1_000);
    assert_eq!(encoder_um(340, true), -1_000);
    // Ten milliseconds into a forty-millisecond window the fresh read
    // carries a quarter of the blend.
    assert_eq!(smooth_encoder(0, 4_000, 10), 1_000);
    assert_eq!(smooth_encoder(0, 4_000, 40), 4_000);
    // One wheel circumference a second is sixty revolutions a minute.
    assert_eq!(vel_to_rpm(264), 60);
    assert_eq!(vel_to_rpm(-264), -60);
}

#[test]
fn arm_loader_calibrates_by_stall_current() {
    let mut arm = Loader::new();
    // Still moving freely: no stall, position unknown.
    let pow = arm.calibrate(500, 12_000);
    assert_eq!(pow, -ARM_POWER);
    assert!(matches!(arm.state, ArmState::InvalidPosition));
    // Stalled against the bar: this is the armed position.
    let _ = arm.calibrate(3_000, 10_500);
    assert!(matches!(arm.state, ArmState::Armed));
    assert_eq!(arm.armed_position, 10_500);
    // Arming drives down until within tolerance.
    assert_eq!(arm.arm(20_000), -ARM_POWER);
    assert!(matches!(arm.state, ArmState::Arming));
    assert_eq!(arm.arm(10_900), 0);
    assert!(matches!(arm.state, ArmState::Armed));
    // Loading drives up until the load travel is covered.
    assert_eq!(arm.load(10_900), ARM_POWER);
    assert!(matches!(arm.state, ArmState::Loading));
    assert_eq!(arm.load(40_000), 0);
    assert!(matches!(arm.state, ArmState::Loaded));
}

#[test]
fn catapult_loader_cycles_through_its_states() {
    let mut loader = CatapultLoader::new();
    loader.start_primed(10_000);
    assert!(matches!(loader.state, LoaderState::Primed(_)));
    // The primed hold has already elapsed: it starts loading.
    let vel = loader.transition(10_001, 0);
    assert_eq!(vel, 0);
    assert!(matches!(loader.state, LoaderState::Loading));
    // Loading drives forward until near the loaded position.
    let vel = loader.transition(10_002, 0);
    assert_eq!(vel, 100);
    let _ = loader.transition(10_003, 38_000);
    assert!(matches!(loader.state, LoaderState::Loaded(_)));
    // After the hold it winds back down.
    let _ = loader.transition(10_200, 38_000);
    assert!(matches!(loader.state, LoaderState::Reseting));
    assert!(loader.is_ready_to_fire(10_460));
    assert!(!loader.is_ready_to_fire(10_480));
    // Near the primed position it holds primed again.
    let _ = loader.transition(10_500, 500);
    assert!(matches!(loader.state, LoaderState::Primed(_)));
    assert!(matches!(loader.state_pos(100), LoaderPosState::Primed));
    assert!(matches!(loader.state_pos(39_000), LoaderPosState::Folded));
    assert!(matches!(loader.state_pos(20_000), LoaderPosState::Other));
}

#[test]
fn catapult_primes_fires_and_counts() {
    let mut cat = Catapult::new();
    assert!(cat.is_idle());
    cat.prime();
    assert!(matches!(cat.state, CatapultState::Priming));
    // Winding until the prime distance is covered.
    let mv = cat.transition(0, 1_000, 0);
    assert_eq!(mv, 12_000);
    let _ = cat.transition(1, 125_000, 0);
    assert!(cat.is_primed());
    // Holding primed takes a fifth of full power.
    let mv = cat.transition(2, 125_000, 0);
    assert_eq!(mv, 2_400);
    cat.fire();
    assert!(matches!(cat.state, CatapultState::Fire));
    // The shot carries the gear past the prime-plus-release distance
    // and the cycle count steps.
    let _ = cat.transition(3, 260_000, 0);
    assert!(matches!(cat.state, CatapultState::Priming));
    assert_eq!(cat.count(), 1);
    // A primed hold that times out goes idle.
    let _ = cat.transition(4, 395_000, 0);
    assert!(cat.is_primed());
    let _ = cat.transition(3_000, 395_000, 0);
    assert!(cat.is_idle());
}

#[test]
fn catapult_calibration_finds_the_zero() {
    let mut cat = Catapult::new();
    cat.reset(0);
    assert!(!cat.is_calibrated());
    // While the gear meshes the velocity lags the rolling average.
    let mv = cat.transition(500, 0, -100);
    assert_eq!(mv, 12_000);
    // Velocity above the average after a second: the teeth ran out.
    let _ = cat.transition(1_500, 0, 50);
    assert!(matches!(
        cat.state,
        CatapultState::Calibration(lemon::catapult::CatapultCalibrationState::Wait(_))
    ));
    let _ = cat.transition(1_900, 0, 0);
    assert!(matches!(
        cat.state,
        CatapultState::Calibration(lemon::catapult::CatapultCalibrationState::MoveForward(_))
    ));
    let _ = cat.transition(2_300, 0, 0);
    assert!(matches!(
        cat.state,
        CatapultState::Calibration(lemon::catapult::CatapultCalibrationState::Rest(_))
    ));
    let _ = cat.transition(2_700, 4_321, 0);
    assert!(cat.is_idle());
    assert_eq!(cat.start_pos, Some(4_321));
}

#[test]
fn replay_override_holds_the_last_event() {
    let mut controller = InputChanges::no_change();
    let mut replay_last: Option<InputChanges> = None;
    // Nothing replayed yet: the live input stands.
    lemon::state::overwrite_replay_input(&mut controller, &mut replay_last, &Vec::new());
    assert!(replay_last.is_none());
    // A due event takes over the input and is remembered.
    let mut pressed = InputChanges::no_change();
    pressed.pressed = 8;
    pressed.held = 8;
    lemon::state::overwrite_replay_input(&mut controller, &mut replay_last, &vec![(5, pressed)]);
    assert_eq!(controller.held, 8);
    // With no event due, the remembered input keeps holding.
    controller = InputChanges::no_change();
    lemon::state::overwrite_replay_input(&mut controller, &mut replay_last, &Vec::new());
    assert_eq!(controller.held, 8);
}

#[test]
fn motor_targets_are_clamped() {
    assert_eq!(
        sanitize_target(Target::Voltage(20_000)),
        Target::Voltage(12_000)
    );
    assert_eq!(
        sanitize_target(Target::PerMilleVoltage(-1_500)),
        Target::PerMilleVoltage(-1_000)
    );
    assert_eq!(
        sanitize_target(Target::RotationalVelocity(300)),
        Target::RotationalVelocity(300)
    );
    assert_eq!(target_power(Target::Idle), (0, false));
    assert_eq!(target_power(Target::RotationalVelocity(150)), (150, true));
    assert_eq!(target_power(Target::PerMilleVoltage(500)), (6_000, false));
}
