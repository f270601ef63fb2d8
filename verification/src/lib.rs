//! Control core for a differential-drive competition robot.
//!
//! Every continuous quantity is carried as a scaled integer: lengths in
//! millimetres, angles in millidegrees, times in milliseconds, and drive
//! commands in thousandths of full power. Sensor and actuator access stays
//! outside this crate; the estimators and state machines here take plain
//! readings and hand back plain commands.

pub mod angle;
pub mod brain;
pub mod catapult;
pub mod controller;
pub mod drivebase;
pub mod loader;
pub mod motion_profile;
pub mod motor;
pub mod num;
pub mod odom;
pub mod path;
pub mod pid;
pub mod profile;
pub mod replay;
pub mod robot;
pub mod state;
pub mod triports;
pub mod vec;

use vstd::prelude::*;

verus! {

/// Phase of a competition match as the field controller reports it.
#[derive(Debug, Clone, Copy, PartialEq, Eq, Structural)]
pub enum CompetitionState {
    Disabled,
    Autonomous,
    UserControl,
}

} // verus!
