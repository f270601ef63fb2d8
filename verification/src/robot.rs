//! The robot's top-level operating state, derived from the brain's
//! reported mode and whether a skills program is selected.

use vstd::prelude::*;

use crate::brain;

verus! {

#[derive(Debug, Clone, Copy, PartialEq, Eq, Structural)]
pub enum RobotState {
    Off,
    Disabled,
    DriverSkills,
    AutonSkills,
    DriverDriver,
    DriverAuton,
}

impl RobotState {
    /// The operating state a brain mode maps to.
    pub open spec fn from_brain_state_spec(brain_state: brain::State, is_skills: bool) -> RobotState {
        match (brain_state, is_skills) {
            (brain::State::Disabled, _) => RobotState::Disabled,
            (brain::State::Auton, true) => RobotState::AutonSkills,
            (brain::State::Auton, false) => RobotState::DriverAuton,
            (brain::State::Driver, true) => RobotState::DriverSkills,
            (brain::State::Driver, false) => RobotState::DriverDriver,
        }
    }

    /// Map the brain's reported mode to an operating state.
    pub fn from_brain_state(brain_state: brain::State, is_skills: bool) -> (r: RobotState)
        ensures
            r == RobotState::from_brain_state_spec(brain_state, is_skills),
    {
        match (brain_state, is_skills) {
            (brain::State::Disabled, _) => RobotState::Disabled,
            (brain::State::Auton, true) => RobotState::AutonSkills,
            (brain::State::Auton, false) => RobotState::DriverAuton,
            (brain::State::Driver, true) => RobotState::DriverSkills,
            (brain::State::Driver, false) => RobotState::DriverDriver,
        }
    }
}

impl Default for RobotState {
    /// Before any packet has arrived the robot counts as off.
    fn default() -> (r: RobotState)
        ensures
            r == RobotState::Off,
    {
        RobotState::Off
    }
}

} // verus!
