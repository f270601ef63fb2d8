//! What the robot keeps of each status packet from the brain
//! controller, and the connection-state decisions made from it. The
//! serial link itself lives outside this crate; packets arrive here as
//! plain values.

use vstd::prelude::*;

use crate::robot::RobotState;

verus! {

/// Competition-state wire flag: the robot is disabled.
pub const COMP_DISABLED: u8 = 1;

/// Competition-state wire flag: the autonomous period is running.
pub const COMP_AUTONOMOUS: u8 = 2;

/// Competition-state wire flag: a field controller is connected.
pub const COMP_CONNECTED: u8 = 4;

/// The brain is considered lost after this long without a packet.
pub const BRAIN_TIMEOUT_MS: u64 = 500;

/// The competition mode a status packet reports.
#[derive(Debug, Clone, Copy, PartialEq, Eq, Structural)]
pub enum State {
    Disabled,
    Driver,
    Auton,
}

impl State {
    /// The mode encoded in a packet's competition-state flags:
    /// disabled wins over autonomous, anything else is driver control.
    pub fn from_bits(cs: u8) -> (r: State)
        ensures
            r == (if cs & COMP_DISABLED != 0 {
                State::Disabled
            } else if cs & COMP_AUTONOMOUS != 0 {
                State::Auton
            } else {
                State::Driver
            }),
    {
        if cs & COMP_DISABLED != 0 {
            State::Disabled
        } else if cs & COMP_AUTONOMOUS != 0 {
            State::Auton
        } else {
            State::Driver
        }
    }
}

/// One status packet from the brain, reduced to plain values.
#[derive(Debug, Clone, Copy, PartialEq, Eq)]
pub struct Packet {
    pub timestamp_ms: u64,
    pub brain_state: State,
    pub buttons: u16,
    pub axes: [i8; 4],
    pub auton_program: u8,
}

impl Packet {
    pub fn timestamp(&self) -> (r: u64)
        ensures
            r == self.timestamp_ms,
    {
        self.timestamp_ms
    }

    pub fn brain_state(&self) -> (r: State)
        ensures
            r == self.brain_state,
    {
        self.brain_state
    }
}

/// The robot state after one poll of the serial link: a fresh packet
/// decides the state outright; silence keeps the old state until the
/// timeout passes, after which the connection counts as lost.
pub fn update_state(
    pkt: Option<Packet>,
    elapsed_since_update_ms: u64,
    current: RobotState,
) -> (r: RobotState)
    ensures
        r == (match pkt {
            Some(p) => RobotState::from_brain_state_spec(p.brain_state, p.auton_program != 0),
            None => if elapsed_since_update_ms > BRAIN_TIMEOUT_MS && current != RobotState::Off {
                RobotState::Off
            } else {
                current
            },
        }),
{
    match pkt {
        Some(p) => RobotState::from_brain_state(p.brain_state, p.auton_program != 0),
        None => {
            if elapsed_since_update_ms > BRAIN_TIMEOUT_MS && !matches!(current, RobotState::Off) {
                RobotState::Off
            } else {
                current
            }
        },
    }
}

} // verus!
