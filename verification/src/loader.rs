//! The match-load arm: a small state machine that finds its hard stop
//! by stall current, then arms and loads against the recorded position.
//! Readings come in as plain values and each step hands back the power
//! command for the arm motors, in thousandths of full power.

use vstd::prelude::*;

verus! {

/// Average motor current above which the arm counts as stalled against
/// the bar, in milliamperes.
pub const STALL_THRESHOLD_MA: u32 = 2_500;

/// Position tolerance around the armed position, in encoder ticks.
pub const ARM_POS_THRESHOLD: i64 = 1_000;

/// How far above the armed position a completed load sits.
pub const LOAD_TRAVEL: i64 = 30_000;

/// The arm's working power, seven tenths of full power.
pub const ARM_POWER: i64 = 700;

#[derive(Debug, Clone, Copy, PartialEq, Eq, Structural)]
pub enum State {
    InvalidPosition,
    Armed,
    Arming,
    Loading,
    Loaded,
}

pub struct Loader {
    pub armed_position: i32,
    pub state: State,
}

impl Loader {
    pub fn new() -> (r: Loader)
        ensures
            r.state == State::InvalidPosition,
            r.armed_position == 0,
    {
        Loader { armed_position: 0, state: State::InvalidPosition }
    }

    /// Drive the arm down against its hard stop; once the motors stall
    /// the current position becomes the armed position. Returns the
    /// power command for this tick.
    pub fn calibrate(&mut self, avg_current_ma: u32, position: i32) -> (pow: i64)
        ensures
            pow == -ARM_POWER,
            avg_current_ma > STALL_THRESHOLD_MA ==> final(self).state == State::Armed && final(self).armed_position == position,
            avg_current_ma <= STALL_THRESHOLD_MA ==> final(self).state == State::InvalidPosition
                && final(self).armed_position == old(self).armed_position,
    {
        if avg_current_ma > STALL_THRESHOLD_MA {
            self.armed_position = position;
            self.state = State::Armed;
        } else {
            self.state = State::InvalidPosition;
        }
        -ARM_POWER
    }

    /// Wind the arm back down to the armed position. Returns the power
    /// command for this tick: downward until the position is within
    /// tolerance, then holding still, armed.
    pub fn arm(&mut self, position: i32) -> (pow: i64)
        ensures
            final(self).armed_position == old(self).armed_position,
            (position as int) > old(self).armed_position + ARM_POS_THRESHOLD ==> pow == -ARM_POWER
                && final(self).state == State::Arming,
            (position as int) <= old(self).armed_position + ARM_POS_THRESHOLD ==> pow == 0 && final(self).state == State::Armed,
    {
        if (position as i64) > (self.armed_position as i64) + ARM_POS_THRESHOLD {
            self.state = State::Arming;
            -ARM_POWER
        } else {
            self.state = State::Armed;
            0
        }
    }

    /// Push a ball in: drive the arm up from the armed position until
    /// it has travelled the load distance. Returns the power command
    /// for this tick.
    pub fn load(&mut self, position: i32) -> (pow: i64)
        ensures
            final(self).armed_position == old(self).armed_position,
            (position as int) < old(self).armed_position + LOAD_TRAVEL - ARM_POS_THRESHOLD
                ==> pow == ARM_POWER && final(self).state == State::Loading,
            (position as int) >= old(self).armed_position + LOAD_TRAVEL - ARM_POS_THRESHOLD
                ==> pow == 0 && final(self).state == State::Loaded,
    {
        if (position as i64) < (self.armed_position as i64) + LOAD_TRAVEL - ARM_POS_THRESHOLD {
            self.state = State::Loading;
            ARM_POWER
        } else {
            self.state = State::Loaded;
            0
        }
    }
}

} // verus!
