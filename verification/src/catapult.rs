//! The loader and catapult mechanisms: timed state machines over motor
//! position, current and velocity readings. Each transition step takes
//! the clock and the latest readings as plain values and hands back the
//! motor command for this tick; reading and driving the motors stays
//! with the caller.
//!
//! Positions are encoder ticks, velocities encoder ticks per second,
//! commands in thousandths of full power.

use vstd::prelude::*;

use crate::num::{clamp, tdiv};

verus! {

/// Where the loader's arm sits relative to its two working positions.
#[derive(Debug, Clone, Copy, PartialEq, Eq, Structural)]
pub enum LoaderPosState {
    Primed,
    Folded,
    Other,
}

/// The loader's lifecycle: held primed, pushing a ball in, holding it,
/// then winding back down.
#[derive(Debug, Clone, Copy, PartialEq, Eq, Structural)]
pub enum LoaderState {
    Primed(u64),
    Loading,
    Loaded(u64),
    Reseting,
    Idle,
}

/// How long a loaded ball is held before resetting.
pub const LOADER_HOLD_MS: u64 = 100;

/// How long the loader waits primed before loading.
pub const LOADER_LOAD_MS: u64 = 1000;

/// Position tolerance around the two working positions.
pub const LOADER_POS_THRESHOLD: u32 = 1000;

/// The loader's velocity command for a power command: half speed of a
/// two-hundred-unit gearbox.
pub open spec fn loader_vel(power: int) -> int {
    tdiv(clamp(power, -1000, 1000) * 100, 1000)
}

pub struct Loader {
    pub state: LoaderState,
    pub primed_pos: i32,
    pub loaded_pos: i32,
    pub fold_up: bool,
    pub fold_out: bool,
    pub hold_load: bool,
    pub reset_time_ms: u64,
}

impl Loader {
    pub fn new() -> (r: Loader)
        ensures
            r.state == LoaderState::Idle,
            r.primed_pos == 0 && r.loaded_pos == 38_500,
            !r.fold_up && !r.fold_out && !r.hold_load,
    {
        Loader {
            state: LoaderState::Idle,
            primed_pos: 0,
            loaded_pos: 38_500,
            fold_up: false,
            fold_out: false,
            hold_load: false,
            reset_time_ms: 0,
        }
    }

    /// One tick of the loader state machine at `now_ms` with the arm at
    /// `position`; returns the velocity command for the loader motors.
    pub fn transition(&mut self, now_ms: u64, position: i32) -> (vel: i64)
        requires
            now_ms < 0x1000_0000_0000_0000,
        ensures
            final(self).primed_pos == old(self).primed_pos,
            final(self).loaded_pos == old(self).loaded_pos,
            final(self).hold_load == old(self).hold_load,
            (old(self).state matches LoaderState::Primed(at) ==> vel == 0 && final(self).state
                == (if (now_ms as u128) > (at as u128) + (LOADER_LOAD_MS as u128) {
                LoaderState::Loading
            } else {
                LoaderState::Primed(at)
            })),
            (old(self).state matches LoaderState::Loading ==> vel == loader_vel(1000) && final(self).state == (if position > old(self).loaded_pos || crate::num::abs(
                position - old(self).loaded_pos,
            ) < LOADER_POS_THRESHOLD {
                LoaderState::Loaded(now_ms)
            } else {
                LoaderState::Loading
            })),
            (old(self).state matches LoaderState::Loaded(at) ==> vel == 0 && (if old(self).fold_up {
                final(self).state == LoaderState::Idle && !final(self).fold_up
            } else if now_ms > at + LOADER_HOLD_MS && !old(self).hold_load {
                final(self).state == LoaderState::Reseting && final(self).reset_time_ms == now_ms
            } else {
                final(self).state == LoaderState::Loaded(at)
            })),
            (old(self).state matches LoaderState::Reseting ==> vel == loader_vel(-1000) && final(self).state == (if position < old(self).primed_pos || crate::num::abs(
                position - old(self).primed_pos,
            ) < LOADER_POS_THRESHOLD {
                if old(self).fold_out {
                    LoaderState::Idle
                } else {
                    LoaderState::Primed(now_ms)
                }
            } else {
                LoaderState::Reseting
            })),
            (old(self).state matches LoaderState::Idle ==> vel == 0 && final(self).state
                == LoaderState::Idle),
    {
        match self.state {
            LoaderState::Primed(at) => {
                if (now_ms as u128) > (at as u128) + (LOADER_LOAD_MS as u128) {
                    self.state = LoaderState::Loading;
                }
                0
            },
            LoaderState::Loading => {
                let off = (position as i64) - (self.loaded_pos as i64);
                let near = if off >= 0 {
                    off
                } else {
                    -off
                };
                if position > self.loaded_pos || near < LOADER_POS_THRESHOLD as i64 {
                    self.state = LoaderState::Loaded(now_ms);
                }
                100
            },
            LoaderState::Loaded(at) => {
                if self.fold_up {
                    self.state = LoaderState::Idle;
                    self.fold_up = false;
                } else if (now_ms as u128) > (at as u128) + (LOADER_HOLD_MS as u128) && !self.hold_load {
                    self.state = LoaderState::Reseting;
                    self.reset_time_ms = now_ms;
                }
                0
            },
            LoaderState::Reseting => {
                let off = (position as i64) - (self.primed_pos as i64);
                let near = if off >= 0 {
                    off
                } else {
                    -off
                };
                if position < self.primed_pos || near < LOADER_POS_THRESHOLD as i64 {
                    if self.fold_out {
                        self.state = LoaderState::Idle;
                        self.fold_out = false;
                    } else {
                        self.state = LoaderState::Primed(now_ms);
                    }
                }
                -100
            },
            LoaderState::Idle => 0,
        }
    }

    /// Whether the loader sits in the narrow window of its reset wind
    /// in which firing is safe.
    pub fn is_ready_to_fire(&self, now_ms: u64) -> (r: bool)
        requires
            now_ms < 0x1000_0000_0000_0000,
        ensures
            r == (self.state matches LoaderState::Reseting && now_ms > self.reset_time_ms + 250
                && now_ms < self.reset_time_ms + 270),
    {
        matches!(self.state, LoaderState::Reseting) && (now_ms as u128) > (self.reset_time_ms as u128)
            + 250 && (now_ms as u128) < (self.reset_time_ms as u128) + 270
    }

    /// Begin as if a load had just been commanded.
    pub fn start_primed(&mut self, now_ms: u64)
        requires
            now_ms >= LOADER_LOAD_MS,
        ensures
            *final(self) == (Loader {
                state: LoaderState::Primed((now_ms - LOADER_LOAD_MS) as u64),
                ..*old(self)
            }),
    {
        self.state = LoaderState::Primed(now_ms - LOADER_LOAD_MS);
    }

    /// Begin as if a ball had just been loaded.
    pub fn start_folded(&mut self, now_ms: u64)
        requires
            now_ms >= LOADER_LOAD_MS,
        ensures
            *final(self) == (Loader {
                state: LoaderState::Loaded((now_ms - LOADER_LOAD_MS) as u64),
                ..*old(self)
            }),
    {
        self.state = LoaderState::Loaded(now_ms - LOADER_LOAD_MS);
    }

    /// Wind back down to the primed position.
    pub fn reset(&mut self)
        ensures
            *final(self) == (Loader { state: LoaderState::Reseting, ..*old(self) }),
    {
        self.state = LoaderState::Reseting;
    }

    /// Where the arm sits: near or below primed, near or beyond loaded,
    /// or somewhere in between.
    pub fn state_pos(&self, position: i32) -> (r: LoaderPosState)
        ensures
            r == (if position < self.primed_pos || crate::num::abs(position - self.primed_pos)
                < 2000 {
                LoaderPosState::Primed
            } else if position > self.loaded_pos || crate::num::abs(position - self.loaded_pos)
                < 2000 {
                LoaderPosState::Folded
            } else {
                LoaderPosState::Other
            }),
    {
        let off_p = (position as i64) - (self.primed_pos as i64);
        let near_p = if off_p >= 0 {
            off_p
        } else {
            -off_p
        };
        let off_l = (position as i64) - (self.loaded_pos as i64);
        let near_l = if off_l >= 0 {
            off_l
        } else {
            -off_l
        };
        if position < self.primed_pos || near_p < 2000 {
            LoaderPosState::Primed
        } else if position > self.loaded_pos || near_l < 2000 {
            LoaderPosState::Folded
        } else {
            LoaderPosState::Other
        }
    }
}

/// The catapult's calibration sweep: finding the toothless section of
/// its gear by watching the motor velocity, then creeping forward and
/// settling.
#[derive(Debug, Clone, Copy, PartialEq, Eq, Structural)]
pub enum CatapultCalibrationState {
    Unknown(u64),
    Wait(u64),
    MoveForward(u64),
    Rest(u64),
}

/// The catapult's lifecycle: winding against the slip gear, held
/// primed, firing, idle, or calibrating.
#[derive(Debug, Clone, Copy, PartialEq, Eq, Structural)]
pub enum CatapultState {
    Priming,
    Primed(u64),
    Fire,
    Idle,
    Calibration(CatapultCalibrationState),
}

/// How far the catapult winds before counting as primed.
pub const CATAPULT_PRIME_DIST: u32 = 125_000;

/// How much further a shot carries the gear past the primed position.
pub const CATAPULT_QUAT_DIST: u32 = 135_000;

/// How long the catapult holds itself primed before giving up.
pub const CATAPULT_PRIME_TIMEOUT_MS: u64 = 2_000;

/// The holding power while primed, a fifth of full power.
pub const CATAPULT_PRIME_POWER: i64 = 200;

/// The catapult's millivolt command for a power command, against a
/// twelve-volt bus.
pub open spec fn catapult_mv(power: int) -> int {
    tdiv(clamp(power, -1000, 1000) * 12_000, 1000)
}

pub struct Catapult {
    pub state: CatapultState,
    pub cycle: u64,
    pub start_pos: Option<i32>,
    /// Rolling window of recent velocity samples for calibration, with
    /// the running cursor.
    pub window: [i32; 10],
    pub cursor: u64,
}

impl Catapult {
    /// Gear travel already spent on completed shots.
    pub open spec fn cycle_dist(self) -> int {
        self.cycle * CATAPULT_QUAT_DIST * 2
    }

    /// A position reading corrected for the calibrated zero.
    pub open spec fn rel_pos(self, raw_position: int) -> int {
        match self.start_pos {
            Some(s) => raw_position - s,
            None => raw_position,
        }
    }

    pub fn new() -> (r: Catapult)
        ensures
            r.state == CatapultState::Idle,
            r.cycle == 0,
            r.start_pos is None,
    {
        Catapult {
            state: CatapultState::Idle,
            cycle: 0,
            start_pos: None,
            window: [0, 0, 0, 0, 0, 0, 0, 0, 0, 0],
            cursor: 0,
        }
    }

    pub fn is_primed(&self) -> (r: bool)
        ensures
            r == (self.state matches CatapultState::Primed(_)),
    {
        matches!(self.state, CatapultState::Primed(_))
    }

    pub fn is_idle(&self) -> (r: bool)
        ensures
            r == (self.state matches CatapultState::Idle),
    {
        matches!(self.state, CatapultState::Idle)
    }

    pub fn is_calibrated(&self) -> (r: bool)
        ensures
            r == !(self.state matches CatapultState::Calibration(_)),
    {
        !matches!(self.state, CatapultState::Calibration(_))
    }

    /// Wind up, if idle.
    pub fn prime(&mut self)
        ensures
            final(self).state == (if old(self).state is Idle {
                CatapultState::Priming
            } else {
                old(self).state
            }),
            final(self).cycle == old(self).cycle && final(self).start_pos == old(self).start_pos,
    {
        if matches!(self.state, CatapultState::Idle) {
            self.state = CatapultState::Priming;
        }
    }

    /// Release, if primed.
    pub fn fire(&mut self)
        ensures
            final(self).state == (if old(self).state is Primed {
                CatapultState::Fire
            } else {
                old(self).state
            }),
            final(self).cycle == old(self).cycle && final(self).start_pos == old(self).start_pos,
    {
        if matches!(self.state, CatapultState::Primed(_)) {
            self.state = CatapultState::Fire;
        }
    }

    /// Begin a calibration sweep from scratch.
    pub fn reset(&mut self, now_ms: u64)
        ensures
            final(self).state == CatapultState::Calibration(
                CatapultCalibrationState::Unknown(now_ms),
            ),
            final(self).cycle == 0,
            final(self).start_pos == old(self).start_pos,
    {
        self.state = CatapultState::Calibration(CatapultCalibrationState::Unknown(now_ms));
        self.cycle = 0;
        self.cursor = 0;
        self.window = [0, 0, 0, 0, 0, 0, 0, 0, 0, 0];
    }

    /// Completed shots so far.
    pub fn count(&self) -> (r: u64)
        ensures
            r == self.cycle,
    {
        self.cycle
    }

    /// One tick of the catapult state machine; returns the millivolt
    /// command for the catapult motors.
    pub fn transition(&mut self, now_ms: u64, raw_position: i32, velocity: i32) -> (mv: i64)
        requires
            now_ms < 0x1000_0000_0000_0000,
            old(self).cycle < 0x10_0000,
        ensures
            final(self).cycle <= old(self).cycle + 1,
            final(self).start_pos == old(self).start_pos || (old(self).state matches
                CatapultState::Calibration(_)),
            (old(self).state matches CatapultState::Priming ==> mv == catapult_mv(1000) && (
            if old(self).rel_pos(raw_position as int) >= CATAPULT_PRIME_DIST + old(self).cycle_dist() {
                final(self).state == CatapultState::Primed(now_ms)
            } else {
                final(self).state == CatapultState::Priming
            }) && final(self).cycle == old(self).cycle),
            (old(self).state matches CatapultState::Primed(at) ==> mv == catapult_mv(
                CATAPULT_PRIME_POWER as int,
            ) && (if (now_ms as u128) > (at as u128) + (CATAPULT_PRIME_TIMEOUT_MS as u128) {
                final(self).state == CatapultState::Idle
            } else {
                final(self).state == CatapultState::Primed(at)
            }) && final(self).cycle == old(self).cycle),
            (old(self).state matches CatapultState::Fire ==> mv == catapult_mv(1000) && (
            if old(self).rel_pos(raw_position as int) >= CATAPULT_PRIME_DIST + old(self).cycle_dist() + CATAPULT_QUAT_DIST {
                final(self).state == CatapultState::Priming && final(self).cycle == old(self).cycle + 1
            } else {
                final(self).state == CatapultState::Fire && final(self).cycle == old(self).cycle
            })),
            (old(self).state matches CatapultState::Idle ==> mv == 0 && final(self).state
                == CatapultState::Idle && final(self).cycle == old(self).cycle),
    {
        let pos: i64 = match self.start_pos {
            Some(s) => (raw_position as i64) - (s as i64),
            None => raw_position as i64,
        };
        match self.state {
            CatapultState::Priming => {
                proof {
                    assert(self.cycle * CATAPULT_QUAT_DIST * 2 <= 0x10_0000 * 270_000)
                        by (nonlinear_arith)
                        requires
                            0 <= self.cycle < 0x10_0000,
                            CATAPULT_QUAT_DIST == 135_000,
                    ;
                }
                let threshold: i64 = CATAPULT_PRIME_DIST as i64 + (self.cycle as i64)
                    * (CATAPULT_QUAT_DIST as i64) * 2;
                if pos >= threshold {
                    self.state = CatapultState::Primed(now_ms);
                }
                12_000
            },
            CatapultState::Primed(at) => {
                if (now_ms as u128) > (at as u128) + (CATAPULT_PRIME_TIMEOUT_MS as u128) {
                    self.state = CatapultState::Idle;
                }
                2_400
            },
            CatapultState::Fire => {
                proof {
                    assert(self.cycle * CATAPULT_QUAT_DIST * 2 <= 0x10_0000 * 270_000)
                        by (nonlinear_arith)
                        requires
                            0 <= self.cycle < 0x10_0000,
                            CATAPULT_QUAT_DIST == 135_000,
                    ;
                }
                let threshold: i64 = CATAPULT_PRIME_DIST as i64 + (self.cycle as i64)
                    * (CATAPULT_QUAT_DIST as i64) * 2 + CATAPULT_QUAT_DIST as i64;
                if pos >= threshold {
                    self.cycle = self.cycle + 1;
                    self.state = CatapultState::Priming;
                }
                12_000
            },
            CatapultState::Idle => 0,
            CatapultState::Calibration(cal) => self.transition_calibration(
                cal,
                now_ms,
                raw_position,
                velocity,
            ),
        }
    }

    /// One tick of the calibration sweep: run until the velocity rises
    /// clear of the rolling average (the gear stopped meshing), rest,
    /// creep forward, rest again, and record the zero position.
    fn transition_calibration(
        &mut self,
        cal: CatapultCalibrationState,
        now_ms: u64,
        raw_position: i32,
        velocity: i32,
    ) -> (mv: i64)
        requires
            now_ms < 0x1000_0000_0000_0000,
        ensures
            final(self).cycle == old(self).cycle,
            (cal matches CatapultCalibrationState::Unknown(start) ==> mv == catapult_mv(1000) && (
            {
                let avg = tdiv(
                    old(self).window[0] + old(self).window[1] + old(self).window[2] + old(self).window[3] + old(self).window[4] + old(self).window[5] + old(self).window[6]
                        + old(self).window[7] + old(self).window[8] + old(self).window[9],
                    10,
                );
                if velocity > avg - 10 && now_ms > start + 1000 {
                    final(self).state == CatapultState::Calibration(
                        CatapultCalibrationState::Wait(now_ms),
                    )
                } else {
                    final(self).state == CatapultState::Calibration(
                        CatapultCalibrationState::Unknown(start),
                    )
                }
            })),
            (cal matches CatapultCalibrationState::Wait(at) ==> mv == 0 && final(self).state
                == CatapultState::Calibration(
                if (now_ms as u128) > (at as u128) + 300 {
                    CatapultCalibrationState::MoveForward(now_ms)
                } else {
                    CatapultCalibrationState::Wait(at)
                },
            )),
            (cal matches CatapultCalibrationState::MoveForward(at) ==> mv == catapult_mv(50)
                && final(self).state == CatapultState::Calibration(
                if (now_ms as u128) > (at as u128) + 300 {
                    CatapultCalibrationState::Rest(now_ms)
                } else {
                    CatapultCalibrationState::MoveForward(at)
                },
            )),
            (cal matches CatapultCalibrationState::Rest(at) ==> mv == 0 && (if (now_ms as u128) > (at as u128) + 300 {
                final(self).state == CatapultState::Idle && final(self).start_pos == Some(
                    clamp(
                        raw_position + (match old(self).start_pos {
                            Some(s) => s as int,
                            None => 0,
                        }),
                        -0x8000_0000,
                        0x7fff_ffff,
                    ) as i32,
                )
            } else {
                final(self).state == CatapultState::Calibration(CatapultCalibrationState::Rest(at))
                    && final(self).start_pos == old(self).start_pos
            })),
    {
        match cal {
            CatapultCalibrationState::Unknown(start) => {
                let sum: i64 = self.window[0] as i64 + self.window[1] as i64 + self.window[2] as i64
                    + self.window[3] as i64 + self.window[4] as i64 + self.window[5] as i64
                    + self.window[6] as i64 + self.window[7] as i64 + self.window[8] as i64
                    + self.window[9] as i64;
                let avg = crate::num::div_trunc(sum, 10);
                let slot = (self.cursor % 10) as usize;
                self.window[slot] = velocity;
                self.cursor = self.cursor.wrapping_add(1);
                if (velocity as i64) > avg - 10 && (now_ms as u128) > (start as u128) + 1000 {
                    self.state = CatapultState::Calibration(
                        CatapultCalibrationState::Wait(now_ms),
                    );
                } else {
                    self.state = CatapultState::Calibration(
                        CatapultCalibrationState::Unknown(start),
                    );
                }
                12_000
            },
            CatapultCalibrationState::Wait(at) => {
                if (now_ms as u128) > (at as u128) + 300 {
                    self.state = CatapultState::Calibration(
                        CatapultCalibrationState::MoveForward(now_ms),
                    );
                } else {
                    self.state = CatapultState::Calibration(CatapultCalibrationState::Wait(at));
                }
                0
            },
            CatapultCalibrationState::MoveForward(at) => {
                if (now_ms as u128) > (at as u128) + 300 {
                    self.state = CatapultState::Calibration(
                        CatapultCalibrationState::Rest(now_ms),
                    );
                } else {
                    self.state = CatapultState::Calibration(
                        CatapultCalibrationState::MoveForward(at),
                    );
                }
                600
            },
            CatapultCalibrationState::Rest(at) => {
                if (now_ms as u128) > (at as u128) + 300 {
                    let base: i64 = match self.start_pos {
                        Some(s) => s as i64,
                        None => 0,
                    };
                    self.start_pos = Some(
                        crate::num::clamp_i64(
                            (raw_position as i64) + base,
                            -0x8000_0000,
                            0x7fff_ffff,
                        ) as i32,
                    );
                    self.state = CatapultState::Idle;
                } else {
                    self.state = CatapultState::Calibration(CatapultCalibrationState::Rest(at));
                }
                0
            },
        }
    }
}

} // verus!
