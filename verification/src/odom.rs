//! Pose estimation from two side distances and a gyro heading delta.
//!
//! Distances arrive in micrometres, headings in millidegrees. A failed
//! read never corrupts the pose: the last accepted value stands in for
//! it and the update proceeds. The displacement uses the midpoint
//! heading (half the heading delta added to the old heading), the
//! second-order arc approximation, not a plain Euler step.

use vstd::prelude::*;

use crate::angle::{cos_mdeg_spec, sin_mdeg_spec};
use crate::num::{abs, add_guarded, tdiv};

verus! {

/// Bound on a wheel's accumulated travel, about a thousand kilometres.
pub const MAX_DIST_UM: i64 = 0x100_0000_0000;

/// Bound on an accumulated position coordinate.
pub const MAX_POS_UM: i64 = 0x10_0000_0000_0000;

/// Bound on the accumulated heading, millions of revolutions.
pub const MAX_HEADING_MDEG: i64 = 0x1000_0000_0000;

/// A single-sample heading jump beyond fifteen degrees is a sensor
/// fault: the reading is discarded and the previous delta reused.
pub const SPIKE_LIMIT_MDEG: i64 = 15_000;

/// Deltas below seven millidegrees are forced to zero so that sensor
/// bias is not integrated while the robot stands still.
pub const NOISE_FLOOR_MDEG: i64 = 7;

/// What a possibly-failed absolute read resolves to: the value itself,
/// or the last accepted one when the read failed.
pub open spec fn resolve_read(read: Option<i64>, last: int) -> int {
    match read {
        Some(v) => v as int,
        None => last,
    }
}

/// What a gyro heading-delta read contributes: faults and implausible
/// spikes fall back to the previous delta, stillness-level noise is
/// zeroed, anything else passes through.
pub open spec fn filter_heading_delta(read: Option<i64>, last: int) -> int {
    match read {
        None => last,
        Some(d) => if abs(d as int) > SPIKE_LIMIT_MDEG {
            last
        } else if abs(d as int) < NOISE_FLOOR_MDEG {
            0
        } else {
            d as int
        },
    }
}

#[derive(Debug, Clone, Copy)]
pub struct Odometry {
    pub pos_x_um: i64,
    pub pos_y_um: i64,
    pub heading_mdeg: i64,
    pub last_left_um: i64,
    pub last_right_um: i64,
    pub last_back_um: i64,
    pub last_heading_delta_mdeg: i64,
}

/// Perpendicular offset of the back tracking wheel from the rotation
/// centre, in micrometres.
pub const BACK_WHEEL_OFFSET_UM: i64 = 100_000;

/// Micrometres the back wheel rolls per millidegree of pure rotation:
/// the offset times pi over one hundred and eighty thousand, scaled by
/// a million for precision.
pub const BACK_ROLL_PER_MDEG_E6: i64 = 1_745_329;

/// A back-wheel delta this far beyond what the rotation explains is
/// anomalous; the lateral correction then falls back to zero rather
/// than corrupt the pose.
pub const LATERAL_JUMP_LIMIT_UM: i64 = 100_000;

/// The lateral (robot-local sideways) displacement the back wheel
/// reports: its travel minus the share explained by the rotation
/// itself, zeroed when anomalously large.
pub open spec fn odom_lateral(s: Odometry, back: Option<i64>, dh: Option<i64>) -> int {
    let diff_back = resolve_read(back, s.last_back_um as int) - s.last_back_um;
    let expected = tdiv(
        filter_heading_delta(dh, s.last_heading_delta_mdeg as int) * BACK_ROLL_PER_MDEG_E6,
        1_000_000,
    );
    let lateral = diff_back - expected;
    if abs(lateral) > LATERAL_JUMP_LIMIT_UM {
        0
    } else {
        lateral
    }
}

/// Forward displacement this tick: the average of the two side deltas.
pub open spec fn odom_diff_dist(s: Odometry, left: Option<i64>, right: Option<i64>) -> int {
    tdiv(
        (resolve_read(left, s.last_left_um as int) - s.last_left_um) + (resolve_read(
            right,
            s.last_right_um as int,
        ) - s.last_right_um),
        2,
    )
}

/// Midpoint heading: the old heading plus half the heading delta.
pub open spec fn odom_theta_mid(s: Odometry, dh: Option<i64>) -> int {
    s.heading_mdeg + tdiv(filter_heading_delta(dh, s.last_heading_delta_mdeg as int), 2)
}

/// Global-frame x displacement this tick.
pub open spec fn odom_dx(s: Odometry, left: Option<i64>, right: Option<i64>, dh: Option<i64>) -> int {
    tdiv(odom_diff_dist(s, left, right) * cos_mdeg_spec(odom_theta_mid(s, dh)), 1_000_000)
}

/// Global-frame y displacement this tick.
pub open spec fn odom_dy(s: Odometry, left: Option<i64>, right: Option<i64>, dh: Option<i64>) -> int {
    tdiv(odom_diff_dist(s, left, right) * sin_mdeg_spec(odom_theta_mid(s, dh)), 1_000_000)
}

/// Global-frame x displacement of the three-wheel variant: the local
/// forward and lateral displacements rotated by the midpoint heading.
pub open spec fn odom3_dx(
    s: Odometry,
    left: Option<i64>,
    right: Option<i64>,
    back: Option<i64>,
    dh: Option<i64>,
) -> int {
    tdiv(
        odom_diff_dist(s, left, right) * cos_mdeg_spec(odom_theta_mid(s, dh)) - odom_lateral(
            s,
            back,
            dh,
        ) * sin_mdeg_spec(odom_theta_mid(s, dh)),
        1_000_000,
    )
}

/// Global-frame y displacement of the three-wheel variant.
pub open spec fn odom3_dy(
    s: Odometry,
    left: Option<i64>,
    right: Option<i64>,
    back: Option<i64>,
    dh: Option<i64>,
) -> int {
    tdiv(
        odom_diff_dist(s, left, right) * sin_mdeg_spec(odom_theta_mid(s, dh)) + odom_lateral(
            s,
            back,
            dh,
        ) * cos_mdeg_spec(odom_theta_mid(s, dh)),
        1_000_000,
    )
}

impl Odometry {
    /// Accumulated state within the ranges the arithmetic was sized for.
    pub open spec fn wf(self) -> bool {
        &&& -MAX_POS_UM <= self.pos_x_um <= MAX_POS_UM
        &&& -MAX_POS_UM <= self.pos_y_um <= MAX_POS_UM
        &&& -MAX_HEADING_MDEG <= self.heading_mdeg <= MAX_HEADING_MDEG
        &&& -MAX_DIST_UM <= self.last_left_um <= MAX_DIST_UM
        &&& -MAX_DIST_UM <= self.last_right_um <= MAX_DIST_UM
        &&& -MAX_DIST_UM <= self.last_back_um <= MAX_DIST_UM
        &&& -SPIKE_LIMIT_MDEG <= self.last_heading_delta_mdeg <= SPIKE_LIMIT_MDEG
    }

    /// A fresh estimator at the origin, facing heading zero.
    pub fn new() -> (r: Odometry)
        ensures
            r.wf(),
            r.pos_x_um == 0 && r.pos_y_um == 0 && r.heading_mdeg == 0,
            r.last_left_um == 0 && r.last_right_um == 0 && r.last_back_um == 0,
            r.last_heading_delta_mdeg == 0,
    {
        Odometry {
            pos_x_um: 0,
            pos_y_um: 0,
            heading_mdeg: 0,
            last_left_um: 0,
            last_right_um: 0,
            last_back_um: 0,
            last_heading_delta_mdeg: 0,
        }
    }

    /// One estimation tick from the latest absolute side distances and
    /// gyro heading delta; `None` marks a failed read. The pose moves by
    /// the arc-approximated displacement, the heading by the filtered
    /// delta, and each accumulator saturates at its range bound rather
    /// than wrapping.
    pub fn update(&mut self, left: Option<i64>, right: Option<i64>, dh: Option<i64>)
        requires
            old(self).wf(),
            left matches Some(v) ==> -MAX_DIST_UM <= v <= MAX_DIST_UM,
            right matches Some(v) ==> -MAX_DIST_UM <= v <= MAX_DIST_UM,
            dh matches Some(v) ==> v > i64::MIN,
        ensures
            final(self).wf(),
            final(self).pos_x_um == add_guarded(
                old(self).pos_x_um as int,
                odom_dx(*old(self), left, right, dh),
                MAX_POS_UM as int,
            ),
            final(self).pos_y_um == add_guarded(
                old(self).pos_y_um as int,
                odom_dy(*old(self), left, right, dh),
                MAX_POS_UM as int,
            ),
            final(self).heading_mdeg == add_guarded(
                old(self).heading_mdeg as int,
                filter_heading_delta(dh, old(self).last_heading_delta_mdeg as int),
                MAX_HEADING_MDEG as int,
            ),
            final(self).last_left_um == resolve_read(left, old(self).last_left_um as int),
            final(self).last_right_um == resolve_read(right, old(self).last_right_um as int),
            final(self).last_back_um == old(self).last_back_um,
            final(self).last_heading_delta_mdeg == filter_heading_delta(
                dh,
                old(self).last_heading_delta_mdeg as int,
            ),
    {
        let l = match left {
            Some(v) => v,
            None => self.last_left_um,
        };
        let r = match right {
            Some(v) => v,
            None => self.last_right_um,
        };
        let delta_heading = match dh {
            None => self.last_heading_delta_mdeg,
            Some(d) => {
                let mag = crate::num::abs_i64(d);
                if mag > SPIKE_LIMIT_MDEG {
                    self.last_heading_delta_mdeg
                } else if mag < NOISE_FLOOR_MDEG {
                    0
                } else {
                    d
                }
            },
        };

        let diff_l = l - self.last_left_um;
        let diff_r = r - self.last_right_um;
        let diff_dist = crate::num::div_trunc(diff_l + diff_r, 2);
        let theta_mid = self.heading_mdeg + crate::num::div_trunc(delta_heading, 2);

        let cos_mid = crate::angle::cos_mdeg(theta_mid);
        let sin_mid = crate::angle::sin_mdeg(theta_mid);
        proof {
            crate::num::lemma_tdiv_bound(
                diff_l as int + diff_r as int,
                2,
                4 * MAX_DIST_UM as int,
            );
            crate::num::lemma_mul_bound(
                diff_dist as int,
                cos_mid as int,
                4 * MAX_DIST_UM as int,
                1_000_000,
            );
            crate::num::lemma_mul_bound(
                diff_dist as int,
                sin_mid as int,
                4 * MAX_DIST_UM as int,
                1_000_000,
            );
            crate::num::lemma_tdiv_bound(
                diff_dist as int * cos_mid as int,
                1_000_000,
                4 * MAX_DIST_UM as int * 1_000_000,
            );
            crate::num::lemma_tdiv_bound(
                diff_dist as int * sin_mid as int,
                1_000_000,
                4 * MAX_DIST_UM as int * 1_000_000,
            );
        }
        let dx = crate::num::div_trunc(diff_dist * cos_mid, 1_000_000);
        let dy = crate::num::div_trunc(diff_dist * sin_mid, 1_000_000);

        self.pos_x_um = crate::num::add_guarded_i64(self.pos_x_um, dx, MAX_POS_UM);
        self.pos_y_um = crate::num::add_guarded_i64(self.pos_y_um, dy, MAX_POS_UM);
        self.heading_mdeg = crate::num::add_guarded_i64(
            self.heading_mdeg,
            delta_heading,
            MAX_HEADING_MDEG,
        );
        self.last_left_um = l;
        self.last_right_um = r;
        self.last_heading_delta_mdeg = delta_heading;
    }

    /// One estimation tick of the three-wheel variant: as `update`,
    /// with the perpendicular back wheel adding the lateral drift the
    /// side wheels cannot see. The back wheel's travel beyond what the
    /// rotation itself explains is sideways motion; an anomalously
    /// large remainder falls back to no correction.
    #[verifier::rlimit(60)]
    pub fn update_three_wheel(
        &mut self,
        left: Option<i64>,
        right: Option<i64>,
        back: Option<i64>,
        dh: Option<i64>,
    )
        requires
            old(self).wf(),
            left matches Some(v) ==> -MAX_DIST_UM <= v <= MAX_DIST_UM,
            right matches Some(v) ==> -MAX_DIST_UM <= v <= MAX_DIST_UM,
            back matches Some(v) ==> -MAX_DIST_UM <= v <= MAX_DIST_UM,
            dh matches Some(v) ==> v > i64::MIN,
        ensures
            final(self).wf(),
            final(self).pos_x_um == add_guarded(
                old(self).pos_x_um as int,
                odom3_dx(*old(self), left, right, back, dh),
                MAX_POS_UM as int,
            ),
            final(self).pos_y_um == add_guarded(
                old(self).pos_y_um as int,
                odom3_dy(*old(self), left, right, back, dh),
                MAX_POS_UM as int,
            ),
            final(self).heading_mdeg == add_guarded(
                old(self).heading_mdeg as int,
                filter_heading_delta(dh, old(self).last_heading_delta_mdeg as int),
                MAX_HEADING_MDEG as int,
            ),
            final(self).last_left_um == resolve_read(left, old(self).last_left_um as int),
            final(self).last_right_um == resolve_read(right, old(self).last_right_um as int),
            final(self).last_back_um == resolve_read(back, old(self).last_back_um as int),
            final(self).last_heading_delta_mdeg == filter_heading_delta(
                dh,
                old(self).last_heading_delta_mdeg as int,
            ),
    {
        let l = match left {
            Some(v) => v,
            None => self.last_left_um,
        };
        let r = match right {
            Some(v) => v,
            None => self.last_right_um,
        };
        let b = match back {
            Some(v) => v,
            None => self.last_back_um,
        };
        let delta_heading = match dh {
            None => self.last_heading_delta_mdeg,
            Some(d) => {
                let mag = crate::num::abs_i64(d);
                if mag > SPIKE_LIMIT_MDEG {
                    self.last_heading_delta_mdeg
                } else if mag < NOISE_FLOOR_MDEG {
                    0
                } else {
                    d
                }
            },
        };

        let diff_l = l - self.last_left_um;
        let diff_r = r - self.last_right_um;
        let diff_dist = crate::num::div_trunc(diff_l + diff_r, 2);

        // Lateral drift: what the back wheel rolled beyond the share a
        // pure rotation would have rolled it.
        let diff_back = b - self.last_back_um;
        proof {
            crate::num::lemma_mul_bound(
                delta_heading as int,
                BACK_ROLL_PER_MDEG_E6 as int,
                SPIKE_LIMIT_MDEG as int,
                BACK_ROLL_PER_MDEG_E6 as int,
            );
            crate::num::lemma_tdiv_bound(
                delta_heading as int * BACK_ROLL_PER_MDEG_E6 as int,
                1_000_000,
                SPIKE_LIMIT_MDEG as int * BACK_ROLL_PER_MDEG_E6 as int,
            );
        }
        let expected = crate::num::div_trunc(delta_heading * BACK_ROLL_PER_MDEG_E6, 1_000_000);
        let raw_lateral = diff_back - expected;
        let lateral = if crate::num::abs_i64(raw_lateral) > LATERAL_JUMP_LIMIT_UM {
            0
        } else {
            raw_lateral
        };

        let theta_mid = self.heading_mdeg + crate::num::div_trunc(delta_heading, 2);
        let cos_mid = crate::angle::cos_mdeg(theta_mid);
        let sin_mid = crate::angle::sin_mdeg(theta_mid);
        proof {
            crate::num::lemma_tdiv_bound(diff_l as int + diff_r as int, 2, 4 * MAX_DIST_UM as int);
            crate::num::lemma_mul_bound(
                diff_dist as int,
                cos_mid as int,
                4 * MAX_DIST_UM as int,
                1_000_000,
            );
            crate::num::lemma_mul_bound(
                diff_dist as int,
                sin_mid as int,
                4 * MAX_DIST_UM as int,
                1_000_000,
            );
            crate::num::lemma_mul_bound(
                lateral as int,
                cos_mid as int,
                LATERAL_JUMP_LIMIT_UM as int,
                1_000_000,
            );
            crate::num::lemma_mul_bound(
                lateral as int,
                sin_mid as int,
                LATERAL_JUMP_LIMIT_UM as int,
                1_000_000,
            );
            crate::num::lemma_tdiv_bound(
                diff_dist as int * cos_mid as int - lateral as int * sin_mid as int,
                1_000_000,
                5 * MAX_DIST_UM as int * 1_000_000,
            );
            crate::num::lemma_tdiv_bound(
                diff_dist as int * sin_mid as int + lateral as int * cos_mid as int,
                1_000_000,
                5 * MAX_DIST_UM as int * 1_000_000,
            );
        }
        let dx = crate::num::div_trunc(diff_dist * cos_mid - lateral * sin_mid, 1_000_000);
        let dy = crate::num::div_trunc(diff_dist * sin_mid + lateral * cos_mid, 1_000_000);

        self.pos_x_um = crate::num::add_guarded_i64(self.pos_x_um, dx, MAX_POS_UM);
        self.pos_y_um = crate::num::add_guarded_i64(self.pos_y_um, dy, MAX_POS_UM);
        self.heading_mdeg = crate::num::add_guarded_i64(
            self.heading_mdeg,
            delta_heading,
            MAX_HEADING_MDEG,
        );
        self.last_left_um = l;
        self.last_right_um = r;
        self.last_back_um = b;
        self.last_heading_delta_mdeg = delta_heading;
    }

    /// Position in micrometres.
    pub fn position(&self) -> (r: (i64, i64))
        ensures
            r.0 == self.pos_x_um && r.1 == self.pos_y_um,
    {
        (self.pos_x_um, self.pos_y_um)
    }

    /// Unbounded accumulated heading in millidegrees.
    pub fn heading(&self) -> (r: i64)
        ensures
            r == self.heading_mdeg,
    {
        self.heading_mdeg
    }
}

/// Straight-line case of the arc approximation: when both sides moved
/// the same amount and the heading did not change, the displacement is
/// exactly the common distance rotated by the current heading — the
/// midpoint heading degenerates to the heading itself.
pub proof fn lemma_straight_step_uses_plain_heading(
    s: Odometry,
    left: Option<i64>,
    right: Option<i64>,
)
    requires
        s.wf(),
        resolve_read(left, s.last_left_um as int) - s.last_left_um == resolve_read(
            right,
            s.last_right_um as int,
        ) - s.last_right_um,
    ensures
        ({
            let d = resolve_read(left, s.last_left_um as int) - s.last_left_um;
            odom_dx(s, left, right, Some(0)) == tdiv(
                d * cos_mdeg_spec(s.heading_mdeg as int),
                1_000_000,
            ) && odom_dy(s, left, right, Some(0)) == tdiv(
                d * sin_mdeg_spec(s.heading_mdeg as int),
                1_000_000,
            )
        }),
{
    let d = resolve_read(left, s.last_left_um as int) - s.last_left_um;
    assert(filter_heading_delta(Some(0), s.last_heading_delta_mdeg as int) == 0);
    assert(odom_theta_mid(s, Some(0)) == s.heading_mdeg);
    assert(tdiv(d + d, 2) == d) by (nonlinear_arith);
}

/// Encoder ticks per tracking-wheel revolution.
pub const TICKS_PER_TURN: i64 = 4096;

/// Micrometre travel per tracking-wheel revolution, scaled by a
/// thousand so the division below keeps sub-micrometre precision.
pub const TRACK_CIRC_NM: i64 = 219_440_247;

/// A single-tick distance jump beyond this is an implausible encoder
/// glitch and is discarded.
pub const TRACK_JUMP_LIMIT_UM: i64 = 100_000;

/// Bound on raw encoder tick counts.
pub const MAX_TICKS: i64 = 0x2_0000_0000;

/// The distance a tick count stands for, in micrometres.
pub open spec fn ticks_to_um(t: int) -> int {
    tdiv(t * TRACK_CIRC_NM, TICKS_PER_TURN * 1000)
}

/// The three tracking wheels: raw encoder reads become zero-corrected
/// travel distances, with failed reads held at the last good value and
/// implausible jumps discarded.
pub struct TrackingWheels {
    pub zero_left: i64,
    pub zero_right: i64,
    pub zero_back: i64,
    pub raw_left: i64,
    pub raw_right: i64,
    pub raw_back: i64,
    pub dist_left_um: i64,
    pub dist_right_um: i64,
    pub dist_back_um: i64,
}

/// One wheel's next accepted distance: the zero-corrected reading in
/// micrometres, unless it jumps implausibly far from the previous one.
pub open spec fn wheel_next_dist(read: Option<i64>, raw_last: int, zero: int, dist_last: int) -> int {
    let raw = resolve_read(read, raw_last);
    let fresh = ticks_to_um(raw - zero);
    if abs(dist_last - fresh) < TRACK_JUMP_LIMIT_UM {
        fresh
    } else {
        dist_last
    }
}

impl TrackingWheels {
    pub open spec fn wf(self) -> bool {
        &&& -MAX_TICKS <= self.zero_left <= MAX_TICKS
        &&& -MAX_TICKS <= self.zero_right <= MAX_TICKS
        &&& -MAX_TICKS <= self.zero_back <= MAX_TICKS
        &&& -MAX_TICKS <= self.raw_left <= MAX_TICKS
        &&& -MAX_TICKS <= self.raw_right <= MAX_TICKS
        &&& -MAX_TICKS <= self.raw_back <= MAX_TICKS
        &&& -MAX_DIST_UM <= self.dist_left_um <= MAX_DIST_UM
        &&& -MAX_DIST_UM <= self.dist_right_um <= MAX_DIST_UM
        &&& -MAX_DIST_UM <= self.dist_back_um <= MAX_DIST_UM
    }

    /// Start with the given zero offsets, read at rest.
    pub fn new(zero_left: i64, zero_right: i64, zero_back: i64) -> (r: TrackingWheels)
        requires
            -MAX_TICKS <= zero_left <= MAX_TICKS,
            -MAX_TICKS <= zero_right <= MAX_TICKS,
            -MAX_TICKS <= zero_back <= MAX_TICKS,
        ensures
            r.wf(),
            r.zero_left == zero_left && r.zero_right == zero_right && r.zero_back == zero_back,
            r.raw_left == zero_left && r.raw_right == zero_right && r.raw_back == zero_back,
            r.dist_left_um == 0 && r.dist_right_um == 0 && r.dist_back_um == 0,
    {
        TrackingWheels {
            zero_left,
            zero_right,
            zero_back,
            raw_left: zero_left,
            raw_right: zero_right,
            raw_back: zero_back,
            dist_left_um: 0,
            dist_right_um: 0,
            dist_back_um: 0,
        }
    }

    /// Convert one wheel's reading into an accepted distance.
    fn calc_one(read: Option<i64>, raw_last: &mut i64, zero: i64, dist_last: i64) -> (r: i64)
        requires
            -MAX_TICKS <= *old(raw_last) <= MAX_TICKS,
            -MAX_TICKS <= zero <= MAX_TICKS,
            -MAX_DIST_UM <= dist_last <= MAX_DIST_UM,
            read matches Some(v) ==> -MAX_TICKS <= v <= MAX_TICKS,
        ensures
            r == wheel_next_dist(read, *old(raw_last) as int, zero as int, dist_last as int),
            *final(raw_last) == resolve_read(read, *old(raw_last) as int),
            -MAX_DIST_UM <= r <= MAX_DIST_UM,
    {
        let raw = match read {
            Some(v) => v,
            None => *raw_last,
        };
        *raw_last = raw;
        let ticks: i64 = raw - zero;
        proof {
            crate::num::lemma_mul_bound(
                ticks as int,
                TRACK_CIRC_NM as int,
                2 * MAX_TICKS as int,
                TRACK_CIRC_NM as int,
            );
        }
        let scaled: i128 = (ticks as i128) * (TRACK_CIRC_NM as i128);
        let fresh128: i128 = if scaled >= 0 {
            scaled / 4_096_000
        } else {
            -((-scaled) / 4_096_000)
        };
        proof {
            crate::num::lemma_tdiv_bound(
                ticks as int * TRACK_CIRC_NM as int,
                4_096_000,
                2 * MAX_TICKS as int * TRACK_CIRC_NM as int,
            );
            assert(tdiv(ticks as int * TRACK_CIRC_NM as int, 4_096_000) <= MAX_DIST_UM
                && -MAX_DIST_UM <= tdiv(ticks as int * TRACK_CIRC_NM as int, 4_096_000))
                by (nonlinear_arith)
                requires
                    -2 * MAX_TICKS as int <= ticks <= 2 * MAX_TICKS as int,
                    tdiv(ticks as int * TRACK_CIRC_NM as int, 4_096_000) == (if ticks as int
                        * TRACK_CIRC_NM as int >= 0 {
                        (ticks as int * TRACK_CIRC_NM as int) / 4_096_000
                    } else {
                        -((-(ticks as int * TRACK_CIRC_NM as int)) / 4_096_000)
                    }),
                    MAX_TICKS == 0x2_0000_0000,
                    TRACK_CIRC_NM == 219_440_247,
                    MAX_DIST_UM == 0x100_0000_0000,
            ;
        }
        let fresh: i64 = fresh128 as i64;
        let gap = crate::num::abs_i64(dist_last - fresh);
        if gap < TRACK_JUMP_LIMIT_UM {
            fresh
        } else {
            dist_last
        }
    }

    /// Take the three wheels' latest raw reads (`None` for a failed
    /// read) and update the accepted travel distances.
    pub fn calc_distances(&mut self, left: Option<i64>, right: Option<i64>, back: Option<i64>)
        requires
            old(self).wf(),
            left matches Some(v) ==> -MAX_TICKS <= v <= MAX_TICKS,
            right matches Some(v) ==> -MAX_TICKS <= v <= MAX_TICKS,
            back matches Some(v) ==> -MAX_TICKS <= v <= MAX_TICKS,
        ensures
            final(self).wf(),
            final(self).zero_left == old(self).zero_left,
            final(self).zero_right == old(self).zero_right,
            final(self).zero_back == old(self).zero_back,
            final(self).raw_left == resolve_read(left, old(self).raw_left as int),
            final(self).raw_right == resolve_read(right, old(self).raw_right as int),
            final(self).raw_back == resolve_read(back, old(self).raw_back as int),
            final(self).dist_left_um == wheel_next_dist(
                left,
                old(self).raw_left as int,
                old(self).zero_left as int,
                old(self).dist_left_um as int,
            ),
            final(self).dist_right_um == wheel_next_dist(
                right,
                old(self).raw_right as int,
                old(self).zero_right as int,
                old(self).dist_right_um as int,
            ),
            final(self).dist_back_um == wheel_next_dist(
                back,
                old(self).raw_back as int,
                old(self).zero_back as int,
                old(self).dist_back_um as int,
            ),
    {
        self.dist_left_um = Self::calc_one(
            left,
            &mut self.raw_left,
            self.zero_left,
            self.dist_left_um,
        );
        self.dist_right_um = Self::calc_one(
            right,
            &mut self.raw_right,
            self.zero_right,
            self.dist_right_um,
        );
        self.dist_back_um = Self::calc_one(
            back,
            &mut self.raw_back,
            self.zero_back,
            self.dist_back_um,
        );
    }

    /// The accepted travel distances, in micrometres.
    pub fn distances(&self) -> (r: (i64, i64, i64))
        ensures
            r.0 == self.dist_left_um && r.1 == self.dist_right_um && r.2 == self.dist_back_um,
    {
        (self.dist_left_um, self.dist_right_um, self.dist_back_um)
    }
}

/// The gyro must not be polled faster than its internal update rate;
/// polls inside this window report no new data rather than a stale
/// duplicate. The hardware updates about every ten and a half
/// milliseconds.
pub const MIN_GYRO_POLL_MS: u64 = 11;

/// Turns raw gyro rate reads into heading deltas, enforcing the
/// minimum poll spacing. Spike and noise handling happens later, in
/// the pose update.
pub struct GyroPoller {
    pub last_poll_ms: u64,
}

impl GyroPoller {
    pub fn new() -> (r: GyroPoller)
        ensures
            r.last_poll_ms == 0,
    {
        GyroPoller { last_poll_ms: 0 }
    }

    /// The heading change since the last accepted poll: the rate times
    /// the elapsed time, in millidegrees. `None` when the sensor
    /// failed or when polled faster than it can update.
    pub fn angle_difference(&mut self, now_ms: u64, rate_mdeg_s: Option<i64>) -> (r: Option<i64>)
        requires
            now_ms < 0x4000_0000_0000_0000,
            old(self).last_poll_ms < 0x4000_0000_0000_0000,
            rate_mdeg_s matches Some(v) ==> -100_000_000 <= v <= 100_000_000,
        ensures
            ({
                let elapsed = now_ms as int - old(self).last_poll_ms as int;
                if elapsed < MIN_GYRO_POLL_MS {
                    // Too soon: no new data, the window keeps running.
                    r is None && *final(self) == *old(self)
                } else {
                    match rate_mdeg_s {
                        None => r is None && *final(self) == *old(self),
                        Some(rate) => {
                            // An implausibly long gap is capped so the
                            // delta stays in range.
                            let capped = if elapsed > 1_000_000 {
                                1_000_000int
                            } else {
                                elapsed
                            };
                            r == Some(tdiv(rate * capped, 1000) as i64) && final(self).last_poll_ms
                                == now_ms
                        },
                    }
                }
            }),
    {
        if now_ms < self.last_poll_ms || now_ms - self.last_poll_ms < MIN_GYRO_POLL_MS {
            return None;
        }
        match rate_mdeg_s {
            None => None,
            Some(rate) => {
                let gap = now_ms - self.last_poll_ms;
                let elapsed: i64 = if gap > 1_000_000 {
                    1_000_000
                } else {
                    gap as i64
                };
                self.last_poll_ms = now_ms;
                proof {
                    crate::num::lemma_mul_bound(rate as int, elapsed as int, 100_000_000, 1_000_000);
                    crate::num::lemma_tdiv_bound(
                        rate as int * elapsed as int,
                        1000,
                        100_000_000int * 1_000_000,
                    );
                }
                let product: i64 = rate * elapsed;
                Some(crate::num::div_trunc(product, 1000))
            },
        }
    }
}

/// Minimum spacing between velocity samples; anything quicker is noise
/// at encoder resolution.
pub const MIN_VEL_DT_MS: u64 = 10;

/// Side velocities from successive wheel distances over wall time.
pub struct VelocityEstimator {
    pub last_update_ms: u64,
    pub last_left_um: i64,
    pub last_right_um: i64,
    pub vel_left_mm_s: i64,
    pub vel_right_mm_s: i64,
    pub first_update: bool,
}

impl VelocityEstimator {
    pub open spec fn wf(self) -> bool {
        &&& -MAX_DIST_UM <= self.last_left_um <= MAX_DIST_UM
        &&& -MAX_DIST_UM <= self.last_right_um <= MAX_DIST_UM
        &&& self.last_update_ms < 0x4000_0000_0000_0000
    }

    pub fn new() -> (r: VelocityEstimator)
        ensures
            r.wf(),
            r.vel_left_mm_s == 0 && r.vel_right_mm_s == 0,
            r.first_update,
            r.last_update_ms == 0 && r.last_left_um == 0 && r.last_right_um == 0,
    {
        VelocityEstimator {
            last_update_ms: 0,
            last_left_um: 0,
            last_right_um: 0,
            vel_left_mm_s: 0,
            vel_right_mm_s: 0,
            first_update: true,
        }
    }

    /// Note the latest wheel distances. The velocity estimate only
    /// moves when enough wall time has passed since the last accepted
    /// sample; micrometres over milliseconds gives millimetres per
    /// second directly.
    pub fn update(&mut self, now_ms: u64, left_um: i64, right_um: i64)
        requires
            old(self).wf(),
            now_ms < 0x4000_0000_0000_0000,
            -MAX_DIST_UM <= left_um <= MAX_DIST_UM,
            -MAX_DIST_UM <= right_um <= MAX_DIST_UM,
        ensures
            final(self).wf(),
            ({
                let dt = now_ms as int - old(self).last_update_ms as int;
                if !old(self).first_update && dt > MIN_VEL_DT_MS {
                    &&& final(self).vel_left_mm_s == tdiv(
                        left_um - old(self).last_left_um,
                        dt,
                    )
                    &&& final(self).vel_right_mm_s == tdiv(
                        right_um - old(self).last_right_um,
                        dt,
                    )
                    &&& final(self).last_update_ms == now_ms
                    &&& final(self).last_left_um == left_um
                    &&& final(self).last_right_um == right_um
                    &&& final(self).first_update == old(self).first_update
                } else {
                    *final(self) == (VelocityEstimator { first_update: false, ..*old(self) })
                }
            }),
    {
        if !self.first_update && now_ms > self.last_update_ms && now_ms - self.last_update_ms
            > MIN_VEL_DT_MS {
            let dt: i64 = (now_ms - self.last_update_ms) as i64;
            proof {
                crate::num::lemma_tdiv_bound(
                    left_um - self.last_left_um,
                    dt as int,
                    2 * MAX_DIST_UM as int,
                );
                crate::num::lemma_tdiv_bound(
                    right_um - self.last_right_um,
                    dt as int,
                    2 * MAX_DIST_UM as int,
                );
            }
            self.vel_left_mm_s = crate::num::div_trunc(left_um - self.last_left_um, dt);
            self.vel_right_mm_s = crate::num::div_trunc(right_um - self.last_right_um, dt);
            self.last_update_ms = now_ms;
            self.last_left_um = left_um;
            self.last_right_um = right_um;
        } else {
            self.first_update = false;
        }
    }

    /// The latest side velocity estimate, in millimetres per second.
    pub fn side_velocities(&self) -> (r: (i64, i64))
        ensures
            r.0 == self.vel_left_mm_s && r.1 == self.vel_right_mm_s,
    {
        (self.vel_left_mm_s, self.vel_right_mm_s)
    }
}

/// Fault handling is hold-last: an update in which a read failed equals
/// the update in which that read returned the previously accepted value.
pub proof fn lemma_failed_read_is_hold_last(s: Odometry, other: Option<i64>, dh: Option<i64>)
    requires
        s.wf(),
    ensures
        odom_dx(s, None, other, dh) == odom_dx(s, Some(s.last_left_um), other, dh),
        odom_dy(s, None, other, dh) == odom_dy(s, Some(s.last_left_um), other, dh),
        odom_dx(s, other, None, dh) == odom_dx(s, other, Some(s.last_right_um), dh),
        odom_dy(s, other, None, dh) == odom_dy(s, other, Some(s.last_right_um), dh),
        resolve_read(None, s.last_left_um as int) == resolve_read(
            Some(s.last_left_um),
            s.last_left_um as int,
        ),
{
}

} // verus!
