//! The autonomous path engine: a stack of segments, each with a
//! transform, start, follow, end-follow lifecycle.
//!
//! A `Path` runs its segments in the order given; at most one segment is
//! active at a time. Untransformed segments (`MinSegment`) expand into
//! concrete ones using the current odometry; a finished segment may
//! splice replacement segments in front of the rest, which is how a
//! drifted move re-routes itself instead of failing. Side effects other
//! than the drive command (motor overrides, digital outputs) are not
//! performed here: they are appended to an effect list that the caller
//! applies to the hardware.
//!
//! Positions are in millimetres, headings in millidegrees, times in
//! milliseconds and commands in thousandths of full power.

use vstd::prelude::*;

use crate::angle::atan2_mdeg_spec;
use crate::num::{abs, clamp, tdiv};
use crate::pid::{Pid, MAX_MEASURE};
use crate::profile::profile_speed;
use crate::triports::{Triport, TriportChange};
use crate::vec::{coord_in_range, dist_mm, perp_distance_spec, Vec2, MAX_COORD_MM};

verus! {

/// A turn segment is done once the heading is within two degrees of the
/// target...
pub const TURN_DONE_TOLERANCE_MDEG: i64 = 2_000;

/// ...and the robot has settled below one degree per second.
pub const TURN_DONE_ANG_VEL_MDEG_S: i64 = 1_000;

/// A move re-routes itself when the heading drifts more than eight
/// degrees off the segment bearing.
pub const MOVE_HEADING_TOLERANCE_MDEG: i64 = 8_000;

/// A move re-routes itself beyond a tenth of a metre off the line.
pub const MOVE_LINE_TOLERANCE_MM: i64 = 100;

/// A move is done when the average side speed is below this...
pub const MOVE_DONE_VEL_MM_S: i64 = 10;

/// ...and the endpoint is within this distance.
pub const MOVE_DONE_DIST_MM: i64 = 30;

/// Headings the engine works with stay far inside the controller range.
pub const MAX_ENGINE_HEADING_MDEG: i64 = 500_000_000;

/// What the engine reads of the world each tick: the freshly updated
/// odometry, reduced to plain values.
#[derive(Debug, Clone, Copy, PartialEq, Eq, Structural)]
pub struct OdomSnapshot {
    pub x_mm: i64,
    pub y_mm: i64,
    pub heading_mdeg: i64,
    pub angular_vel_mdeg_s: i64,
    pub left_vel_mm_s: i64,
    pub right_vel_mm_s: i64,
}

impl OdomSnapshot {
    /// Readings inside the ranges the engine arithmetic was sized for.
    pub open spec fn wf(self) -> bool {
        &&& -MAX_COORD_MM <= self.x_mm <= MAX_COORD_MM
        &&& -MAX_COORD_MM <= self.y_mm <= MAX_COORD_MM
        &&& -MAX_ENGINE_HEADING_MDEG <= self.heading_mdeg <= MAX_ENGINE_HEADING_MDEG
        &&& -100_000_000 <= self.angular_vel_mdeg_s <= 100_000_000
        &&& -1_000_000 <= self.left_vel_mm_s <= 1_000_000
        &&& -1_000_000 <= self.right_vel_mm_s <= 1_000_000
    }

    /// Position as a vector.
    pub fn pos(&self) -> (r: Vec2)
        ensures
            r == (Vec2 { x: self.x_mm, y: self.y_mm }),
    {
        Vec2 { x: self.x_mm, y: self.y_mm }
    }
}

/// A side effect the engine asks the caller to perform on the hardware.
#[derive(Debug, Clone, Copy, PartialEq, Eq, Structural)]
pub enum Effect {
    /// Drive the motors whose bits are set in `ports` (bit `p - 1` for
    /// port `p`) at `power` thousandths, negated for ports also set in
    /// `reversed`.
    Motors { ports: u32, reversed: u32, power: i64 },
    /// Apply `change` to the triport channels under `mask`.
    Triports { mask: u8, change: TriportChange },
}

/// A deadline measured against caller-supplied millisecond timestamps.
#[derive(Debug, Clone, Copy, PartialEq, Eq, Structural)]
pub struct Timer {
    pub start_ms: u64,
    pub duration_ms: u64,
}

impl Timer {
    pub fn new(duration_ms: u64) -> (r: Timer)
        ensures
            r.start_ms == 0 && r.duration_ms == duration_ms,
    {
        Timer { start_ms: 0, duration_ms }
    }

    /// Begin counting from `now_ms`.
    pub fn start(&mut self, now_ms: u64)
        ensures
            *final(self) == (Timer { start_ms: now_ms, duration_ms: old(self).duration_ms }),
    {
        self.start_ms = now_ms;
    }

    /// Whether the deadline has passed at `now_ms`.
    pub fn done(&self, now_ms: u64) -> (r: bool)
        ensures
            r == (now_ms > self.start_ms + self.duration_ms),
    {
        if now_ms < self.start_ms {
            false
        } else {
            now_ms - self.start_ms > self.duration_ms
        }
    }
}

/// An untransformed segment: a high-level instruction that expands into
/// concrete segments once the current pose is known.
#[derive(Debug, Clone, Copy, PartialEq, Eq, Structural)]
pub enum MinSegment {
    /// Drive to an absolute point, turning towards it first.
    MoveTo(Vec2),
    /// Drive this many millimetres along the current heading.
    MoveRel(i64),
    /// Turn to an absolute bearing, the shortest way round.
    TurnTo(i64),
    /// Turn by a relative angle, even past half a revolution.
    TurnRel(i64),
}

/// A concrete turn to an already chosen unbounded target heading.
#[derive(Debug, Clone, Copy, PartialEq, Eq, Structural)]
pub struct TurnTo {
    pub start_heading: i64,
    pub target_heading: i64,
}

/// A concrete straight move from `start` to `end`.
#[derive(Debug, Clone, Copy, PartialEq, Eq, Structural)]
pub struct MoveRel {
    pub start: Vec2,
    pub end: Vec2,
    pub dist: i64,
}

/// Constant power to both sides for a fixed time.
#[derive(Debug, Clone, Copy, PartialEq, Eq, Structural)]
pub struct Ram {
    pub pow: i64,
    pub timer: Timer,
}

impl Ram {
    pub fn new(pow: i64, duration_ms: u64) -> (r: Ram)
        ensures
            r.pow == pow,
            r.timer.duration_ms == duration_ms,
            r.timer.start_ms == 0,
    {
        Ram { pow, timer: Timer::new(duration_ms) }
    }
}

/// A segment that commands nothing and never finishes on its own; wrap
/// it in a timed segment to make a delay.
#[derive(Debug, Clone, Copy, PartialEq, Eq, Structural)]
pub struct Nop {}

impl Nop {
    pub fn new() -> (r: Nop) {
        Nop {  }
    }
}

/// A segment that commands a fixed side-velocity pair and never
/// finishes on its own.
#[derive(Debug, Clone, Copy, PartialEq, Eq)]
pub struct SetVel {
    pub vel: (i64, i64),
}

impl SetVel {
    pub fn new(vel: (i64, i64)) -> (r: SetVel)
        ensures
            r.vel == vel,
    {
        SetVel { vel }
    }
}

/// A turn by a relative angle measured from wherever the robot points
/// when the segment starts.
#[derive(Debug, Clone, Copy, PartialEq, Eq, Structural)]
pub struct RelativeTurnTo {
    pub target: i64,
    pub offset: i64,
}

impl RelativeTurnTo {
    pub fn new(angle: i64) -> (r: RelativeTurnTo)
        ensures
            r.target == angle && r.offset == 0,
    {
        RelativeTurnTo { target: angle, offset: 0 }
    }
}

/// Ports under `mask` (bit `p - 1` for port `p`) driven at `pow`
/// thousandths while the segment runs, negated for ports in `reversed`,
/// and zeroed if the segment is cut short.
#[derive(Debug, Clone, Copy, PartialEq, Eq, Structural)]
pub struct PowerMotors {
    pub ports: u32,
    pub reversed: u32,
    pub pow: i64,
}

/// The port mask of a motor list: bit `p - 1` for each port `p`.
pub open spec fn ports_mask(motors: Seq<(u8, bool)>) -> u32
    decreases motors.len(),
{
    if motors.len() == 0 {
        0u32
    } else {
        ports_mask(motors.drop_last()) | (1u32 << ((motors.last().0 - 1) as u32))
    }
}

/// The mask of the reversed motors in a list.
pub open spec fn reversed_mask(motors: Seq<(u8, bool)>) -> u32
    decreases motors.len(),
{
    if motors.len() == 0 {
        0u32
    } else if motors.last().1 {
        reversed_mask(motors.drop_last()) | (1u32 << ((motors.last().0 - 1) as u32))
    } else {
        reversed_mask(motors.drop_last())
    }
}

impl PowerMotors {
    /// Build from a list of `(port, reversed)` pairs; the power is
    /// clamped into one unit of full power.
    pub fn new(motors: Vec<(u8, bool)>, pow: i64) -> (r: PowerMotors)
        requires
            forall|i: int| 0 <= i < motors@.len() ==> 1 <= (#[trigger] motors@[i]).0 <= 20,
        ensures
            r.ports == ports_mask(motors@),
            r.reversed == reversed_mask(motors@),
            r.pow == clamp(pow as int, -1000, 1000),
    {
        let mut ports: u32 = 0;
        let mut reversed: u32 = 0;
        let mut i: usize = 0;
        while i < motors.len()
            invariant
                i <= motors.len(),
                forall|j: int| 0 <= j < motors@.len() ==> 1 <= (#[trigger] motors@[j]).0 <= 20,
                ports == ports_mask(motors@.subrange(0, i as int)),
                reversed == reversed_mask(motors@.subrange(0, i as int)),
            decreases motors.len() - i,
        {
            let (port, rev) = motors[i];
            proof {
                assert(motors@.subrange(0, i + 1).drop_last() =~= motors@.subrange(0, i as int));
                assert(motors@.subrange(0, i + 1).last() == motors@[i as int]);
            }
            ports = ports | (1u32 << ((port - 1) as u32));
            if rev {
                reversed = reversed | (1u32 << ((port - 1) as u32));
            }
            i = i + 1;
        }
        proof {
            assert(motors@.subrange(0, motors@.len() as int) =~= motors@);
        }
        PowerMotors { ports, reversed, pow: crate::num::clamp_i64(pow, -1000, 1000) }
    }
}

/// The mask of a list of triports.
pub open spec fn triports_mask(ports: Seq<Triport>) -> u8
    decreases ports.len(),
{
    if ports.len() == 0 {
        0u8
    } else {
        triports_mask(ports.drop_last()) | (1u8 << ports.last().index)
    }
}

/// Applies one change to a set of digital outputs the moment it starts,
/// and completes immediately.
#[derive(Debug, Clone, Copy, PartialEq, Eq, Structural)]
pub struct ChangeTriports {
    pub mask: u8,
    pub change: TriportChange,
}

impl ChangeTriports {
    pub fn new(triports: Vec<Triport>, change: TriportChange) -> (r: ChangeTriports)
        requires
            forall|i: int| 0 <= i < triports@.len() ==> (#[trigger] triports@[i]).index < 8,
        ensures
            r.mask == triports_mask(triports@),
            r.change == change,
    {
        let mut mask: u8 = 0;
        let mut i: usize = 0;
        while i < triports.len()
            invariant
                i <= triports.len(),
                forall|j: int| 0 <= j < triports@.len() ==> (#[trigger] triports@[j]).index < 8,
                mask == triports_mask(triports@.subrange(0, i as int)),
            decreases triports.len() - i,
        {
            proof {
                assert(triports@.subrange(0, i + 1).drop_last() =~= triports@.subrange(0, i as int));
                assert(triports@.subrange(0, i + 1).last() == triports@[i as int]);
            }
            mask = mask | (1u8 << triports[i].index);
            i = i + 1;
        }
        proof {
            assert(triports@.subrange(0, triports@.len() as int) =~= triports@);
        }
        ChangeTriports { mask, change }
    }
}

/// Wraps a segment with a hard deadline: when the deadline passes the
/// inner segment is cut short through `abrupt_end`, so no actuator is
/// left running.
#[derive(Debug)]
pub struct TimedSegment {
    pub seg: Box<Segment>,
    pub timer: Timer,
}

/// Runs a fresh copy of a template segment up to `max_count + 1`
/// times. Each copy runs inside its own nested path, so a corrective
/// re-route spliced by the copy stays within the current repetition
/// rather than ending the repeat early.
#[derive(Debug)]
pub struct RepeatSegment {
    pub template: Box<Segment>,
    pub count: u64,
    pub max_count: u64,
    pub active: Path,
}

/// Scales the drive command of an inner path by `limit` thousandths.
#[derive(Debug)]
pub struct SpeedLimiter {
    pub main: Path,
    pub limit: i64,
}

/// Drives a main path while a secondary path runs for its side effects;
/// only the main path's command reaches the drivetrain, and the segment
/// completes when the main path does.
#[derive(Debug)]
pub struct WhileSegment {
    pub main: Path,
    pub secondary: Path,
    pub secondary_ended: bool,
}

impl TimedSegment {
    /// Wrap an already-concrete segment with a deadline.
    pub fn new(seg: Segment, duration_ms: u64) -> (r: TimedSegment)
        requires
            seg_wf(seg),
            !(seg matches Segment::Min(_)),
        ensures
            *r.seg == seg,
            r.timer == (Timer { start_ms: 0, duration_ms }),
            seg_wf(Segment::Timed(r)),
    {
        TimedSegment { seg: Box::new(seg), timer: Timer::new(duration_ms) }
    }
}

impl RepeatSegment {
    /// Run a copy of `seg` up to `max_count + 1` times.
    pub fn new(seg: Segment, max_count: u64) -> (r: RepeatSegment)
        requires
            seg_wf(seg),
        ensures
            *r.template == seg,
            r.count == 0,
            r.max_count == max_count,
            seg_wf(Segment::Repeat(r)),
    {
        let template = seg.duplicate();
        let fresh_queue = SegQueue::Cons(Box::new(seg), Box::new(SegQueue::Nil));
        proof {
            assert(queue_wf(SegQueue::Nil));
            assert(queue_wf(fresh_queue));
        }
        let armed = Path { segments: fresh_queue, current: None };
        proof {
            assert(path_wf(armed));
        }
        RepeatSegment { template: Box::new(template), count: 0, max_count, active: armed }
    }
}

impl SpeedLimiter {
    /// Scale the drive command of a whole path.
    pub fn new(main: Path, limit: i64) -> (r: SpeedLimiter)
        requires
            path_wf(main),
            0 <= limit <= 1000,
        ensures
            r.main == main,
            r.limit == limit,
            seg_wf(Segment::Limited(r)),
    {
        SpeedLimiter { main, limit }
    }
}

impl WhileSegment {
    /// Drive `main` while `secondary` runs alongside for its side
    /// effects.
    pub fn new(main: Path, secondary: Path) -> (r: WhileSegment)
        requires
            path_wf(main),
            path_wf(secondary),
        ensures
            r.main == main,
            r.secondary == secondary,
            !r.secondary_ended,
            seg_wf(Segment::Aux(r)),
    {
        WhileSegment { main, secondary, secondary_ended: false }
    }
}

/// One unit of autonomous behaviour with a transform, start, follow,
/// end-follow lifecycle.
#[derive(Debug)]
pub enum Segment {
    Min(MinSegment),
    Turn(TurnTo),
    Move(MoveRel),
    Ram(Ram),
    Pause(Nop),
    Vel(SetVel),
    RelativeTurn(RelativeTurnTo),
    Power(PowerMotors),
    Outputs(ChangeTriports),
    Timed(TimedSegment),
    Repeat(RepeatSegment),
    Limited(SpeedLimiter),
    Aux(WhileSegment),
    Sub(Path),
}

/// The queue of segments still to run, nearest first.
#[derive(Debug)]
pub enum SegQueue {
    Nil,
    Cons(Box<Segment>, Box<SegQueue>),
}

/// A path: the segments still to run plus at most one active segment.
#[derive(Debug)]
pub struct Path {
    pub segments: SegQueue,
    pub current: Option<Box<Segment>>,
}

/// The queue as a sequence, nearest segment first.
pub open spec fn queue_seq(q: SegQueue) -> Seq<Segment>
    decreases q,
{
    match q {
        SegQueue::Nil => Seq::empty(),
        SegQueue::Cons(s, rest) => seq![*s] + queue_seq(*rest),
    }
}

/// Bounds on an untransformed segment's payload.
pub open spec fn min_wf(m: MinSegment) -> bool {
    match m {
        MinSegment::MoveTo(p) => coord_in_range(p),
        MinSegment::MoveRel(d) => -MAX_COORD_MM <= d <= MAX_COORD_MM,
        MinSegment::TurnTo(t) => -360_000_000 <= t <= 360_000_000,
        MinSegment::TurnRel(t) => -360_000_000 <= t <= 360_000_000,
    }
}

/// Bounds on every payload in a segment tree: coordinates within the
/// geometry range, headings within the controller range, scale factors
/// within one unit.
pub open spec fn seg_wf(s: Segment) -> bool
    decreases s,
{
    match s {
        Segment::Min(m) => min_wf(m),
        Segment::Turn(t) => -MAX_MEASURE <= t.start_heading <= MAX_MEASURE && -MAX_MEASURE
            <= t.target_heading <= MAX_MEASURE,
        Segment::Move(m) => coord_in_range(m.start) && coord_in_range(m.end) && -4 * MAX_COORD_MM
            <= m.dist <= 4 * MAX_COORD_MM,
        Segment::Ram(r) => -1000 <= r.pow <= 1000,
        Segment::Pause(_) => true,
        Segment::Vel(v) => -1_000_000_000 <= v.vel.0 <= 1_000_000_000 && -1_000_000_000 <= v.vel.1
            <= 1_000_000_000,
        Segment::RelativeTurn(rt) => -360_000_000 <= rt.target <= 360_000_000
            && -MAX_ENGINE_HEADING_MDEG <= rt.offset <= MAX_ENGINE_HEADING_MDEG,
        Segment::Power(_) => true,
        Segment::Outputs(_) => true,
        Segment::Timed(t) => seg_wf(*t.seg) && !(*t.seg matches Segment::Min(_)),
        Segment::Repeat(r) => seg_wf(*r.template) && path_wf(r.active) && r.count <= r.max_count,
        Segment::Limited(l) => 0 <= l.limit <= 1000 && path_wf(l.main),
        Segment::Aux(w) => path_wf(w.main) && path_wf(w.secondary),
        Segment::Sub(p) => path_wf(p),
    }
}

/// Bounds on every segment in a queue.
pub open spec fn queue_wf(q: SegQueue) -> bool
    decreases q,
{
    match q {
        SegQueue::Nil => true,
        SegQueue::Cons(s, rest) => seg_wf(*s) && queue_wf(*rest),
    }
}

/// Bounds on every segment of a path; an active segment is always
/// already transformed.
pub open spec fn path_wf(p: Path) -> bool
    decreases p,
{
    queue_wf(p.segments) && match p.current {
        Some(s) => seg_wf(*s) && !(*s matches Segment::Min(_)),
        None => true,
    }
}

impl SegQueue {
    /// An exact copy of the queue.
    pub fn duplicate(&self) -> (r: SegQueue)
        ensures
            r == *self,
        decreases *self,
    {
        match self {
            SegQueue::Nil => SegQueue::Nil,
            SegQueue::Cons(s, rest) => SegQueue::Cons(
                Box::new(s.duplicate()),
                Box::new(rest.duplicate()),
            ),
        }
    }

    /// Put a segment on top: it runs before everything queued so far.
    pub fn push_top(&mut self, seg: Segment)
        ensures
            queue_seq(*final(self)) == seq![seg] + queue_seq(*old(self)),
            queue_wf(*final(self)) == (seg_wf(seg) && queue_wf(*old(self))),
    {
        let mut rest = SegQueue::Nil;
        core::mem::swap(self, &mut rest);
        *self = SegQueue::Cons(Box::new(seg), Box::new(rest));
    }

    /// Take the top segment off, if any.
    pub fn pop_top(&mut self) -> (r: Option<Segment>)
        ensures
            match r {
                Some(seg) => queue_seq(*old(self)) == seq![seg] + queue_seq(*final(self))
                    && queue_wf(*old(self)) == (seg_wf(seg) && queue_wf(*final(self))),
                None => *final(self) == *old(self) && queue_seq(*old(self)) =~= Seq::<
                    Segment,
                >::empty() && *old(self) matches SegQueue::Nil,
            },
    {
        let mut taken = SegQueue::Nil;
        core::mem::swap(self, &mut taken);
        match taken {
            SegQueue::Nil => None,
            SegQueue::Cons(s, rest) => {
                *self = *rest;
                Some(*s)
            },
        }
    }

    /// Put a segment at the bottom: it runs after everything queued.
    pub fn push_bottom(&mut self, seg: Segment)
        ensures
            queue_seq(*final(self)) == queue_seq(*old(self)) + seq![seg],
            queue_wf(*final(self)) == (queue_wf(*old(self)) && seg_wf(seg)),
        decreases *old(self),
    {
        match self {
            SegQueue::Nil => {
                *self = SegQueue::Cons(Box::new(seg), Box::new(SegQueue::Nil));
                proof {
                    assert(queue_seq(*self) =~= Seq::empty() + seq![seg]);
                }
            },
            SegQueue::Cons(_, rest) => {
                rest.push_bottom(seg);
                proof {
                    assert(queue_seq(*self) =~= queue_seq(*old(self)) + seq![seg]);
                }
            },
        }
    }
}

/// What an untransformed segment expands to at the given pose, in
/// splice order: the last element of the sequence runs first.
pub open spec fn transform_spec(m: MinSegment, o: OdomSnapshot) -> Seq<Segment> {
    let h = o.heading_mdeg as int;
    let opos = Vec2 { x: o.x_mm, y: o.y_mm };
    match m {
        MinSegment::TurnRel(rel) => seq![
            Segment::Turn(
                TurnTo { start_heading: o.heading_mdeg, target_heading: (h + rel) as i64 },
            ),
        ],
        MinSegment::TurnTo(t) => seq![
            Segment::Turn(
                TurnTo {
                    start_heading: o.heading_mdeg,
                    target_heading: crate::angle::optimise_heading_spec(h, t as int) as i64,
                },
            ),
        ],
        MinSegment::MoveTo(pos) => seq![
            Segment::Move(MoveRel { start: opos, end: pos, dist: dist_mm(opos, pos) as i64 }),
            Segment::Turn(
                TurnTo {
                    start_heading: o.heading_mdeg,
                    target_heading: crate::angle::optimise_heading_spec(
                        h,
                        atan2_mdeg_spec(pos.y - opos.y, pos.x - opos.x),
                    ) as i64,
                },
            ),
        ],
        MinSegment::MoveRel(rel) => seq![
            Segment::Move(
                MoveRel {
                    start: opos,
                    end: Vec2 {
                        x: clamp(
                            opos.x + tdiv(rel * crate::angle::cos_mdeg_spec(h), 1_000_000),
                            -MAX_COORD_MM as int,
                            MAX_COORD_MM as int,
                        ) as i64,
                        y: clamp(
                            opos.y + tdiv(rel * crate::angle::sin_mdeg_spec(h), 1_000_000),
                            -MAX_COORD_MM as int,
                            MAX_COORD_MM as int,
                        ) as i64,
                    },
                    dist: rel,
                },
            ),
        ],
    }
}

impl MinSegment {
    /// Expand into concrete segments at the current pose. A relative
    /// turn keeps whatever multiple of a revolution it asks for; an
    /// absolute turn resolves to the nearest equivalent bearing; a move
    /// to a point becomes a turn towards it followed by a straight
    /// move (in splice order: the last element runs first).
    pub fn transform(&self, odom: &OdomSnapshot) -> (r: Vec<Segment>)
        requires
            min_wf(*self),
            odom.wf(),
        ensures
            r@ == transform_spec(*self, *odom),
            forall|i: int| 0 <= i < r@.len() ==> seg_wf(#[trigger] r@[i]),
            forall|i: int| 0 <= i < r@.len() ==> !(#[trigger] r@[i] matches Segment::Min(_)),
    {
        let h = odom.heading_mdeg;
        let opos = odom.pos();
        let mut out: Vec<Segment> = Vec::new();
        match self {
            MinSegment::TurnRel(rel) => {
                out.push(
                    Segment::Turn(TurnTo { start_heading: h, target_heading: h + *rel }),
                );
                proof {
                    assert(out@ =~= transform_spec(*self, *odom));
                }
            },
            MinSegment::TurnTo(t) => {
                let target = crate::angle::optimise_target_heading(h, *t);
                out.push(Segment::Turn(TurnTo { start_heading: h, target_heading: target }));
                proof {
                    assert(out@ =~= transform_spec(*self, *odom));
                }
            },
            MinSegment::MoveTo(pos) => {
                let len = crate::vec::distance_mm(opos, *pos);
                let bearing = crate::angle::atan2_mdeg(pos.y - opos.y, pos.x - opos.x);
                let target = crate::angle::optimise_target_heading(h, bearing);
                out.push(Segment::Move(MoveRel { start: opos, end: *pos, dist: len }));
                out.push(Segment::Turn(TurnTo { start_heading: h, target_heading: target }));
                proof {
                    assert(out@ =~= transform_spec(*self, *odom));
                }
            },
            MinSegment::MoveRel(rel) => {
                let cos_h = crate::angle::cos_mdeg(h);
                let sin_h = crate::angle::sin_mdeg(h);
                proof {
                    crate::num::lemma_mul_bound(
                        *rel as int,
                        cos_h as int,
                        MAX_COORD_MM as int,
                        1_000_000,
                    );
                    crate::num::lemma_mul_bound(
                        *rel as int,
                        sin_h as int,
                        MAX_COORD_MM as int,
                        1_000_000,
                    );
                    crate::num::lemma_tdiv_bound(
                        *rel as int * cos_h as int,
                        1_000_000,
                        MAX_COORD_MM as int * 1_000_000,
                    );
                    crate::num::lemma_tdiv_bound(
                        *rel as int * sin_h as int,
                        1_000_000,
                        MAX_COORD_MM as int * 1_000_000,
                    );
                }
                let ex = crate::num::clamp_i64(
                    opos.x + crate::num::div_trunc(*rel * cos_h, 1_000_000),
                    -MAX_COORD_MM,
                    MAX_COORD_MM,
                );
                let ey = crate::num::clamp_i64(
                    opos.y + crate::num::div_trunc(*rel * sin_h, 1_000_000),
                    -MAX_COORD_MM,
                    MAX_COORD_MM,
                );
                out.push(
                    Segment::Move(MoveRel { start: opos, end: Vec2 { x: ex, y: ey }, dist: *rel }),
                );
                proof {
                    assert(out@ =~= transform_spec(*self, *odom));
                }
            },
        }
        out
    }
}

impl Segment {
    /// An exact copy of the segment tree.
    pub fn duplicate(&self) -> (r: Segment)
        ensures
            r == *self,
        decreases *self,
    {
        match self {
            Segment::Min(m) => Segment::Min(*m),
            Segment::Turn(t) => Segment::Turn(*t),
            Segment::Move(m) => Segment::Move(*m),
            Segment::Ram(r) => Segment::Ram(*r),
            Segment::Pause(n) => Segment::Pause(*n),
            Segment::Vel(v) => Segment::Vel(*v),
            Segment::RelativeTurn(rt) => Segment::RelativeTurn(*rt),
            Segment::Power(p) => Segment::Power(*p),
            Segment::Outputs(o) => Segment::Outputs(*o),
            Segment::Timed(t) => Segment::Timed(
                TimedSegment { seg: Box::new(t.seg.duplicate()), timer: t.timer },
            ),
            Segment::Repeat(r) => Segment::Repeat(
                RepeatSegment {
                    template: Box::new(r.template.duplicate()),
                    count: r.count,
                    max_count: r.max_count,
                    active: r.active.duplicate(),
                },
            ),
            Segment::Limited(l) => Segment::Limited(
                SpeedLimiter { main: l.main.duplicate(), limit: l.limit },
            ),
            Segment::Aux(w) => Segment::Aux(
                WhileSegment {
                    main: w.main.duplicate(),
                    secondary: w.secondary.duplicate(),
                    secondary_ended: w.secondary_ended,
                },
            ),
            Segment::Sub(p) => Segment::Sub(p.duplicate()),
        }
    }
}

impl Segment {
    /// Whether the segment is concrete enough to start; only an
    /// untransformed `MinSegment` is not.
    pub fn finished_transform(&self) -> (r: bool)
        ensures
            r == !(*self matches Segment::Min(_)),
    {
        !matches!(self, Segment::Min(_))
    }

    /// One-shot setup when the segment becomes active. A turn resolves
    /// its target to the nearest equivalent of the current unbounded
    /// heading and resets the shared angle controller; a relative turn
    /// records the heading offset; deadlines begin counting; a digital
    /// output change is emitted at once; a repeat arms a fresh copy of
    /// its template.
    pub fn start(&mut self, odom: &OdomSnapshot, pid: &mut Pid, now_ms: u64, effects: &mut Vec<
        Effect,
    >)
        requires
            seg_wf(*old(self)),
            !(*old(self) matches Segment::Min(_)),
            odom.wf(),
            old(pid).wf(),
        ensures
            seg_wf(*final(self)),
            final(pid).wf(),
            !(*final(self) matches Segment::Min(_)),
            old(effects)@.is_prefix_of(final(effects)@),
            (*old(self) matches Segment::Turn(t) ==> {
                let resolved = crate::angle::optimise_heading_spec(
                    odom.heading_mdeg as int,
                    t.target_heading as int,
                );
                &&& *final(self) == Segment::Turn(
                    TurnTo { start_heading: t.start_heading, target_heading: resolved as i64 },
                )
                &&& *final(pid) == (Pid {
                    target: resolved as i64,
                    ki_integral: 0,
                    last_error: 0,
                    first_update: true,
                    ..*old(pid)
                })
            }),
            (*old(self) matches Segment::RelativeTurn(rt) ==> {
                &&& *final(self) == Segment::RelativeTurn(
                    RelativeTurnTo { target: rt.target, offset: (-odom.heading_mdeg) as i64 },
                )
                &&& *final(pid) == (Pid {
                    target: rt.target,
                    ki_integral: 0,
                    last_error: 0,
                    first_update: true,
                    ..*old(pid)
                })
            }),
            (*old(self) matches Segment::Ram(ram) ==> *final(self) == Segment::Ram(
                Ram { pow: ram.pow, timer: Timer { start_ms: now_ms, duration_ms: ram.timer.duration_ms } },
            ) && *final(pid) == *old(pid)),
            (*old(self) matches Segment::Outputs(c) ==> *final(self) == *old(self) && final(effects)@
                == old(effects)@.push(Effect::Triports { mask: c.mask, change: c.change })
                && *final(pid) == *old(pid)),
            (*old(self) matches Segment::Repeat(r) ==> *final(self) == Segment::Repeat(
                RepeatSegment {
                    template: r.template,
                    count: r.count,
                    max_count: r.max_count,
                    active: Path {
                        segments: SegQueue::Cons(r.template, Box::new(SegQueue::Nil)),
                        current: None,
                    },
                },
            ) && *final(pid) == *old(pid)),
            (*old(self) matches Segment::Timed(t) ==> (*final(self) matches Segment::Timed(ft)
                && ft.timer == (Timer { start_ms: now_ms, duration_ms: t.timer.duration_ms }))),
            (*old(self) matches Segment::Timed(t) ==> (*t.seg matches Segment::Ram(ram)
                ==> *final(self) == Segment::Timed(
                TimedSegment {
                    seg: Box::new(
                        Segment::Ram(
                            Ram {
                                pow: ram.pow,
                                timer: Timer {
                                    start_ms: now_ms,
                                    duration_ms: ram.timer.duration_ms,
                                },
                            },
                        ),
                    ),
                    timer: Timer { start_ms: now_ms, duration_ms: t.timer.duration_ms },
                },
            ))),
            (match *old(self) {
                Segment::Move(_) | Segment::Pause(_) | Segment::Vel(_) | Segment::Power(_)
                    | Segment::Limited(_) | Segment::Aux(_) | Segment::Sub(_) => *final(self)
                    == *old(self) && *final(pid) == *old(pid) && final(effects)@ == old(effects)@,
                _ => true,
            }),
        decreases *old(self),
    {
        match self {
            Segment::Turn(t) => {
                let resolved = crate::angle::optimise_target_heading(
                    odom.heading_mdeg,
                    t.target_heading,
                );
                t.target_heading = resolved;
                pid.set_target(resolved);
                pid.reset();
            },
            Segment::RelativeTurn(rt) => {
                rt.offset = -odom.heading_mdeg;
                pid.set_target(rt.target);
                pid.reset();
            },
            Segment::Ram(ram) => {
                ram.timer.start(now_ms);
            },
            Segment::Outputs(c) => {
                effects.push(Effect::Triports { mask: c.mask, change: c.change });
            },
            Segment::Repeat(r) => {
                let fresh = r.template.duplicate();
                let fresh_queue = SegQueue::Cons(Box::new(fresh), Box::new(SegQueue::Nil));
                proof {
                    assert(queue_wf(SegQueue::Nil));
                    assert(queue_wf(fresh_queue));
                }
                let armed = Path { segments: fresh_queue, current: None };
                proof {
                    assert(path_wf(armed));
                }
                r.active = armed;
            },
            Segment::Timed(t) => {
                t.timer.start(now_ms);
                t.seg.start(odom, pid, now_ms, effects);
            },
            _ => {},
        }
    }
}

/// One step of a route description, in millimetres and millidegrees.
#[derive(Debug, Clone, Copy, PartialEq, Eq, Structural)]
pub enum Action {
    /// Declare where the route begins; emits nothing.
    StartAt { pos: Vec2, heading: i64 },
    /// Drive a relative distance along the current heading.
    MoveRel { rel: i64 },
    /// Drive a relative distance, pinned to the absolute point it
    /// should land on.
    MoveRelAbs { rel: i64 },
    /// Drive to an absolute point.
    MoveTo { pos: Vec2 },
    /// Turn by a relative angle.
    TurnRel { angle: i64 },
    /// Turn by a relative angle, pinned to the absolute bearing it
    /// should land on.
    TurnRelAbs { angle: i64 },
    /// Turn to an absolute bearing.
    TurnTo { heading: i64 },
}

/// Largest heading a route description may accumulate.
pub const MAX_ACTION_HEADING_MDEG: i64 = 360_000_000;

/// The route state after one action: the tracked pose, and the
/// minimal segment the action emits, if any.
pub open spec fn action_step(pos: Vec2, heading: int, action: Action) -> (Vec2, int, Option<
    MinSegment,
>) {
    match action {
        Action::StartAt { pos: npos, heading: nheading } => (
            clamp_coord(npos),
            clamp(nheading as int, -MAX_ACTION_HEADING_MDEG as int, MAX_ACTION_HEADING_MDEG as int),
            None,
        ),
        Action::MoveRel { rel } => (
            action_advance(pos, heading, rel as int),
            heading,
            Some(MinSegment::MoveRel(clamp(rel as int, -MAX_COORD_MM as int, MAX_COORD_MM as int) as i64)),
        ),
        Action::MoveRelAbs { rel } => {
            let npos = action_advance(pos, heading, rel as int);
            (npos, heading, Some(MinSegment::MoveTo(npos)))
        },
        Action::MoveTo { pos: npos } => (
            clamp_coord(npos),
            heading,
            Some(MinSegment::MoveTo(clamp_coord(npos))),
        ),
        Action::TurnRel { angle } => {
            let nheading = clamp(
                heading + angle,
                -MAX_ACTION_HEADING_MDEG as int,
                MAX_ACTION_HEADING_MDEG as int,
            );
            (pos, nheading, Some(MinSegment::TurnRel(clamp(angle as int, -MAX_ACTION_HEADING_MDEG as int, MAX_ACTION_HEADING_MDEG as int) as i64)))
        },
        Action::TurnRelAbs { angle } => {
            let nheading = clamp(
                heading + angle,
                -MAX_ACTION_HEADING_MDEG as int,
                MAX_ACTION_HEADING_MDEG as int,
            );
            (pos, nheading, Some(MinSegment::TurnTo(nheading as i64)))
        },
        Action::TurnTo { heading: nheading } => {
            let h = clamp(
                nheading as int,
                -MAX_ACTION_HEADING_MDEG as int,
                MAX_ACTION_HEADING_MDEG as int,
            );
            (pos, h, Some(MinSegment::TurnTo(h as i64)))
        },
    }
}

/// A position payload clamped into the geometry range.
pub open spec fn clamp_coord(v: Vec2) -> Vec2 {
    Vec2 {
        x: clamp(v.x as int, -MAX_COORD_MM as int, MAX_COORD_MM as int) as i64,
        y: clamp(v.y as int, -MAX_COORD_MM as int, MAX_COORD_MM as int) as i64,
    }
}

/// The tracked pose moved a relative distance along the heading, each
/// coordinate clamped into the geometry range.
pub open spec fn action_advance(pos: Vec2, heading: int, rel: int) -> Vec2 {
    Vec2 {
        x: clamp(
            pos.x + tdiv(rel * crate::angle::cos_mdeg_spec(heading), 1_000_000),
            -MAX_COORD_MM as int,
            MAX_COORD_MM as int,
        ) as i64,
        y: clamp(
            pos.y + tdiv(rel * crate::angle::sin_mdeg_spec(heading), 1_000_000),
            -MAX_COORD_MM as int,
            MAX_COORD_MM as int,
        ) as i64,
    }
}

/// The minimal segments a whole route description emits.
pub open spec fn actions_to_min(actions: Seq<Action>, pos: Vec2, heading: int) -> Seq<MinSegment>
    decreases actions.len(),
{
    if actions.len() == 0 {
        Seq::empty()
    } else {
        let (npos, nheading, seg) = action_step(pos, heading, actions[0]);
        let rest = actions_to_min(actions.subrange(1, actions.len() as int), npos, nheading);
        match seg {
            Some(m) => seq![m] + rest,
            None => rest,
        }
    }
}

/// Clamp a position payload into the geometry range.
fn clamp_coord_exec(v: Vec2) -> (r: Vec2)
    ensures
        r == clamp_coord(v),
        coord_in_range(r),
{
    Vec2 {
        x: crate::num::clamp_i64(v.x, -MAX_COORD_MM, MAX_COORD_MM),
        y: crate::num::clamp_i64(v.y, -MAX_COORD_MM, MAX_COORD_MM),
    }
}

/// Clamp a route heading into the range the engine accepts.
fn clamp_heading(v: i64) -> (r: i64)
    ensures
        r == clamp(v as int, -MAX_ACTION_HEADING_MDEG as int, MAX_ACTION_HEADING_MDEG as int),
{
    crate::num::clamp_i64(v, -MAX_ACTION_HEADING_MDEG, MAX_ACTION_HEADING_MDEG)
}

/// Add a turn to a route heading, clamped into range.
fn clamp_heading_sum(h: i64, a: i64) -> (r: i64)
    ensures
        r == clamp(h + a, -MAX_ACTION_HEADING_MDEG as int, MAX_ACTION_HEADING_MDEG as int),
{
    let sum: i128 = h as i128 + a as i128;
    if sum < -(MAX_ACTION_HEADING_MDEG as i128) {
        -MAX_ACTION_HEADING_MDEG
    } else if sum > MAX_ACTION_HEADING_MDEG as i128 {
        MAX_ACTION_HEADING_MDEG
    } else {
        sum as i64
    }
}

/// Move a tracked route position a relative distance along a heading.
fn advance_exec(pos: Vec2, heading: i64, rel: i64) -> (r: Vec2)
    requires
        coord_in_range(pos),
        -MAX_ACTION_HEADING_MDEG <= heading <= MAX_ACTION_HEADING_MDEG,
    ensures
        r == action_advance(pos, heading as int, rel as int),
        coord_in_range(r),
{
    let cos_h = crate::angle::cos_mdeg(heading);
    let sin_h = crate::angle::sin_mdeg(heading);
    proof {
        crate::num::lemma_mul_bound(
            rel as int,
            cos_h as int,
            0x8000_0000_0000_0000int,
            1_000_000,
        );
        crate::num::lemma_mul_bound(
            rel as int,
            sin_h as int,
            0x8000_0000_0000_0000int,
            1_000_000,
        );
        crate::num::lemma_tdiv_bound(
            rel as int * cos_h as int,
            1_000_000,
            0x8000_0000_0000_0000int * 1_000_000,
        );
        crate::num::lemma_tdiv_bound(
            rel as int * sin_h as int,
            1_000_000,
            0x8000_0000_0000_0000int * 1_000_000,
        );
    }
    let px: i128 = (rel as i128) * (cos_h as i128);
    let py: i128 = (rel as i128) * (sin_h as i128);
    let sx: i128 = if px >= 0 {
        px / 1_000_000
    } else {
        -((-px) / 1_000_000)
    };
    let sy: i128 = if py >= 0 {
        py / 1_000_000
    } else {
        -((-py) / 1_000_000)
    };
    let xi: i128 = pos.x as i128 + sx;
    let yi: i128 = pos.y as i128 + sy;
    let x: i64 = if xi < -(MAX_COORD_MM as i128) {
        -MAX_COORD_MM
    } else if xi > MAX_COORD_MM as i128 {
        MAX_COORD_MM
    } else {
        xi as i64
    };
    let y: i64 = if yi < -(MAX_COORD_MM as i128) {
        -MAX_COORD_MM
    } else if yi > MAX_COORD_MM as i128 {
        MAX_COORD_MM
    } else {
        yi as i64
    };
    Vec2 { x, y }
}

/// Whether the path's active segment stays active through a tick at
/// this snapshot and time: it is one whose completion check fails, so
/// the tick only polls it for a command.
pub open spec fn segment_holds(p: Path, odom: OdomSnapshot, now_ms: u64) -> bool {
    match p.current {
        Some(s) => match *s {
            Segment::Vel(_) => true,
            Segment::Pause(_) => true,
            Segment::Ram(r) => !(now_ms > r.timer.start_ms + r.timer.duration_ms),
            Segment::Move(m) => !move_heading_drifted(m, odom) && !move_off_line(m, odom)
                && !move_arrived(m, odom),
            Segment::Turn(t) => !turn_done(t.target_heading as int, odom),
            _ => false,
        },
        None => false,
    }
}

/// Bound on the drive commands the engine hands out, far above full
/// power: the caller clamps to the actuator range, the bound only sizes
/// the arithmetic.
pub const MAX_FOLLOW_OUT: i64 = 5_000_000_000_000_000;

/// Whether a turn's completion condition holds: heading within the
/// position tolerance of the target and angular velocity settled.
pub open spec fn turn_done(target: int, o: OdomSnapshot) -> bool {
    abs(o.heading_mdeg - target) < TURN_DONE_TOLERANCE_MDEG && abs(o.angular_vel_mdeg_s as int)
        < TURN_DONE_ANG_VEL_MDEG_S
}

/// The bearing of a move segment, resolved nearest the current heading.
pub open spec fn move_ideal_heading(m: MoveRel, o: OdomSnapshot) -> int {
    crate::angle::optimise_heading_spec(
        o.heading_mdeg as int,
        atan2_mdeg_spec(m.end.y - m.start.y, m.end.x - m.start.x),
    )
}

/// Whether the heading has drifted too far off the segment bearing for
/// the move to continue.
pub open spec fn move_heading_drifted(m: MoveRel, o: OdomSnapshot) -> bool {
    abs(o.heading_mdeg - move_ideal_heading(m, o)) > MOVE_HEADING_TOLERANCE_MDEG
}

/// Whether the robot is too far off the intended line for the move to
/// continue.
pub open spec fn move_off_line(m: MoveRel, o: OdomSnapshot) -> bool {
    perp_distance_spec(m.start, m.end, Vec2 { x: o.x_mm, y: o.y_mm }) > MOVE_LINE_TOLERANCE_MM
}

/// Whether the move counts as arrived: nearly stopped close to the
/// endpoint, or evidently past it.
pub open spec fn move_arrived(m: MoveRel, o: OdomSnapshot) -> bool {
    let pos = Vec2 { x: o.x_mm, y: o.y_mm };
    let end_dist = dist_mm(m.end, pos);
    let start_dist = dist_mm(m.start, pos);
    let base = dist_mm(m.start, m.end);
    (tdiv(o.left_vel_mm_s + o.right_vel_mm_s, 2) < MOVE_DONE_VEL_MM_S && end_dist
        < MOVE_DONE_DIST_MM) || (end_dist < start_dist && start_dist > base)
}

/// The effects cutting a segment short emits: a zero override for
/// every motor override running anywhere in the tree, in the order the
/// cut walks it.
pub open spec fn seg_zero_effects(s: Segment) -> Seq<Effect>
    decreases s,
{
    match s {
        Segment::Power(p) => seq![
            Effect::Motors { ports: p.ports, reversed: p.reversed, power: 0 },
        ],
        Segment::Timed(t) => seg_zero_effects(*t.seg),
        Segment::Repeat(r) => path_zero_effects(r.active),
        Segment::Limited(l) => path_zero_effects(l.main),
        Segment::Aux(w) => path_zero_effects(w.main) + path_zero_effects(w.secondary),
        Segment::Sub(p) => path_zero_effects(p),
        _ => Seq::empty(),
    }
}

/// The effects cutting a path short emits: those of its active
/// segment; queued segments have not started anything.
pub open spec fn path_zero_effects(p: Path) -> Seq<Effect>
    decreases p,
{
    match p.current {
        Some(s) => seg_zero_effects(*s),
        None => Seq::empty(),
    }
}

impl Segment {
    /// Zero whatever this segment may have left running: motor
    /// overrides are cut, and wrapped segments are cut recursively.
    pub fn abrupt_end(&mut self, effects: &mut Vec<Effect>)
        requires
            seg_wf(*old(self)),
        ensures
            *final(self) == *old(self),
            old(effects)@.is_prefix_of(final(effects)@),
            final(effects)@ == old(effects)@ + seg_zero_effects(*old(self)),
        decreases *old(self),
    {
        match self {
            Segment::Power(p) => {
                effects.push(Effect::Motors { ports: p.ports, reversed: p.reversed, power: 0 });
                proof {
                    assert(effects@ =~= old(effects)@ + seg_zero_effects(*old(self)));
                }
            },
            Segment::Timed(t) => {
                t.seg.abrupt_end(effects);
            },
            Segment::Repeat(r) => {
                r.active.abrupt_end(effects);
            },
            Segment::Limited(l) => {
                l.main.abrupt_end(effects);
            },
            Segment::Aux(w) => {
                w.main.abrupt_end(effects);
                w.secondary.abrupt_end(effects);
                proof {
                    assert(effects@ =~= old(effects)@ + seg_zero_effects(*old(self)));
                }
            },
            Segment::Sub(p) => {
                p.abrupt_end(effects);
            },
            _ => {
                proof {
                    assert(effects@ =~= old(effects)@ + seg_zero_effects(*old(self)));
                }
            },
        }
    }

    /// The command for this tick while the segment is active. A turn
    /// polls the shared angle controller and spins in place; a move
    /// follows the velocity profile straight ahead; motor overrides are
    /// re-emitted every tick. `fuel` bounds how deep composite segments
    /// may recurse; it is never exhausted in practice.
    pub fn follow(
        &mut self,
        odom: &OdomSnapshot,
        pid: &mut Pid,
        now_ms: u64,
        dt_ms: u64,
        effects: &mut Vec<Effect>,
        fuel: u64,
    ) -> (cmd: (i64, i64))
        requires
            seg_wf(*old(self)),
            !(*old(self) matches Segment::Min(_)),
            odom.wf(),
            old(pid).wf(),
        ensures
            seg_wf(*final(self)),
            !(*final(self) matches Segment::Min(_)),
            final(pid).wf(),
            old(effects)@.is_prefix_of(final(effects)@),
            -MAX_FOLLOW_OUT <= cmd.0 <= MAX_FOLLOW_OUT,
            -MAX_FOLLOW_OUT <= cmd.1 <= MAX_FOLLOW_OUT,
            (*old(self) matches Segment::Turn(_) ==> {
                let e = old(pid).target - odom.heading_mdeg;
                &&& *final(self) == *old(self)
                &&& final(pid).ki_integral == crate::pid::pid_integral_next(
                    old(pid).ki as int,
                    old(pid).ki_integral as int,
                    old(pid).last_error as int,
                    e as int,
                    dt_ms as int,
                )
                &&& final(pid).last_error == e
                &&& final(pid).target == old(pid).target
                &&& cmd.1 == crate::pid::pid_output_spec(
                    old(pid).kp as int,
                    old(pid).kd as int,
                    e as int,
                    old(pid).last_error as int,
                    final(pid).ki_integral as int,
                    dt_ms as int,
                )
                &&& cmd.0 == -cmd.1
                &&& final(effects)@ == old(effects)@
            }),
            (*old(self) matches Segment::RelativeTurn(rt) ==> {
                let e = old(pid).target - (odom.heading_mdeg + rt.offset);
                &&& *final(self) == *old(self)
                &&& final(pid).last_error == e
                &&& cmd.1 == crate::pid::pid_output_spec(
                    old(pid).kp as int,
                    old(pid).kd as int,
                    e as int,
                    old(pid).last_error as int,
                    final(pid).ki_integral as int,
                    dt_ms as int,
                )
                &&& cmd.0 == -cmd.1
                &&& final(effects)@ == old(effects)@
            }),
            (*old(self) matches Segment::Move(m) ==> *final(self) == *old(self) && *final(pid)
                == *old(pid) && final(effects)@ == old(effects)@ && cmd.0 == cmd.1 && cmd.1
                == profile_speed(m.start, m.end, m.dist as int, Vec2 { x: odom.x_mm, y: odom.y_mm })),
            (*old(self) matches Segment::Ram(r) ==> *final(self) == *old(self) && *final(pid)
                == *old(pid) && final(effects)@ == old(effects)@ && cmd == (r.pow, r.pow)),
            (*old(self) matches Segment::Pause(_) ==> *final(self) == *old(self) && *final(pid)
                == *old(pid) && final(effects)@ == old(effects)@ && cmd == (0i64, 0i64)),
            (*old(self) matches Segment::Vel(v) ==> *final(self) == *old(self) && *final(pid)
                == *old(pid) && final(effects)@ == old(effects)@ && cmd == v.vel),
            (*old(self) matches Segment::Power(p) ==> *final(self) == *old(self) && cmd == (
                0i64,
                0i64,
            ) && final(effects)@ == old(effects)@.push(
                Effect::Motors { ports: p.ports, reversed: p.reversed, power: p.pow },
            )),
            (*old(self) matches Segment::Outputs(_) ==> *final(self) == *old(self) && cmd == (
                0i64,
                0i64,
            )),
            (*old(self) matches Segment::Timed(t) ==> (*final(self) matches Segment::Timed(ft)
                && ft.timer == t.timer)),
            (*old(self) matches Segment::Timed(t) ==> (fuel >= 1 ==> (match *t.seg {
                Segment::Vel(v) => *final(self) == *old(self) && cmd == v.vel,
                _ => true,
            }))),
            (*old(self) matches Segment::Sub(p) ==> (fuel >= 2 && segment_holds(p, *odom, now_ms)
                ==> (match p.current {
                Some(inner) => match *inner {
                    Segment::Vel(v) => cmd == v.vel,
                    _ => true,
                },
                None => true,
            }))),
            (*old(self) matches Segment::Limited(l) ==> (fuel >= 2 && segment_holds(
                l.main,
                *odom,
                now_ms,
            ) ==> (match l.main.current {
                Some(inner) => match *inner {
                    Segment::Vel(v) => cmd == (
                        tdiv(l.limit * v.vel.0, 1000) as i64,
                        tdiv(l.limit * v.vel.1, 1000) as i64,
                    ),
                    _ => true,
                },
                None => true,
            }))),
            (*old(self) matches Segment::Aux(w) ==> (fuel >= 2 && segment_holds(
                w.main,
                *odom,
                now_ms,
            ) ==> (match w.main.current {
                Some(inner) => match *inner {
                    Segment::Vel(v) => cmd == v.vel,
                    _ => true,
                },
                None => true,
            }))),
            (*old(self) matches Segment::Repeat(rp) ==> (fuel >= 2 && segment_holds(
                rp.active,
                *odom,
                now_ms,
            ) ==> (match rp.active.current {
                Some(inner) => match *inner {
                    Segment::Ram(ram) => cmd == (ram.pow, ram.pow),
                    _ => true,
                },
                None => true,
            }))),
        decreases fuel,
    {
        match self {
            Segment::Turn(_) => {
                let out = pid.poll(odom.heading_mdeg, dt_ms);
                proof {
                    lemma_pid_output_bound(
                        pid.kp as int,
                        pid.kd as int,
                        pid.target - odom.heading_mdeg,
                        old(pid).last_error as int,
                        pid.ki_integral as int,
                        dt_ms as int,
                    );
                }
                (-out, out)
            },
            Segment::RelativeTurn(rt) => {
                let out = pid.poll(odom.heading_mdeg + rt.offset, dt_ms);
                proof {
                    lemma_pid_output_bound(
                        pid.kp as int,
                        pid.kd as int,
                        pid.target - (odom.heading_mdeg + rt.offset),
                        old(pid).last_error as int,
                        pid.ki_integral as int,
                        dt_ms as int,
                    );
                }
                (-out, out)
            },
            Segment::Move(m) => {
                let pow = crate::profile::velocity_profile(m.start, m.end, m.dist, odom.pos());
                (pow, pow)
            },
            Segment::Ram(r) => (r.pow, r.pow),
            Segment::Pause(_) => (0, 0),
            Segment::Vel(v) => v.vel,
            Segment::Power(p) => {
                effects.push(Effect::Motors { ports: p.ports, reversed: p.reversed, power: p.pow });
                (0, 0)
            },
            Segment::Outputs(_) => (0, 0),
            Segment::Timed(t) => {
                if fuel == 0 {
                    (0, 0)
                } else {
                    t.seg.follow(odom, pid, now_ms, dt_ms, effects, fuel - 1)
                }
            },
            Segment::Repeat(r) => {
                if fuel == 0 {
                    (0, 0)
                } else {
                    r.active.follow(odom, pid, now_ms, dt_ms, effects, fuel - 1)
                }
            },
            Segment::Limited(l) => {
                if fuel == 0 {
                    (0, 0)
                } else {
                    let cmd = l.main.follow(odom, pid, now_ms, dt_ms, effects, fuel - 1);
                    proof {
                        crate::num::lemma_mul_bound(
                            l.limit as int,
                            cmd.0 as int,
                            1000,
                            MAX_FOLLOW_OUT as int,
                        );
                        crate::num::lemma_mul_bound(
                            l.limit as int,
                            cmd.1 as int,
                            1000,
                            MAX_FOLLOW_OUT as int,
                        );
                        crate::num::lemma_tdiv_bound(
                            l.limit as int * cmd.0 as int,
                            1000,
                            1000 * MAX_FOLLOW_OUT as int,
                        );
                        crate::num::lemma_tdiv_bound(
                            l.limit as int * cmd.1 as int,
                            1000,
                            1000 * MAX_FOLLOW_OUT as int,
                        );
                    }
                    (
                        crate::num::div_trunc(l.limit * cmd.0, 1000),
                        crate::num::div_trunc(l.limit * cmd.1, 1000),
                    )
                }
            },
            Segment::Aux(w) => {
                if fuel == 0 {
                    (0, 0)
                } else {
                    let _ = w.secondary.follow(odom, pid, now_ms, dt_ms, effects, fuel - 1);
                    w.main.follow(odom, pid, now_ms, dt_ms, effects, fuel - 1)
                }
            },
            Segment::Sub(p) => {
                if fuel == 0 {
                    (0, 0)
                } else {
                    p.follow(odom, pid, now_ms, dt_ms, effects, fuel - 1)
                }
            },
            Segment::Min(_) => (0, 0),
        }
    }

    /// The completion check, run every tick. `None` keeps the segment
    /// active; `Some(v)` ends it and splices `v` (possibly empty) in
    /// front of the rest of the path. A drifted or off-line move ends
    /// with a corrective absolute move rather than a failure.
    pub fn end_follow(&mut self, odom: &OdomSnapshot, now_ms: u64, effects: &mut Vec<Effect>, fuel: u64)
        -> (r: Option<Vec<Segment>>)
        requires
            seg_wf(*old(self)),
            !(*old(self) matches Segment::Min(_)),
            odom.wf(),
        ensures
            seg_wf(*final(self)),
            !(*final(self) matches Segment::Min(_)),
            old(effects)@.is_prefix_of(final(effects)@),
            (r matches Some(v) ==> forall|i: int| 0 <= i < v@.len() ==> seg_wf(#[trigger] v@[i])),
            (*old(self) matches Segment::Turn(t) ==> *final(self) == *old(self)
                && final(effects)@ == old(effects)@ && (if turn_done(
                t.target_heading as int,
                *odom,
            ) {
                r matches Some(v) && v@ =~= Seq::<Segment>::empty()
            } else {
                r is None
            })),
            (*old(self) matches Segment::RelativeTurn(rt) ==> *final(self) == *old(self)
                && final(effects)@ == old(effects)@ && (
            if turn_done(rt.target - rt.offset, *odom) {
                r matches Some(v) && v@ =~= Seq::<Segment>::empty()
            } else {
                r is None
            })),
            (*old(self) matches Segment::Move(m) ==> *final(self) == *old(self)
                && final(effects)@ == old(effects)@ && (
            if move_heading_drifted(m, *odom) || move_off_line(m, *odom) {
                r matches Some(v) && v@ =~= seq![Segment::Min(MinSegment::MoveTo(m.end))]
            } else if move_arrived(m, *odom) {
                r matches Some(v) && v@ =~= Seq::<Segment>::empty()
            } else {
                r is None
            })),
            (*old(self) matches Segment::Ram(ram) ==> *final(self) == *old(self)
                && final(effects)@ == old(effects)@ && (if now_ms
                > ram.timer.start_ms + ram.timer.duration_ms {
                r matches Some(v) && v@ =~= Seq::<Segment>::empty()
            } else {
                r is None
            })),
            (*old(self) matches Segment::Outputs(_) ==> *final(self) == *old(self) && (
            r matches Some(v) && v@ =~= Seq::<Segment>::empty())),
            (*old(self) matches Segment::Pause(_) ==> *final(self) == *old(self)
                && final(effects)@ == old(effects)@ && r is None),
            (*old(self) matches Segment::Vel(_) ==> *final(self) == *old(self) && final(effects)@
                == old(effects)@ && r is None),
            (*old(self) matches Segment::Power(_) ==> *final(self) == *old(self) && final(effects)@
                == old(effects)@ && r is None),
            (*old(self) matches Segment::Timed(t) ==> (now_ms > t.timer.start_ms
                + t.timer.duration_ms ==> *final(self) == *old(self) && final(effects)@
                == old(effects)@ + seg_zero_effects(*t.seg) && (r matches Some(v) && v@
                =~= Seq::<Segment>::empty()))),
            (*old(self) matches Segment::Timed(t) ==> (!(now_ms > t.timer.start_ms
                + t.timer.duration_ms) && (*t.seg matches Segment::Pause(_)) ==> *final(self)
                == *old(self) && r is None)),
            (*old(self) matches Segment::Sub(p) ==> *final(self) == *old(self) && final(effects)@
                == old(effects)@ && (if p.current is None && (p.segments matches SegQueue::Nil) {
                r matches Some(v) && v@ =~= Seq::<Segment>::empty()
            } else {
                r is None
            })),
            (*old(self) matches Segment::Limited(l) ==> *final(self) == *old(self)
                && final(effects)@ == old(effects)@ && (if l.main.current is None && (
            l.main.segments matches SegQueue::Nil) {
                r matches Some(v) && v@ =~= Seq::<Segment>::empty()
            } else {
                r is None
            })),
            (*old(self) matches Segment::Aux(w) ==> {
                let cut = !w.secondary_ended && w.secondary.current is None && (
                w.secondary.segments matches SegQueue::Nil);
                &&& *final(self) == Segment::Aux(
                    WhileSegment {
                        main: w.main,
                        secondary: w.secondary,
                        secondary_ended: w.secondary_ended || cut,
                    },
                )
                &&& final(effects)@ == old(effects)@ + (if cut {
                    path_zero_effects(w.secondary)
                } else {
                    Seq::<Effect>::empty()
                })
                &&& (if w.main.current is None && (w.main.segments matches SegQueue::Nil) {
                    r matches Some(v) && v@ =~= Seq::<Segment>::empty()
                } else {
                    r is None
                })
            }),
            (*old(self) matches Segment::Repeat(rp) ==> final(effects)@ == old(effects)@ && ({
                let done = rp.active.current is None && (rp.active.segments matches SegQueue::Nil);
                if !done {
                    *final(self) == *old(self) && r is None
                } else if rp.count != rp.max_count {
                    *final(self) == Segment::Repeat(
                        RepeatSegment {
                            template: rp.template,
                            count: (rp.count + 1) as u64,
                            max_count: rp.max_count,
                            active: Path {
                                segments: SegQueue::Cons(rp.template, Box::new(SegQueue::Nil)),
                                current: None,
                            },
                        },
                    ) && r is None
                } else {
                    *final(self) == *old(self) && (r matches Some(v) && v@ =~= Seq::<
                        Segment,
                    >::empty())
                }
            })),
        decreases fuel,
    {
        match self {
            Segment::Turn(t) => {
                let herr = crate::num::abs_i64(odom.heading_mdeg - t.target_heading);
                let averr = crate::num::abs_i64(odom.angular_vel_mdeg_s);
                if herr < TURN_DONE_TOLERANCE_MDEG && averr < TURN_DONE_ANG_VEL_MDEG_S {
                    Some(Vec::new())
                } else {
                    None
                }
            },
            Segment::RelativeTurn(rt) => {
                let herr = crate::num::abs_i64((odom.heading_mdeg + rt.offset) - rt.target);
                let averr = crate::num::abs_i64(odom.angular_vel_mdeg_s);
                proof {
                    assert(odom.heading_mdeg + rt.offset - rt.target == odom.heading_mdeg - (
                    rt.target - rt.offset));
                }
                if herr < TURN_DONE_TOLERANCE_MDEG && averr < TURN_DONE_ANG_VEL_MDEG_S {
                    Some(Vec::new())
                } else {
                    None
                }
            },
            Segment::Move(m) => {
                let pos = odom.pos();
                // Heading drifted off the segment bearing: re-route to
                // the endpoint instead of ploughing on sideways.
                let bearing = crate::angle::atan2_mdeg(m.end.y - m.start.y, m.end.x - m.start.x);
                let ideal = crate::angle::optimise_target_heading(odom.heading_mdeg, bearing);
                if crate::num::abs_i64(odom.heading_mdeg - ideal) > MOVE_HEADING_TOLERANCE_MDEG {
                    let mut v: Vec<Segment> = Vec::new();
                    v.push(Segment::Min(MinSegment::MoveTo(m.end)));
                    return Some(v);
                }
                // Too far from the intended line: same corrective
                // re-route, measured by Heron's formula.
                let near_dist = crate::vec::perpendicular_distance(m.start, m.end, pos);
                if near_dist > MOVE_LINE_TOLERANCE_MM {
                    let mut v: Vec<Segment> = Vec::new();
                    v.push(Segment::Min(MinSegment::MoveTo(m.end)));
                    return Some(v);
                }
                // Arrived: nearly stopped next to the endpoint, or past
                // it (closer to the end than the start from beyond the
                // segment length).
                let end_dist = crate::vec::distance_mm(m.end, pos);
                let start_dist = crate::vec::distance_mm(m.start, pos);
                let base = crate::vec::distance_mm(m.start, m.end);
                let avg_vel = crate::num::div_trunc(
                    odom.left_vel_mm_s + odom.right_vel_mm_s,
                    2,
                );
                if avg_vel < MOVE_DONE_VEL_MM_S && end_dist < MOVE_DONE_DIST_MM || (end_dist
                    < start_dist && start_dist > base) {
                    return Some(Vec::new());
                }
                None
            },
            Segment::Ram(ram) => {
                if ram.timer.done(now_ms) {
                    Some(Vec::new())
                } else {
                    None
                }
            },
            Segment::Outputs(_) => Some(Vec::new()),
            Segment::Timed(t) => {
                if t.timer.done(now_ms) {
                    t.seg.abrupt_end(effects);
                    Some(Vec::new())
                } else if fuel == 0 {
                    None
                } else {
                    t.seg.end_follow(odom, now_ms, effects, fuel - 1)
                }
            },
            Segment::Repeat(r) => {
                if r.active.ended() {
                    if r.count != r.max_count {
                        r.count = r.count + 1;
                        let fresh = r.template.duplicate();
                        let fresh_queue = SegQueue::Cons(Box::new(fresh), Box::new(SegQueue::Nil));
                        proof {
                            assert(queue_wf(SegQueue::Nil));
                            assert(queue_wf(fresh_queue));
                        }
                        let armed = Path { segments: fresh_queue, current: None };
                        proof {
                            assert(path_wf(armed));
                        }
                        r.active = armed;
                        None
                    } else {
                        Some(Vec::new())
                    }
                } else {
                    None
                }
            },
            Segment::Limited(l) => {
                if l.main.ended() {
                    Some(Vec::new())
                } else {
                    None
                }
            },
            Segment::Aux(w) => {
                if !w.secondary_ended && w.secondary.ended() {
                    w.secondary_ended = true;
                    w.secondary.abrupt_end(effects);
                }
                if w.main.ended() {
                    Some(Vec::new())
                } else {
                    None
                }
            },
            Segment::Sub(p) => {
                if p.ended() {
                    Some(Vec::new())
                } else {
                    None
                }
            },
            Segment::Min(_) => None,
            Segment::Pause(_) => None,
            Segment::Vel(_) => None,
            Segment::Power(_) => None,
        }
    }
}

/// The proportional and derivative terms are quotients of bounded
/// products, so the whole control output stays inside the command
/// range.
proof fn lemma_pid_output_bound(kp: int, kd: int, e: int, last_e: int, integral: int, dt_ms: int)
    requires
        -crate::pid::MAX_GAIN <= kp <= crate::pid::MAX_GAIN,
        -crate::pid::MAX_GAIN <= kd <= crate::pid::MAX_GAIN,
        -2 * MAX_MEASURE <= e <= 2 * MAX_MEASURE,
        -2 * MAX_MEASURE <= last_e <= 2 * MAX_MEASURE,
        -1000 <= integral <= 1000,
    ensures
        -MAX_FOLLOW_OUT <= crate::pid::pid_output_spec(kp, kd, e, last_e, integral, dt_ms)
            <= MAX_FOLLOW_OUT,
{
    crate::num::lemma_mul_bound(kp, e, crate::pid::MAX_GAIN as int, 2 * MAX_MEASURE as int);
    crate::num::lemma_mul_bound(kd, e - last_e, crate::pid::MAX_GAIN as int, 4 * MAX_MEASURE as int);
    crate::num::lemma_tdiv_bound(kp * e, 1000, 2 * crate::pid::MAX_GAIN as int * MAX_MEASURE as int);
    if dt_ms > 0 {
        crate::num::lemma_tdiv_bound(
            kd * (e - last_e),
            dt_ms,
            4 * crate::pid::MAX_GAIN as int * MAX_MEASURE as int,
        );
    }
}

impl Path {
    /// An exact copy of the path.
    pub fn duplicate(&self) -> (r: Path)
        ensures
            r == *self,
        decreases *self,
    {
        Path {
            segments: self.segments.duplicate(),
            current: match &self.current {
                Some(s) => Some(Box::new(s.duplicate())),
                None => None,
            },
        }
    }

    /// A path that will run the given segments in order.
    pub fn new(mut segments: Vec<Segment>) -> (r: Path)
        ensures
            queue_seq(r.segments) == segments@,
            r.current is None,
            (forall|i: int| 0 <= i < segments@.len() ==> seg_wf(#[trigger] segments@[i]))
                ==> path_wf(r),
    {
        let ghost all = segments@;
        let mut q = SegQueue::Nil;
        proof {
            assert(all =~= segments@ + queue_seq(q));
        }
        while segments.len() > 0
            invariant
                all == segments@ + queue_seq(q),
                (forall|i: int| 0 <= i < all.len() ==> seg_wf(#[trigger] all[i])) ==> queue_wf(
                    q,
                ),
            decreases segments.len(),
        {
            let ghost pre = segments@;
            let seg = segments.pop().unwrap();
            proof {
                assert(seg == all[pre.len() - 1]);
            }
            q.push_top(seg);
            proof {
                assert(all =~= segments@ + queue_seq(q));
            }
        }
        proof {
            assert(queue_seq(q) =~= all);
        }
        Path { segments: q, current: None }
    }

    /// Build a path from a route description, starting at the origin
    /// facing heading zero: each action updates the tracked pose and
    /// most emit one minimal segment.
    pub fn new_from_actions(actions: &[Action]) -> (r: Path)
        ensures
            ({
                let mins = actions_to_min(actions@, Vec2 { x: 0, y: 0 }, 0);
                &&& queue_seq(r.segments).len() == mins.len()
                &&& forall|i: int|
                    0 <= i < mins.len() ==> queue_seq(r.segments)[i] == Segment::Min(
                        #[trigger] mins[i],
                    )
                &&& r.current is None
                &&& path_wf(r)
            }),
    {
        let ghost all = actions@;
        let ghost total = actions_to_min(all, Vec2 { x: 0, y: 0 }, 0);
        let mut pos = Vec2 { x: 0, y: 0 };
        let mut heading: i64 = 0;
        let mut segs: Vec<Segment> = Vec::new();
        let ghost mins: Seq<MinSegment> = Seq::empty();
        let mut i: usize = 0;
        proof {
            assert(all.subrange(0, all.len() as int) =~= all);
            assert(mins + actions_to_min(all, pos, heading as int) =~= total);
        }
        while i < actions.len()
            invariant
                i <= all.len(),
                actions@ == all,
                coord_in_range(pos),
                -MAX_ACTION_HEADING_MDEG <= heading <= MAX_ACTION_HEADING_MDEG,
                segs@.len() == mins.len(),
                forall|j: int|
                    0 <= j < mins.len() ==> segs@[j] == Segment::Min(#[trigger] mins[j]),
                forall|j: int| 0 <= j < mins.len() ==> min_wf((#[trigger] mins[j])),
                total == mins + actions_to_min(
                    all.subrange(i as int, all.len() as int),
                    pos,
                    heading as int,
                ),
            decreases all.len() - i,
        {
            let ghost tail = all.subrange(i as int, all.len() as int);
            proof {
                assert(tail[0] == all[i as int]);
                assert(tail.subrange(1, tail.len() as int) =~= all.subrange(
                    i + 1,
                    all.len() as int,
                ));
            }
            let ghost mins_pre = mins;
            let ghost pos0 = pos;
            let ghost h0 = heading;
            let action = actions[i];
            match action {
                Action::StartAt { pos: npos, heading: nheading } => {
                    pos = clamp_coord_exec(npos);
                    heading = clamp_heading(nheading);
                },
                Action::MoveRel { rel } => {
                    pos = advance_exec(pos, heading, rel);
                    let bounded = crate::num::clamp_i64(rel, -MAX_COORD_MM, MAX_COORD_MM);
                    segs.push(Segment::Min(MinSegment::MoveRel(bounded)));
                    proof {
                        mins = mins_pre.push(MinSegment::MoveRel(bounded));
                    }
                },
                Action::MoveRelAbs { rel } => {
                    pos = advance_exec(pos, heading, rel);
                    segs.push(Segment::Min(MinSegment::MoveTo(pos)));
                    proof {
                        mins = mins_pre.push(MinSegment::MoveTo(pos));
                    }
                },
                Action::MoveTo { pos: npos } => {
                    pos = clamp_coord_exec(npos);
                    segs.push(Segment::Min(MinSegment::MoveTo(pos)));
                    proof {
                        mins = mins_pre.push(MinSegment::MoveTo(pos));
                    }
                },
                Action::TurnRel { angle } => {
                    heading = clamp_heading_sum(heading, angle);
                    let bounded = crate::num::clamp_i64(
                        angle,
                        -MAX_ACTION_HEADING_MDEG,
                        MAX_ACTION_HEADING_MDEG,
                    );
                    segs.push(Segment::Min(MinSegment::TurnRel(bounded)));
                    proof {
                        mins = mins_pre.push(MinSegment::TurnRel(bounded));
                    }
                },
                Action::TurnRelAbs { angle } => {
                    heading = clamp_heading_sum(heading, angle);
                    segs.push(Segment::Min(MinSegment::TurnTo(heading)));
                    proof {
                        mins = mins_pre.push(MinSegment::TurnTo(heading));
                    }
                },
                Action::TurnTo { heading: nheading } => {
                    heading = clamp_heading(nheading);
                    segs.push(Segment::Min(MinSegment::TurnTo(heading)));
                    proof {
                        mins = mins_pre.push(MinSegment::TurnTo(heading));
                    }
                },
            }
            proof {
                // One action of the fold, re-established against the
                // exec updates.
                let (npos, nh, emitted) = action_step(pos0, h0 as int, all[i as int]);
                assert(pos == npos);
                assert(heading as int == nh);
                let rest = actions_to_min(all.subrange(i + 1, all.len() as int), npos, nh);
                match emitted {
                    Some(m) => {
                        assert(mins =~= mins_pre.push(m));
                        assert(mins_pre + (seq![m] + rest) =~= mins + rest);
                    },
                    None => {
                        assert(mins == mins_pre);
                    },
                }
                assert(total == mins + rest);
            }
            i = i + 1;
        }
        proof {
            assert(all.subrange(all.len() as int, all.len() as int) =~= Seq::<Action>::empty());
            assert(mins =~= total);
            assert forall|j: int| 0 <= j < segs@.len() implies seg_wf(#[trigger] segs@[j]) by {
                assert(segs@[j] == Segment::Min(mins[j]));
                assert(min_wf(mins[j]));
            }
        }
        Path::new(segs)
    }

    /// Queue a segment to run after everything already queued.
    pub fn extend(&mut self, seg: Segment)
        ensures
            queue_seq(final(self).segments) == queue_seq(old(self).segments) + seq![seg],
            final(self).current == old(self).current,
            path_wf(*final(self)) == (path_wf(*old(self)) && seg_wf(seg)),
    {
        self.segments.push_bottom(seg);
    }

    /// Queue a segment to run before everything already queued (but
    /// after the active segment, if any).
    pub fn extend_front(&mut self, seg: Segment)
        ensures
            queue_seq(final(self).segments) == seq![seg] + queue_seq(old(self).segments),
            final(self).current == old(self).current,
            path_wf(*final(self)) == (path_wf(*old(self)) && seg_wf(seg)),
    {
        self.segments.push_top(seg);
    }

    /// Whether the path has nothing left to run.
    pub fn ended(&self) -> (r: bool)
        ensures
            r == (self.current is None && self.segments matches SegQueue::Nil),
    {
        matches!(self.current, None) && matches!(self.segments, SegQueue::Nil)
    }

    /// Splice segments in front of the rest of the path, in the order
    /// the engine's transform and completion steps hand them out: the
    /// last element of `segs` ends up first in the queue.
    fn splice(&mut self, mut segs: Vec<Segment>)
        requires
            queue_wf(old(self).segments),
            forall|i: int| 0 <= i < segs@.len() ==> seg_wf(#[trigger] segs@[i]),
        ensures
            queue_wf(final(self).segments),
            final(self).current == old(self).current,
            queue_seq(final(self).segments) == segs@.reverse() + queue_seq(old(self).segments),
    {
        let ghost all = segs@;
        let ghost q0 = queue_seq(old(self).segments);
        proof {
            assert(all.subrange(0, 0).reverse() =~= Seq::<Segment>::empty());
            assert(queue_seq(self.segments) =~= all.subrange(0, 0).reverse() + q0);
        }
        let mut i: usize = 0;
        while i < segs.len()
            invariant
                i <= segs.len(),
                segs@ == all,
                forall|j: int| 0 <= j < all.len() ==> seg_wf(#[trigger] all[j]),
                queue_wf(self.segments),
                self.current == old(self).current,
                queue_seq(self.segments) == all.subrange(0, i as int).reverse() + q0,
            decreases segs.len() - i,
        {
            let seg = segs[i].duplicate();
            self.segments.push_top(seg);
            proof {
                assert(all.subrange(0, i + 1).drop_last() =~= all.subrange(0, i as int));
                assert(all.subrange(0, i + 1).reverse() =~= seq![all[i as int]] + all.subrange(
                    0,
                    i as int,
                ).reverse());
                assert(queue_seq(self.segments) =~= all.subrange(0, i + 1).reverse() + q0);
            }
            i = i + 1;
        }
        proof {
            assert(all.subrange(0, all.len() as int) =~= all);
        }
    }

    /// Cut short whatever is active: every motor override running in
    /// the active segment tree is zeroed, and nothing else changes.
    pub fn abrupt_end(&mut self, effects: &mut Vec<Effect>)
        requires
            path_wf(*old(self)),
        ensures
            *final(self) == *old(self),
            old(effects)@.is_prefix_of(final(effects)@),
            final(effects)@ == old(effects)@ + path_zero_effects(*old(self)),
        decreases *old(self),
    {
        match &mut self.current {
            Some(seg) => {
                seg.abrupt_end(effects);
            },
            None => {
                proof {
                    assert(effects@ =~= old(effects)@ + path_zero_effects(*old(self)));
                }
            },
        }
    }

    /// One engine tick: make sure a segment is active (transforming and
    /// starting queued ones as needed), retire it if its completion
    /// condition holds (splicing whatever it hands back), and return
    /// the drive command of the segment that remains active. An ended
    /// path commands zero. `fuel` bounds the work of a single tick; it
    /// is never exhausted in practice.
    pub fn follow(
        &mut self,
        odom: &OdomSnapshot,
        pid: &mut Pid,
        now_ms: u64,
        dt_ms: u64,
        effects: &mut Vec<Effect>,
        fuel: u64,
    ) -> (cmd: (i64, i64))
        requires
            path_wf(*old(self)),
            odom.wf(),
            old(pid).wf(),
        ensures
            path_wf(*final(self)),
            final(pid).wf(),
            old(effects)@.is_prefix_of(final(effects)@),
            -MAX_FOLLOW_OUT <= cmd.0 <= MAX_FOLLOW_OUT,
            -MAX_FOLLOW_OUT <= cmd.1 <= MAX_FOLLOW_OUT,
            (old(self).current is None && (old(self).segments matches SegQueue::Nil) ==> cmd == (
                0i64,
                0i64,
            ) && *final(self) == *old(self) && *final(pid) == *old(pid)),
            (fuel >= 1 && segment_holds(*old(self), *odom, now_ms) ==> *final(self) == *old(self)
                && final(effects)@ == old(effects)@ && (match old(self).current {
                Some(s) => {
                    &&& (*s matches Segment::Vel(v) ==> cmd == v.vel && *final(pid) == *old(pid))
                    &&& (*s matches Segment::Pause(_) ==> cmd == (0i64, 0i64) && *final(pid)
                        == *old(pid))
                    &&& (*s matches Segment::Ram(r) ==> cmd == (r.pow, r.pow) && *final(pid)
                        == *old(pid))
                    &&& (*s matches Segment::Move(m) ==> cmd.0 == cmd.1 && cmd.1 == profile_speed(
                        m.start,
                        m.end,
                        m.dist as int,
                        Vec2 { x: odom.x_mm, y: odom.y_mm },
                    ) && *final(pid) == *old(pid))
                    &&& (*s matches Segment::Turn(_) ==> {
                        let e = old(pid).target - odom.heading_mdeg;
                        &&& final(pid).ki_integral == crate::pid::pid_integral_next(
                            old(pid).ki as int,
                            old(pid).ki_integral as int,
                            old(pid).last_error as int,
                            e as int,
                            dt_ms as int,
                        )
                        &&& final(pid).last_error == e
                        &&& final(pid).target == old(pid).target
                        &&& cmd.1 == crate::pid::pid_output_spec(
                            old(pid).kp as int,
                            old(pid).kd as int,
                            e as int,
                            old(pid).last_error as int,
                            final(pid).ki_integral as int,
                            dt_ms as int,
                        )
                        &&& cmd.0 == -cmd.1
                    })
                },
                None => true,
            })),
        decreases fuel,
    {
        let mut fuel_left = fuel;
        let ghost eff0 = effects@;
        loop
            invariant
                fuel_left <= fuel,
                path_wf(*self),
                odom.wf(),
                pid.wf(),
                eff0.is_prefix_of(effects@),
                old(effects)@ == eff0,
                (old(self).current is None && (old(self).segments matches SegQueue::Nil) ==> *self
                    == *old(self) && *pid == *old(pid) && effects@ == eff0),
                (segment_holds(*old(self), *odom, now_ms) ==> fuel_left == fuel && *self == *old(
                    self,
                ) && *pid == *old(pid) && effects@ == eff0),
            decreases fuel_left,
        {
            if fuel_left == 0 {
                return (0, 0);
            }
            fuel_left = fuel_left - 1;

            if matches!(self.current, None) {
                match self.segments.pop_top() {
                    None => {
                        return (0, 0);
                    },
                    Some(seg) => {
                        if seg.finished_transform() {
                            let mut started = seg;
                            started.start(odom, pid, now_ms, effects);
                            self.current = Some(Box::new(started));
                        } else {
                            match seg {
                                Segment::Min(m) => {
                                    let expansion = m.transform(odom);
                                    self.splice(expansion);
                                },
                                _ => {},
                            }
                        }
                    },
                }
                continue ;
            }

            let outcome = match &mut self.current {
                Some(seg) => seg.end_follow(odom, now_ms, effects, fuel_left),
                None => None,
            };
            match outcome {
                Some(spliced) => {
                    self.splice(spliced);
                    self.current = None;
                },
                None => {
                    let cmd = match &mut self.current {
                        Some(seg) => seg.follow(odom, pid, now_ms, dt_ms, effects, fuel_left),
                        None => (0, 0),
                    };
                    return cmd;
                },
            }
        }
    }
}

} // verus!
