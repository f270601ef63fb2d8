//! The path segment engine: lifecycle, completion conditions, the
//! composite segments and the end-to-end turn-then-move scenario.

use lemon::path::{
    Action, ChangeTriports, Effect, MinSegment, Nop, OdomSnapshot, Path, PowerMotors, Ram,
    RelativeTurnTo, RepeatSegment, Segment, SetVel, SpeedLimiter, TimedSegment, Timer, TurnTo,
    WhileSegment,
};
use lemon::pid::Pid;
use lemon::triports::{Triport, TriportChange};
use lemon::vec::Vec2;

fn snapshot(x_mm: i64, y_mm: i64, heading_mdeg: i64) -> OdomSnapshot {
    OdomSnapshot {
        x_mm,
        y_mm,
        heading_mdeg,
        angular_vel_mdeg_s: 0,
        left_vel_mm_s: 0,
        right_vel_mm_s: 0,
    }
}

#[test]
fn timer_counts_from_start() {
    let mut t = Timer::new(500);
    t.start(1_000);
    assert!(!t.done(1_000));
    assert!(!t.done(1_500));
    assert!(t.done(1_501));
}

#[test]
fn ended_path_commands_zero() {
    let mut path = Path::new(Vec::new());
    let mut pid = Pid::new(2_000, 0, 0);
    let mut effects: Vec<Effect> = Vec::new();
    assert!(path.ended());
    let cmd = path.follow(&snapshot(0, 0, 0), &mut pid, 0, 2, &mut effects, 100);
    assert_eq!(cmd, (0, 0));
    assert!(effects.is_empty());
}

#[test]
fn turn_segment_resolves_and_spins_in_place() {
    // An absolute turn to 270 degrees from heading zero resolves to
    // minus ninety and spins the short way round.
    let mut path = Path::new(vec![Segment::Min(MinSegment::TurnTo(270_000))]);
    let mut pid = Pid::new(2_000, 0, 0);
    let mut effects: Vec<Effect> = Vec::new();
    let cmd = path.follow(&snapshot(0, 0, 0), &mut pid, 0, 2, &mut effects, 100);
    assert_eq!(pid.target, -90_000);
    // Proportional command: kp 2 times ninety degrees of error, spun
    // in place.
    assert_eq!(cmd.1, -180_000);
    assert_eq!(cmd.0, 180_000);
}

#[test]
fn turn_completion_needs_position_and_settling() {
    let mut path = Path::new(vec![Segment::Min(MinSegment::TurnTo(90_000))]);
    let mut pid = Pid::new(2_000, 0, 0);
    let mut effects: Vec<Effect> = Vec::new();
    // Start the turn.
    let _ = path.follow(&snapshot(0, 0, 0), &mut pid, 0, 2, &mut effects, 100);
    assert!(!path.ended());
    // Within two degrees but still rotating fast: not done.
    let mut spinning = snapshot(0, 0, 89_000);
    spinning.angular_vel_mdeg_s = 5_000;
    let _ = path.follow(&spinning, &mut pid, 2, 2, &mut effects, 100);
    assert!(!path.ended());
    // Settled within tolerance: done.
    let _ = path.follow(&snapshot(0, 0, 89_500), &mut pid, 4, 2, &mut effects, 100);
    assert!(path.ended());
}

#[test]
fn turn_then_move_scenario() {
    // A turn to ninety degrees followed by a two-metre move, from the
    // origin: the turn completes only once the heading has settled at
    // ninety, the move completes only once the robot has stopped by
    // the point two metres along the positive y axis.
    let mut path = Path::new(vec![
        Segment::Min(MinSegment::TurnTo(90_000)),
        Segment::Min(MinSegment::MoveRel(2_000)),
    ]);
    let mut pid = Pid::new(2_000, 0, 0);
    let mut effects: Vec<Effect> = Vec::new();

    // Tick 1 transforms and starts the turn.
    let cmd = path.follow(&snapshot(0, 0, 0), &mut pid, 0, 2, &mut effects, 100);
    assert_eq!(pid.target, 90_000);
    assert!(cmd.1 > 0 && cmd.0 < 0);
    assert!(!path.ended());

    // Still turning at sixty degrees.
    let mut turning = snapshot(0, 0, 60_000);
    turning.angular_vel_mdeg_s = 50_000;
    let _ = path.follow(&turning, &mut pid, 2, 2, &mut effects, 100);
    assert!(!path.ended());

    // Settled at 89.5 degrees: the turn ends, the move starts from
    // here and commands the profile floor forward.
    let cmd = path.follow(&snapshot(0, 0, 89_500), &mut pid, 4, 2, &mut effects, 100);
    assert!(cmd.0 > 0 && cmd.0 == cmd.1);
    assert!(!path.ended());

    // Half way along, driving at speed: still going.
    let mut moving = snapshot(17, 1_000, 89_500);
    moving.left_vel_mm_s = 900;
    moving.right_vel_mm_s = 900;
    let _ = path.follow(&moving, &mut pid, 6, 2, &mut effects, 100);
    assert!(!path.ended());

    // Stopped eight millimetres short of the endpoint: the move ends
    // and the path with it. The end lies within five centimetres of
    // (0, 2) metres.
    let settled = snapshot(17, 1_991, 89_500);
    let _ = path.follow(&settled, &mut pid, 8, 2, &mut effects, 100);
    assert!(path.ended());
}

#[test]
fn move_reroutes_when_heading_drifts() {
    // A move along positive x followed at a heading forty-five degrees
    // off re-routes into an absolute move to its endpoint.
    let mut path = Path::new(vec![Segment::Move(lemon::path::MoveRel {
        start: Vec2 { x: 0, y: 0 },
        end: Vec2 { x: 1_000, y: 0 },
        dist: 1_000,
    })]);
    let mut pid = Pid::new(2_000, 0, 0);
    let mut effects: Vec<Effect> = Vec::new();
    let _ = path.follow(&snapshot(100, 0, 45_000), &mut pid, 0, 2, &mut effects, 100);
    // The corrective segment took over: a fresh turn towards the
    // endpoint is now active in place of the drifted move.
    assert!(!path.ended());
    // The replacement turn targets the bearing back to the endpoint.
    assert_eq!(pid.target, 0);
}

#[test]
fn move_reroutes_when_off_the_line() {
    // On heading but displaced more than a tenth of a metre sideways:
    // the perpendicular-distance check trips and re-routes.
    let mut path = Path::new(vec![Segment::Move(lemon::path::MoveRel {
        start: Vec2 { x: 0, y: 0 },
        end: Vec2 { x: 2_000, y: 0 },
        dist: 2_000,
    })]);
    let mut pid = Pid::new(2_000, 0, 0);
    let mut effects: Vec<Effect> = Vec::new();
    let _ = path.follow(&snapshot(1_000, 150, 0), &mut pid, 0, 2, &mut effects, 100);
    assert!(!path.ended());
    // The corrective turn aims from (1000, 150) back at (2000, 0),
    // a shallow negative bearing.
    assert!(pid.target < 0 && pid.target > -15_000);
}

#[test]
fn move_completes_on_overshoot() {
    let mut path = Path::new(vec![Segment::Move(lemon::path::MoveRel {
        start: Vec2 { x: 0, y: 0 },
        end: Vec2 { x: 1_000, y: 0 },
        dist: 1_000,
    })]);
    let mut pid = Pid::new(2_000, 0, 0);
    let mut effects: Vec<Effect> = Vec::new();
    // Past the end at speed: closer to the end than the start, start
    // further than the whole segment.
    let mut past = snapshot(1_200, 0, 0);
    past.left_vel_mm_s = 500;
    past.right_vel_mm_s = 500;
    let _ = path.follow(&past, &mut pid, 0, 2, &mut effects, 100);
    assert!(path.ended());
}

#[test]
fn ram_drives_until_its_deadline() {
    let mut path = Path::new(vec![Segment::Ram(Ram::new(300, 500))]);
    let mut pid = Pid::new(2_000, 0, 0);
    let mut effects: Vec<Effect> = Vec::new();
    let cmd = path.follow(&snapshot(0, 0, 0), &mut pid, 1_000, 2, &mut effects, 100);
    assert_eq!(cmd, (300, 300));
    let _ = path.follow(&snapshot(0, 0, 0), &mut pid, 1_400, 2, &mut effects, 100);
    assert!(!path.ended());
    let _ = path.follow(&snapshot(0, 0, 0), &mut pid, 1_501, 2, &mut effects, 100);
    assert!(path.ended());
}

#[test]
fn nop_and_set_vel_never_finish() {
    let mut path = Path::new(vec![Segment::Vel(SetVel::new((250, -250)))]);
    let mut pid = Pid::new(2_000, 0, 0);
    let mut effects: Vec<Effect> = Vec::new();
    let cmd = path.follow(&snapshot(0, 0, 0), &mut pid, 0, 2, &mut effects, 100);
    assert_eq!(cmd, (250, -250));
    assert!(!path.ended());
    let pause = Nop::new();
    let mut path2 = Path::new(vec![Segment::Pause(pause)]);
    let cmd2 = path2.follow(&snapshot(0, 0, 0), &mut pid, 0, 2, &mut effects, 100);
    assert_eq!(cmd2, (0, 0));
    assert!(!path2.ended());
}

#[test]
fn timed_segment_cuts_its_inner_segment_short() {
    let inner = Segment::Power(PowerMotors::new(vec![(13, false), (1, true)], 800));
    let mut path = Path::new(vec![Segment::Timed(TimedSegment::new(inner, 1_000))]);
    let mut pid = Pid::new(2_000, 0, 0);
    let mut effects: Vec<Effect> = Vec::new();
    let _ = path.follow(&snapshot(0, 0, 0), &mut pid, 0, 2, &mut effects, 100);
    // The override ran: ports 13 and 1 as mask bits 12 and 0.
    assert_eq!(
        effects,
        vec![Effect::Motors { ports: (1 << 12) | 1, reversed: 1, power: 800 }]
    );
    // Past the deadline the wrapped override is zeroed on the way out.
    effects.clear();
    let _ = path.follow(&snapshot(0, 0, 0), &mut pid, 1_001, 2, &mut effects, 100);
    assert!(path.ended());
    assert_eq!(
        effects,
        vec![Effect::Motors { ports: (1 << 12) | 1, reversed: 1, power: 0 }]
    );
}

#[test]
fn change_triports_fires_once_and_completes() {
    let ports = vec![Triport::new(1), Triport::new(2)];
    let seg = Segment::Outputs(ChangeTriports::new(ports, TriportChange::Active));
    let mut path = Path::new(vec![seg]);
    let mut pid = Pid::new(2_000, 0, 0);
    let mut effects: Vec<Effect> = Vec::new();
    let _ = path.follow(&snapshot(0, 0, 0), &mut pid, 0, 2, &mut effects, 100);
    assert!(path.ended());
    assert_eq!(
        effects,
        vec![Effect::Triports { mask: 0b110, change: TriportChange::Active }]
    );
}

#[test]
fn repeat_runs_the_template_again() {
    // A repeated one-second ram: after the first run completes the
    // template is re-armed and drives again.
    let ram = Segment::Ram(Ram::new(400, 100));
    let mut path = Path::new(vec![Segment::Repeat(RepeatSegment::new(ram, 1))]);
    let mut pid = Pid::new(2_000, 0, 0);
    let mut effects: Vec<Effect> = Vec::new();
    let cmd = path.follow(&snapshot(0, 0, 0), &mut pid, 0, 2, &mut effects, 100);
    assert_eq!(cmd, (400, 400));
    // The first run times out.
    let _ = path.follow(&snapshot(0, 0, 0), &mut pid, 150, 2, &mut effects, 100);
    assert!(!path.ended());
    // The repeat re-arms a fresh copy and drives again.
    let cmd = path.follow(&snapshot(0, 0, 0), &mut pid, 160, 2, &mut effects, 100);
    assert_eq!(cmd, (400, 400));
    assert!(!path.ended());
    // The second run times out too; now the repeat is exhausted.
    let _ = path.follow(&snapshot(0, 0, 0), &mut pid, 300, 2, &mut effects, 100);
    let _ = path.follow(&snapshot(0, 0, 0), &mut pid, 301, 2, &mut effects, 100);
    assert!(path.ended());
}

#[test]
fn speed_limiter_scales_the_command() {
    let inner = Path::new(vec![Segment::Vel(SetVel::new((1_000, 500)))]);
    let mut path = Path::new(vec![Segment::Limited(SpeedLimiter::new(inner, 450))]);
    let mut pid = Pid::new(2_000, 0, 0);
    let mut effects: Vec<Effect> = Vec::new();
    let cmd = path.follow(&snapshot(0, 0, 0), &mut pid, 0, 2, &mut effects, 100);
    assert_eq!(cmd, (450, 225));
}

#[test]
fn while_segment_drives_main_and_runs_secondary() {
    let main = Path::new(vec![Segment::Vel(SetVel::new((700, 700)))]);
    let secondary = Path::new(vec![Segment::Outputs(ChangeTriports::new(
        vec![Triport::new(0)],
        TriportChange::Toggle,
    ))]);
    let mut path = Path::new(vec![Segment::Aux(WhileSegment::new(main, secondary))]);
    let mut pid = Pid::new(2_000, 0, 0);
    let mut effects: Vec<Effect> = Vec::new();
    let cmd = path.follow(&snapshot(0, 0, 0), &mut pid, 0, 2, &mut effects, 100);
    // The main path's command wins; the secondary ran for its side
    // effect.
    assert_eq!(cmd, (700, 700));
    assert_eq!(
        effects,
        vec![Effect::Triports { mask: 1, change: TriportChange::Toggle }]
    );
}

#[test]
fn route_description_builds_minimal_segments() {
    let actions = vec![
        Action::StartAt { pos: Vec2 { x: 0, y: 0 }, heading: 0 },
        Action::TurnTo { heading: 90_000 },
        Action::MoveRel { rel: 500 },
        Action::TurnRel { angle: 45_000 },
    ];
    let path = Path::new_from_actions(actions.as_slice());
    assert!(!path.ended());
    // Following transforms the first queued segment: the absolute turn.
    let mut pid = Pid::new(2_000, 0, 0);
    let mut effects: Vec<Effect> = Vec::new();
    let mut path = path;
    let _ = path.follow(&snapshot(0, 0, 0), &mut pid, 0, 2, &mut effects, 100);
    assert_eq!(pid.target, 90_000);
}

#[test]
fn duplicate_copies_a_whole_tree() {
    let inner = Path::new(vec![
        Segment::Ram(Ram::new(100, 10)),
        Segment::Min(MinSegment::TurnTo(5_000)),
    ]);
    let seg = Segment::Timed(TimedSegment::new(Segment::Sub(inner), 99));
    let copy = seg.duplicate();
    // Both copies behave identically from here on; spot-check shape.
    match (seg, copy) {
        (Segment::Timed(a), Segment::Timed(b)) => {
            assert_eq!(a.timer, b.timer);
        },
        _ => panic!("duplicate changed the segment's shape"),
    }
}

#[test]
fn turnto_struct_keeps_its_fields() {
    let t = TurnTo { start_heading: 1, target_heading: 2 };
    assert_eq!(t.start_heading, 1);
    assert_eq!(t.target_heading, 2);
}

#[test]
fn relative_turn_measures_from_its_start() {
    // A relative turn of thirty degrees beginning at heading 200
    // degrees: the offset pins the controller to the relative frame.
    let mut path = Path::new(vec![Segment::RelativeTurn(RelativeTurnTo::new(30_000))]);
    let mut pid = Pid::new(1_000, 0, 0);
    let mut effects: Vec<Effect> = Vec::new();
    let cmd = path.follow(&snapshot(0, 0, 200_000), &mut pid, 0, 2, &mut effects, 100);
    assert_eq!(pid.target, 30_000);
    // Thirty degrees of error under unit gain, spun in place.
    assert_eq!(cmd.1, 30_000);
    assert_eq!(cmd.0, -30_000);
    assert!(!path.ended());
    // Settled thirty degrees past the start: done.
    let _ = path.follow(&snapshot(0, 0, 229_600), &mut pid, 2, 2, &mut effects, 100);
    assert!(path.ended());
}
