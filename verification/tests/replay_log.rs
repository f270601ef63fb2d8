//! The replay log: parsing, rendering, recording and playback.

use lemon::replay::{
    parse_buttons, parse_i8, parse_replay, parse_u32, render_events, Player, Recorder, ReplayError,
};
use lemon::state::InputChanges;

#[test]
fn parse_u32_accepts_digits_only() {
    assert_eq!(parse_u32(b"0"), Some(0));
    assert_eq!(parse_u32(b"12345"), Some(12345));
    assert_eq!(parse_u32(b"004"), Some(4));
    assert_eq!(parse_u32(b"4294967295"), Some(u32::MAX));
    assert_eq!(parse_u32(b"4294967296"), None);
    assert_eq!(parse_u32(b""), None);
    assert_eq!(parse_u32(b"12a"), None);
    assert_eq!(parse_u32(b"-1"), None);
}

#[test]
fn parse_buttons_requires_known_bits() {
    assert_eq!(parse_buttons(b"4095"), Some(4095));
    assert_eq!(parse_buttons(b"4096"), None);
    assert_eq!(parse_buttons(b"0"), Some(0));
    assert_eq!(parse_buttons(b"70000"), None);
}

#[test]
fn parse_i8_handles_signs_and_range() {
    assert_eq!(parse_i8(b"0"), Some(0));
    assert_eq!(parse_i8(b"127"), Some(127));
    assert_eq!(parse_i8(b"128"), None);
    assert_eq!(parse_i8(b"-128"), Some(-128));
    assert_eq!(parse_i8(b"-129"), None);
    assert_eq!(parse_i8(b"-"), None);
}

#[test]
fn parse_replay_reconstructs_held_buttons() {
    let log = b"100,1,0\n50,2,0\n25,0,1,3,-4,5,-6\n";
    let events = parse_replay(log).unwrap();
    assert_eq!(events.len(), 3);
    assert_eq!(events[0].0, 100);
    assert_eq!(events[0].1.pressed, 1);
    assert_eq!(events[0].1.held, 1);
    assert!(!events[0].1.axes_changed);
    // The second press accumulates into the held set.
    assert_eq!(events[1].1.held, 3);
    // The release clears its bit, and the seven-field line carries
    // axes.
    assert_eq!(events[2].0, 25);
    assert_eq!(events[2].1.released, 1);
    assert_eq!(events[2].1.held, 2);
    assert!(events[2].1.axes_changed);
    assert_eq!(events[2].1.axes, [3, -4, 5, -6]);
}

#[test]
fn parse_replay_rejects_bad_lines() {
    // Wrong field count on the second line.
    assert_eq!(
        parse_replay(b"1,0,0\n2,3\n"),
        Err(ReplayError::ParseError(2))
    );
    // Unknown button bit.
    assert_eq!(parse_replay(b"1,4096,0\n"), Err(ReplayError::ParseError(1)));
    // Garbage time field.
    assert_eq!(parse_replay(b"x,0,0\n"), Err(ReplayError::ParseError(1)));
    // A blank line in the middle is not an event.
    assert_eq!(parse_replay(b"1,0,0\n\n1,0,0\n"), Err(ReplayError::ParseError(2)));
}

#[test]
fn parse_replay_accepts_missing_final_newline() {
    let events = parse_replay(b"7,1,0").unwrap();
    assert_eq!(events.len(), 1);
    assert_eq!(events[0].0, 7);
    let empty = parse_replay(b"").unwrap();
    assert_eq!(empty.len(), 0);
}

#[test]
fn render_then_parse_round_trips() {
    let log: &[u8] = b"100,1,0\n50,2,0\n25,0,1,3,-4,5,-6\n";
    let events = parse_replay(log).unwrap();
    let rendered = render_events(&events);
    assert_eq!(rendered.as_slice(), log);
    assert_eq!(parse_replay(rendered.as_slice()).unwrap(), events);
}

#[test]
fn recorder_waits_then_records_changes() {
    let mut rec = Recorder::new();
    assert!(rec.toggle(1_000).is_none());
    let mut change = InputChanges::no_change();
    change.pressed = 4;
    change.held = 4;
    // Silence is not recorded.
    let quiet = InputChanges::no_change();
    assert!(rec.take_event(&quiet, 1_050).is_ok());
    // A press 100 milliseconds in is stamped 1000 tenth-milliseconds.
    assert!(rec.take_event(&change, 1_100).is_ok());
    let bytes = rec.toggle(2_000).expect("a recording should render");
    let parsed = parse_replay(bytes.as_slice()).unwrap();
    assert_eq!(parsed.len(), 1);
    assert_eq!(parsed[0].0, 1_000);
    assert_eq!(parsed[0].1.pressed, 4);
}

#[test]
fn player_delivers_events_on_time() {
    let events = parse_replay(b"1000,1,0\n500,2,0\n").unwrap();
    let player = Player::Off(events);
    let mut player = player.play(10_000);
    assert!(player.is_playing());
    // Too early: nothing due.
    assert_eq!(player.get_events(10_050).len(), 0);
    // 100 milliseconds in, the first event (stamped 1000 tenths) is
    // due.
    let due = player.get_events(10_100);
    assert_eq!(due.len(), 1);
    assert_eq!(due[0].1.pressed, 1);
    assert!(player.is_playing());
    // 50 more milliseconds deliver the second and end playback.
    let due = player.get_events(10_150);
    assert_eq!(due.len(), 1);
    assert_eq!(due[0].1.pressed, 2);
    assert!(!player.is_playing());
}
