//! Recording and replaying operator input.
//!
//! A replay is a text log, one event per line: the time since the
//! previous event in tenth-milliseconds, the pressed and released
//! button bits, and, when the sticks moved, the four axis values —
//! all decimal, separated by commas. The held-button state is not
//! stored; it is reconstructed while parsing. Reading and writing the
//! file belongs to the caller; this module turns bytes into events and
//! back.

use vstd::prelude::*;

use crate::state::InputChanges;

verus! {

/// The button bits a packet may carry; a recorded bitfield with any
/// other bit set is invalid.
pub const BUTTONS_ALL: u16 = 0x0fff;

/// Why a replay could not be handled.
#[derive(Debug, Clone, Copy, PartialEq, Eq, Structural)]
pub enum ReplayError {
    /// A state was reached that the recorder can never be in.
    InvalidCodePath,
    /// The caller failed to read or write the file.
    IoError,
    /// The numbered line (counting from one) is not a valid event.
    ParseError(u32),
    /// More than the representable time passed between two events.
    MaxTimeExceeded,
}

/// An ASCII decimal digit.
pub open spec fn is_digit(b: u8) -> bool {
    48 <= b <= 57
}

/// The value of a string of decimal digits.
pub open spec fn dec_val(s: Seq<u8>) -> int
    decreases s.len(),
{
    if s.len() == 0 {
        0
    } else {
        dec_val(s.drop_last()) * 10 + (s.last() - 48)
    }
}

/// Whether every byte is a decimal digit.
pub open spec fn all_digits(s: Seq<u8>) -> bool {
    forall|i: int| 0 <= i < s.len() ==> is_digit(#[trigger] s[i])
}

/// What a digit string parses to as a 32-bit number: its value, if it
/// is a nonempty digit string whose value fits.
pub open spec fn parse_u32_spec(s: Seq<u8>) -> Option<u32> {
    if s.len() > 0 && all_digits(s) && dec_val(s) <= u32::MAX {
        Some(dec_val(s) as u32)
    } else {
        None
    }
}

/// What a field parses to as a button bitfield: a 16-bit value with
/// only known button bits set.
pub open spec fn parse_buttons_spec(s: Seq<u8>) -> Option<u16> {
    match parse_u32_spec(s) {
        Some(v) => if v <= u16::MAX && (v as u16) & !BUTTONS_ALL == 0 {
            Some(v as u16)
        } else {
            None
        },
        None => None,
    }
}

/// What a field parses to as a signed axis value: an optional minus
/// sign and digits, within the 8-bit range.
pub open spec fn parse_i8_spec(s: Seq<u8>) -> Option<i8> {
    if s.len() > 0 && s[0] == 45 {
        match parse_u32_spec(s.subrange(1, s.len() as int)) {
            Some(v) => if v <= 128 {
                Some((-(v as int)) as i8)
            } else {
                None
            },
            None => None,
        }
    } else {
        match parse_u32_spec(s) {
            Some(v) => if v <= 127 {
                Some(v as i8)
            } else {
                None
            },
            None => None,
        }
    }
}

proof fn lemma_dec_val_nonneg(s: Seq<u8>)
    requires
        all_digits(s),
    ensures
        dec_val(s) >= 0,
    decreases s.len(),
{
    if s.len() > 0 {
        assert(all_digits(s.drop_last()));
        assert(is_digit(s.last()));
        lemma_dec_val_nonneg(s.drop_last());
        assert(dec_val(s.drop_last()) * 10 >= 0) by (nonlinear_arith)
            requires
                dec_val(s.drop_last()) >= 0,
        ;
    }
}

/// Appending digits never shrinks the value, so a prefix that is
/// already too large condemns the whole string.
proof fn lemma_dec_val_prefix_monotone(s: Seq<u8>, i: int)
    requires
        0 <= i <= s.len(),
        all_digits(s),
    ensures
        dec_val(s.subrange(0, i)) <= dec_val(s),
    decreases s.len() - i,
{
    if i < s.len() {
        lemma_dec_val_prefix_monotone(s, i + 1);
        let p = s.subrange(0, i);
        let q = s.subrange(0, i + 1);
        assert(q.drop_last() =~= p);
        assert(all_digits(p));
        lemma_dec_val_nonneg(p);
        assert(dec_val(q) == dec_val(p) * 10 + (q.last() - 48));
        assert(dec_val(p) <= dec_val(p) * 10) by (nonlinear_arith)
            requires
                dec_val(p) >= 0,
        ;
    } else {
        assert(s.subrange(0, i) =~= s);
    }
}

/// Parse a nonempty digit string into a 32-bit number.
pub fn parse_u32(s: &[u8]) -> (r: Option<u32>)
    ensures
        r == parse_u32_spec(s@),
{
    if s.len() == 0 {
        return None;
    }
    let mut acc: u64 = 0;
    let mut i: usize = 0;
    while i < s.len()
        invariant
            0 < s@.len(),
            i <= s@.len(),
            acc == dec_val(s@.subrange(0, i as int)),
            acc <= u32::MAX,
            all_digits(s@.subrange(0, i as int)),
        decreases s@.len() - i,
    {
        let b = s[i];
        if b < 48 || b > 57 {
            proof {
                assert(!is_digit(s@[i as int]));
            }
            return None;
        }
        acc = acc * 10 + ((b - 48) as u64);
        proof {
            assert(s@.subrange(0, i + 1).drop_last() =~= s@.subrange(0, i as int));
        }
        i = i + 1;
        if acc > u32::MAX as u64 {
            proof {
                if all_digits(s@) {
                    lemma_dec_val_prefix_monotone(s@, i as int);
                }
            }
            return None;
        }
    }
    proof {
        assert(s@.subrange(0, s@.len() as int) =~= s@);
    }
    Some(acc as u32)
}

/// Parse a button bitfield field.
pub fn parse_buttons(s: &[u8]) -> (r: Option<u16>)
    ensures
        r == parse_buttons_spec(s@),
{
    match parse_u32(s) {
        Some(v) => {
            if v <= u16::MAX as u32 && (v as u16) & !BUTTONS_ALL == 0 {
                Some(v as u16)
            } else {
                None
            }
        },
        None => None,
    }
}

/// Parse a signed axis field.
pub fn parse_i8(s: &[u8]) -> (r: Option<i8>)
    ensures
        r == parse_i8_spec(s@),
{
    if s.len() > 0 && s[0] == 45 {
        let mut digits: Vec<u8> = Vec::new();
        let mut i: usize = 1;
        while i < s.len()
            invariant
                1 <= i <= s@.len(),
                digits@ == s@.subrange(1, i as int),
            decreases s@.len() - i,
        {
            digits.push(s[i]);
            proof {
                assert(digits@ =~= s@.subrange(1, i + 1));
            }
            i = i + 1;
        }
        proof {
            assert(digits@ =~= s@.subrange(1, s@.len() as int));
        }
        match parse_u32(digits.as_slice()) {
            Some(v) => {
                if v <= 128 {
                    Some((-(v as i64)) as i8)
                } else {
                    None
                }
            },
            None => None,
        }
    } else {
        match parse_u32(s) {
            Some(v) => {
                if v <= 127 {
                    Some(v as i8)
                } else {
                    None
                }
            },
            None => None,
        }
    }
}

/// A byte string split at every separator; one more field than there
/// are separators, in order.
pub open spec fn split_spec(s: Seq<u8>, sep: u8) -> Seq<Seq<u8>>
    decreases s.len(),
{
    if s.len() == 0 {
        seq![Seq::<u8>::empty()]
    } else {
        let rest = split_spec(s.drop_last(), sep);
        if s.last() == sep {
            rest + seq![Seq::<u8>::empty()]
        } else {
            rest.update(rest.len() - 1, rest.last().push(s.last()))
        }
    }
}

proof fn lemma_split_nonempty(s: Seq<u8>, sep: u8)
    ensures
        split_spec(s, sep).len() >= 1,
    decreases s.len(),
{
    if s.len() > 0 {
        lemma_split_nonempty(s.drop_last(), sep);
    }
}

/// Split a byte string at every separator.
pub fn split_bytes(s: &[u8], sep: u8) -> (r: Vec<Vec<u8>>)
    ensures
        r.deep_view() == split_spec(s@, sep),
        r@.len() >= 1,
{
    let mut fields: Vec<Vec<u8>> = Vec::new();
    fields.push(Vec::new());
    proof {
        assert(fields.deep_view() =~~= split_spec(s@.subrange(0, 0), sep));
    }
    let mut i: usize = 0;
    while i < s.len()
        invariant
            i <= s@.len(),
            fields@.len() >= 1,
            fields.deep_view() == split_spec(s@.subrange(0, i as int), sep),
        decreases s@.len() - i,
    {
        let ghost pre = s@.subrange(0, i as int);
        let b = s[i];
        proof {
            assert(s@.subrange(0, i + 1).drop_last() =~= pre);
            lemma_split_nonempty(pre, sep);
        }
        if b == sep {
            fields.push(Vec::new());
            proof {
                assert(fields.deep_view() =~~= split_spec(s@.subrange(0, i + 1), sep));
            }
        } else {
            let mut last = fields.pop().unwrap();
            last.push(b);
            fields.push(last);
            proof {
                assert(fields.deep_view() =~~= split_spec(s@.subrange(0, i + 1), sep));
            }
        }
        i = i + 1;
    }
    proof {
        assert(s@.subrange(0, s@.len() as int) =~= s@);
    }
    fields
}

/// What one log line means, given the held buttons so far: the time
/// difference, the reconstructed input change, and the held buttons
/// afterwards — or nothing, if the line is not a valid event.
pub open spec fn parse_line_spec(fields: Seq<Seq<u8>>, held: u16) -> Option<(u32, InputChanges, u16)> {
    if fields.len() != 3 && fields.len() != 7 {
        None
    } else {
        match (parse_u32_spec(fields[0]), parse_buttons_spec(fields[1]), parse_buttons_spec(
            fields[2],
        )) {
            (Some(diff), Some(pressed), Some(released)) => {
                let held2 = (held | pressed) & !released;
                if fields.len() == 7 {
                    match (parse_i8_spec(fields[3]), parse_i8_spec(fields[4]), parse_i8_spec(
                        fields[5],
                    ), parse_i8_spec(fields[6])) {
                        (Some(lx), Some(ly), Some(rx), Some(ry)) => Some(
                            (
                                diff,
                                InputChanges {
                                    pressed,
                                    released,
                                    held: held2,
                                    axes: [lx, ly, rx, ry],
                                    axes_changed: true,
                                },
                                held2,
                            ),
                        ),
                        _ => None,
                    }
                } else {
                    Some(
                        (
                            diff,
                            InputChanges {
                                pressed,
                                released,
                                held: held2,
                                axes: [0i8, 0i8, 0i8, 0i8],
                                axes_changed: false,
                            },
                            held2,
                        ),
                    )
                }
            },
            _ => None,
        }
    }
}

/// What a whole log means: each line folded in order, the held-button
/// state carried from line to line — or nothing, if any line is bad.
pub open spec fn parse_lines_spec(lines: Seq<Seq<u8>>, held: u16) -> Option<
    Seq<(u32, InputChanges)>,
>
    decreases lines.len(),
{
    if lines.len() == 0 {
        Some(Seq::empty())
    } else {
        match parse_line_spec(split_spec(lines[0], 44), held) {
            None => None,
            Some((diff, ic, held2)) => match parse_lines_spec(
                lines.subrange(1, lines.len() as int),
                held2,
            ) {
                None => None,
                Some(rest) => Some(seq![(diff, ic)] + rest),
            },
        }
    }
}

/// The event lines of a log: the log split at newlines, with the empty
/// last piece of a newline-terminated file dropped.
pub open spec fn replay_lines(data: Seq<u8>) -> Seq<Seq<u8>> {
    let pieces = split_spec(data, 10);
    if pieces.len() > 0 && pieces.last().len() == 0 {
        pieces.drop_last()
    } else {
        pieces
    }
}

/// Parse one log line, given the held buttons so far.
pub fn parse_line(line: &[u8], held: u16) -> (r: Option<(u32, InputChanges, u16)>)
    ensures
        r == parse_line_spec(split_spec(line@, 44), held),
{
    let fields = split_bytes(line, 44);
    let ghost fs = split_spec(line@, 44);
    proof {
        assert forall|k: int| 0 <= k < fields@.len() implies fs[k] == fields@[k]@ by {
            assert(fields.deep_view()[k] == fields@[k].deep_view());
            assert(fields@[k].deep_view() =~= fields@[k]@);
        }
    }
    let n = fields.len();
    if n != 3 && n != 7 {
        return None;
    }
    let diff = match parse_u32(fields[0].as_slice()) {
        Some(v) => v,
        None => {
            return None;
        },
    };
    let pressed = match parse_buttons(fields[1].as_slice()) {
        Some(v) => v,
        None => {
            return None;
        },
    };
    let released = match parse_buttons(fields[2].as_slice()) {
        Some(v) => v,
        None => {
            return None;
        },
    };
    let held2 = (held | pressed) & !released;
    if n == 7 {
        let lx = match parse_i8(fields[3].as_slice()) {
            Some(v) => v,
            None => {
                return None;
            },
        };
        let ly = match parse_i8(fields[4].as_slice()) {
            Some(v) => v,
            None => {
                return None;
            },
        };
        let rx = match parse_i8(fields[5].as_slice()) {
            Some(v) => v,
            None => {
                return None;
            },
        };
        let ry = match parse_i8(fields[6].as_slice()) {
            Some(v) => v,
            None => {
                return None;
            },
        };
        Some(
            (
                diff,
                InputChanges {
                    pressed,
                    released,
                    held: held2,
                    axes: [lx, ly, rx, ry],
                    axes_changed: true,
                },
                held2,
            ),
        )
    } else {
        Some(
            (
                diff,
                InputChanges {
                    pressed,
                    released,
                    held: held2,
                    axes: [0, 0, 0, 0],
                    axes_changed: false,
                },
                held2,
            ),
        )
    }
}

/// Parse a whole replay log. Returns the events in order, with the
/// held-button state reconstructed from the edges, or the number of
/// the first bad line.
pub fn parse_replay(data: &[u8]) -> (r: Result<Vec<(u32, InputChanges)>, ReplayError>)
    ensures
        (match r {
            Ok(events) => parse_lines_spec(replay_lines(data@), 0) == Some(events@),
            Err(e) => parse_lines_spec(replay_lines(data@), 0) is None && (e matches
                ReplayError::ParseError(_)),
        }),
{
    let mut lines = split_bytes(data, 10);
    if lines.len() > 0 {
        let last_len = lines[lines.len() - 1].len();
        if last_len == 0 {
            let _ = lines.pop();
        }
    }
    proof {
        assert(lines.deep_view() =~~= replay_lines(data@));
    }
    let ghost all = lines.deep_view();

    let mut events: Vec<(u32, InputChanges)> = Vec::new();
    let mut held: u16 = 0;
    let mut i: usize = 0;
    proof {
        assert(all.subrange(0, all.len() as int) =~= all);
        match parse_lines_spec(all, 0) {
            Some(evs) => {
                assert(events@ + evs =~= evs);
            },
            None => {},
        }
    }
    while i < lines.len()
        invariant
            i <= lines@.len(),
            lines.deep_view() == all,
            all == replay_lines(data@),
            (match parse_lines_spec(all, 0) {
                Some(evs) => parse_lines_spec(all.subrange(i as int, all.len() as int), held)
                    matches Some(rest) && evs == events@ + rest,
                None => parse_lines_spec(all.subrange(i as int, all.len() as int), held) is None,
            }),
        decreases lines@.len() - i,
    {
        let ghost tail = all.subrange(i as int, all.len() as int);
        proof {
            assert(tail[0] == all[i as int]);
            assert(all[i as int] == lines@[i as int].deep_view());
            assert(lines@[i as int].deep_view() =~= lines@[i as int]@);
            assert(tail.subrange(1, tail.len() as int) =~= all.subrange(
                i + 1,
                all.len() as int,
            ));
        }
        match parse_line(lines[i].as_slice(), held) {
            None => {
                proof {
                    assert(all.len() == lines@.len());
                    assert(tail.len() > 0);
                    assert(parse_line_spec(split_spec(tail[0], 44), held) is None);
                    assert(parse_lines_spec(tail, held) is None);
                }
                return Err(ReplayError::ParseError((i as u32).wrapping_add(1)));
            },
            Some((diff, ic, held2)) => {
                let ghost pre = events@;
                events.push((diff, ic));
                proof {
                    match parse_lines_spec(all.subrange(i + 1, all.len() as int), held2) {
                        Some(rest2) => {
                            assert(pre + (seq![(diff, ic)] + rest2) =~= events@ + rest2);
                        },
                        None => {},
                    }
                }
                held = held2;
            },
        }
        i = i + 1;
    }
    proof {
        assert(all.subrange(all.len() as int, all.len() as int) =~= Seq::<Seq<u8>>::empty());
        match parse_lines_spec(all, 0) {
            Some(evs) => {
                assert(evs =~= events@);
            },
            None => {},
        }
    }
    Ok(events)
}

/// The decimal digits of a number, most significant first.
pub open spec fn dec_digits(n: int) -> Seq<u8>
    recommends
        n >= 0,
    decreases n,
{
    if n < 10 {
        seq![(48 + if n >= 0 {
            n
        } else {
            0
        }) as u8]
    } else {
        dec_digits(n / 10).push((48 + n % 10) as u8)
    }
}

/// The text of a signed axis value.
pub open spec fn i8_text(v: int) -> Seq<u8> {
    if v < 0 {
        seq![45u8] + dec_digits(-v)
    } else {
        dec_digits(v)
    }
}

/// One rendered log line, newline included.
pub open spec fn render_line_spec(diff: u32, ic: InputChanges) -> Seq<u8> {
    let head = dec_digits(diff as int) + seq![44u8] + dec_digits(ic.pressed as int) + seq![44u8]
        + dec_digits(ic.released as int);
    let tail = if ic.axes_changed {
        seq![44u8] + i8_text(ic.axes[0] as int) + seq![44u8] + i8_text(ic.axes[1] as int)
            + seq![44u8] + i8_text(ic.axes[2] as int) + seq![44u8] + i8_text(ic.axes[3] as int)
    } else {
        Seq::<u8>::empty()
    };
    head + tail + seq![10u8]
}

/// A whole rendered log.
pub open spec fn render_events_spec(events: Seq<(u32, InputChanges)>) -> Seq<u8>
    decreases events.len(),
{
    if events.len() == 0 {
        Seq::empty()
    } else {
        render_events_spec(events.drop_last()) + render_line_spec(
            events.last().0,
            events.last().1,
        )
    }
}

/// Append the decimal digits of `n`.
fn push_dec(n: u32, out: &mut Vec<u8>)
    ensures
        final(out)@ == old(out)@ + dec_digits(n as int),
    decreases n,
{
    if n < 10 {
        out.push(48 + n as u8);
        proof {
            assert(out@ =~= old(out)@ + dec_digits(n as int));
        }
    } else {
        push_dec(n / 10, out);
        out.push(48 + (n % 10) as u8);
        proof {
            assert(out@ =~= old(out)@ + dec_digits(n as int));
        }
    }
}

/// Append the text of a signed axis value.
fn push_i8(v: i8, out: &mut Vec<u8>)
    ensures
        final(out)@ == old(out)@ + i8_text(v as int),
{
    if v < 0 {
        out.push(45);
        push_dec((-(v as i64)) as u32, out);
        proof {
            assert(out@ =~= old(out)@ + i8_text(v as int));
        }
    } else {
        push_dec(v as u32, out);
    }
}

/// Render events back into log bytes; `parse_replay` of the result
/// yields the same events whenever their held and axis fields are the
/// consistent ones the recorder produces.
#[verifier::rlimit(50)]
pub fn render_events(events: &Vec<(u32, InputChanges)>) -> (r: Vec<u8>)
    ensures
        r@ == render_events_spec(events@),
{
    let mut out: Vec<u8> = Vec::new();
    let mut i: usize = 0;
    while i < events.len()
        invariant
            i <= events@.len(),
            out@ == render_events_spec(events@.subrange(0, i as int)),
        decreases events@.len() - i,
    {
        let (diff, ic) = events[i];
        let ghost pre = out@;
        push_dec(diff, &mut out);
        out.push(44);
        push_dec(ic.pressed as u32, &mut out);
        out.push(44);
        push_dec(ic.released as u32, &mut out);
        if ic.axes_changed {
            out.push(44);
            push_i8(ic.axes[0], &mut out);
            out.push(44);
            push_i8(ic.axes[1], &mut out);
            out.push(44);
            push_i8(ic.axes[2], &mut out);
            out.push(44);
            push_i8(ic.axes[3], &mut out);
        }
        out.push(10);
        proof {
            assert(events@.subrange(0, i + 1).drop_last() =~= events@.subrange(0, i as int));
            assert(out@ =~= pre + render_line_spec(diff, ic));
            assert(out@ =~= render_events_spec(events@.subrange(0, i + 1)));
        }
        i = i + 1;
    }
    proof {
        assert(events@.subrange(0, events@.len() as int) =~= events@);
    }
    out
}

/// Records input changes as they happen, stamped with the time since
/// the previous one in tenth-milliseconds.
pub enum Recorder {
    Off,
    Waiting(u64),
    Recording { last_ms: u64, events: Vec<(u32, InputChanges)> },
}

impl Recorder {
    pub fn new() -> (r: Recorder)
        ensures
            r is Off,
    {
        Recorder::Off
    }

    /// Start waiting, or stop: stopping a live recording renders it and
    /// hands the bytes back for the caller to save.
    pub fn toggle(&mut self, now_ms: u64) -> (r: Option<Vec<u8>>)
        ensures
            (*old(self) matches Recorder::Off ==> *final(self) == Recorder::Waiting(now_ms) && r
                is None),
            (*old(self) matches Recorder::Waiting(_) ==> *final(self) == Recorder::Off && r
                is None),
            (*old(self) matches Recorder::Recording { last_ms, events } ==> *final(self)
                == Recorder::Off && (r matches Some(bytes) && bytes@ == render_events_spec(
                events@,
            ))),
    {
        let mut taken = Recorder::Off;
        core::mem::swap(self, &mut taken);
        match taken {
            Recorder::Off => {
                *self = Recorder::Waiting(now_ms);
                None
            },
            Recorder::Waiting(_) => {
                *self = Recorder::Off;
                None
            },
            Recorder::Recording { last_ms: _, events } => {
                *self = Recorder::Off;
                Some(render_events(&events))
            },
        }
    }

    /// Note an input sample at `now_ms`. Only actual changes are
    /// recorded, stamped with the tenth-milliseconds since the last
    /// event and restarting that clock; a silence longer than the
    /// representable time stops the recording with an error.
    pub fn take_event(&mut self, changes: &InputChanges, now_ms: u64) -> (r: Result<
        (),
        ReplayError,
    >)
        ensures
            (*old(self) matches Recorder::Off ==> *final(self) == *old(self) && r is Ok),
            (!changes.change_occured_spec() ==> *final(self) == *old(self) && r is Ok),
            (*old(self) matches Recorder::Waiting(last) ==> (changes.change_occured_spec() ==> ({
                let elapsed = 10 * (if now_ms >= last {
                    now_ms - last
                } else {
                    0
                });
                if elapsed > u32::MAX {
                    *final(self) == Recorder::Off && r == Err::<(), ReplayError>(
                        ReplayError::MaxTimeExceeded,
                    )
                } else {
                    &&& (*final(self) matches Recorder::Recording { last_ms, events }
                        && last_ms == now_ms && events@ =~= seq![(elapsed as u32, *changes)])
                    &&& r is Ok
                }
            }))),
            (*old(self) matches Recorder::Recording { last_ms, events } ==> (
            changes.change_occured_spec() ==> ({
                let elapsed = 10 * (if now_ms >= last_ms {
                    now_ms - last_ms
                } else {
                    0
                });
                if elapsed > u32::MAX {
                    *final(self) == Recorder::Off && r == Err::<(), ReplayError>(
                        ReplayError::MaxTimeExceeded,
                    )
                } else {
                    &&& (*final(self) matches Recorder::Recording { last_ms: flast, events: fevents }
                        && flast == now_ms && fevents@ =~= events@.push(
                        (elapsed as u32, *changes),
                    ))
                    &&& r is Ok
                }
            }))),
    {
        let changed = changes.change_occured();
        let mut taken = Recorder::Off;
        core::mem::swap(self, &mut taken);
        match taken {
            Recorder::Off => {
                *self = Recorder::Off;
                Ok(())
            },
            Recorder::Waiting(last) => {
                if !changed {
                    *self = Recorder::Waiting(last);
                    return Ok(());
                }
                let elapsed_tenth_ms: u128 = (if now_ms >= last {
                    (now_ms - last) as u128
                } else {
                    0
                }) * 10;
                if elapsed_tenth_ms > u32::MAX as u128 {
                    *self = Recorder::Off;
                    return Err(ReplayError::MaxTimeExceeded);
                }
                let mut events: Vec<(u32, InputChanges)> = Vec::new();
                events.push((elapsed_tenth_ms as u32, *changes));
                *self = Recorder::Recording { last_ms: now_ms, events };
                Ok(())
            },
            Recorder::Recording { last_ms, mut events } => {
                if !changed {
                    *self = Recorder::Recording { last_ms, events };
                    return Ok(());
                }
                let elapsed_tenth_ms: u128 = (if now_ms >= last_ms {
                    (now_ms - last_ms) as u128
                } else {
                    0
                }) * 10;
                if elapsed_tenth_ms > u32::MAX as u128 {
                    *self = Recorder::Off;
                    return Err(ReplayError::MaxTimeExceeded);
                }
                events.push((elapsed_tenth_ms as u32, *changes));
                *self = Recorder::Recording { last_ms: now_ms, events };
                Ok(())
            },
        }
    }
}

/// Where playback stops: the first event index at or after `from`
/// whose time difference has not yet elapsed.
pub open spec fn stop_cursor(evs: Seq<(u32, InputChanges)>, from: int, remaining: int) -> int
    decreases evs.len() - from,
{
    if from < 0 || from >= evs.len() {
        evs.len() as int
    } else if remaining < evs[from].0 {
        from
    } else {
        stop_cursor(evs, from + 1, remaining - evs[from].0)
    }
}

/// Plays a recorded event list back against the clock.
pub enum Player {
    Off(Vec<(u32, InputChanges)>),
    Playing { last_ms: u64, events: Vec<(u32, InputChanges)>, cursor: usize },
}

impl Player {
    /// Load a player from replay-log bytes.
    pub fn from_bytes(data: &[u8]) -> (r: Result<Player, ReplayError>)
        ensures
            (match r {
                Ok(p) => p matches Player::Off(events) && parse_lines_spec(
                    replay_lines(data@),
                    0,
                ) == Some(events@),
                Err(e) => parse_lines_spec(replay_lines(data@), 0) is None,
            }),
    {
        match parse_replay(data) {
            Ok(events) => Ok(Player::Off(events)),
            Err(e) => Err(e),
        }
    }

    /// Start playback from the beginning.
    pub fn play(self, now_ms: u64) -> (r: Player)
        ensures
            (self matches Player::Off(events) ==> r == (Player::Playing {
                last_ms: now_ms,
                events,
                cursor: 0,
            })),
            (self matches Player::Playing { .. } ==> r == self),
    {
        match self {
            Player::Off(events) => Player::Playing { last_ms: now_ms, events, cursor: 0 },
            p => p,
        }
    }

    pub fn is_playing(&self) -> (r: bool)
        ensures
            r == (*self matches Player::Playing { .. }),
    {
        matches!(self, Player::Playing { .. })
    }

    /// Stop playback, keeping the events.
    pub fn reset(&mut self)
        ensures
            (*old(self) matches Player::Off(events) ==> *final(self) == *old(self)),
            (*old(self) matches Player::Playing { last_ms, events, cursor } ==> *final(self)
                == Player::Off(events)),
    {
        let mut taken = Player::Off(Vec::new());
        core::mem::swap(self, &mut taken);
        match taken {
            Player::Off(events) => {
                *self = Player::Off(events);
            },
            Player::Playing { last_ms: _, events, cursor: _ } => {
                *self = Player::Off(events);
            },
        }
    }

    /// The events due at `now_ms`: everything from the playback cursor
    /// whose accumulated time difference has elapsed. Reaching the end
    /// of the recording stops playback and delivers the remainder.
    pub fn get_events(&mut self, now_ms: u64) -> (r: Vec<(u32, InputChanges)>)
        requires
            (*old(self) matches Player::Playing { events, cursor, .. } ==> cursor <= events@.len()),
        ensures
            (*old(self) matches Player::Off(_) ==> *final(self) == *old(self) && r@
                =~= Seq::<(u32, InputChanges)>::empty()),
            (*old(self) matches Player::Playing { last_ms, events, cursor } ==> {
                let elapsed = 10 * (if now_ms >= last_ms {
                    now_ms - last_ms
                } else {
                    0
                });
                let stop = stop_cursor(events@, cursor as int, elapsed as int);
                if elapsed > u32::MAX {
                    // An implausibly long pause resets playback.
                    &&& *final(self) == Player::Off(events)
                    &&& r@ =~= Seq::<(u32, InputChanges)>::empty()
                } else if stop >= events@.len() {
                    // Playback ended: deliver the tail and stop.
                    &&& *final(self) == Player::Off(events)
                    &&& r@ == events@.subrange(cursor as int, events@.len() as int)
                } else if stop == cursor {
                    &&& *final(self) == *old(self)
                    &&& r@ =~= Seq::<(u32, InputChanges)>::empty()
                } else {
                    &&& *final(self) == (Player::Playing {
                        last_ms: now_ms,
                        events,
                        cursor: stop as usize,
                    })
                    &&& r@ == events@.subrange(cursor as int, stop)
                }
            }),
    {
        let mut taken = Player::Off(Vec::new());
        core::mem::swap(self, &mut taken);
        match taken {
            Player::Off(events) => {
                *self = Player::Off(events);
                Vec::new()
            },
            Player::Playing { last_ms, events, cursor } => {
                let elapsed128: u128 = 10 * (if now_ms >= last_ms {
                    (now_ms - last_ms) as u128
                } else {
                    0
                });
                if elapsed128 > u32::MAX as u128 {
                    *self = Player::Off(events);
                    return Vec::new();
                }
                let elapsed: u64 = elapsed128 as u64;
                let ghost stop = stop_cursor(events@, cursor as int, elapsed as int);
                let mut cur = cursor;
                let mut remaining = elapsed;
                while cur < events.len() && remaining >= events[cur].0 as u64
                    invariant
                        cursor <= cur <= events@.len(),
                        stop == stop_cursor(events@, cur as int, remaining as int),
                    decreases events@.len() - cur,
                {
                    remaining = remaining - events[cur].0 as u64;
                    cur = cur + 1;
                }
                proof {
                    assert(stop == cur);
                }
                let mut due: Vec<(u32, InputChanges)> = Vec::new();
                let mut k = cursor;
                while k < cur
                    invariant
                        cursor <= k <= cur <= events@.len(),
                        due@ == events@.subrange(cursor as int, k as int),
                    decreases cur - k,
                {
                    due.push(events[k]);
                    proof {
                        assert(due@ =~= events@.subrange(cursor as int, k + 1));
                    }
                    k = k + 1;
                }
                if cur >= events.len() {
                    *self = Player::Off(events);
                } else if cur == cursor {
                    *self = Player::Playing { last_ms, events, cursor };
                } else {
                    *self = Player::Playing { last_ms: now_ms, events, cursor: cur };
                }
                due
            },
        }
    }
}

} // verus!
