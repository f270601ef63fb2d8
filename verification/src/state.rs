//! Operator input and field-control state, computed from pairs of
//! consecutive status packets.

use vstd::prelude::*;

use crate::brain::{Packet, COMP_CONNECTED};

verus! {

/// What changed between two consecutive input packets.
#[derive(Debug, Clone, Copy, PartialEq, Eq)]
pub struct InputChanges {
    pub pressed: u16,
    pub released: u16,
    pub held: u16,
    pub axes: [i8; 4],
    pub axes_changed: bool,
}

impl InputChanges {
    /// The quiescent value: nothing pressed, released, held or moved.
    pub fn no_change() -> (r: InputChanges)
        ensures
            r.pressed == 0 && r.released == 0 && r.held == 0,
            r.axes@ =~= seq![0i8, 0i8, 0i8, 0i8],
            !r.axes_changed,
    {
        InputChanges { pressed: 0, released: 0, held: 0, axes: [0, 0, 0, 0], axes_changed: false }
    }

    /// The changes between the previous and the current packet: edges
    /// on the button bits, plus whether any axis moved.
    pub fn from_difference(last: &Packet, current: &Packet) -> (r: InputChanges)
        ensures
            r.pressed == current.buttons & !last.buttons,
            r.released == !current.buttons & last.buttons,
            r.held == current.buttons,
            r.axes == current.axes,
            r.axes_changed == (current.axes@ != last.axes@),
    {
        let axes_changed = current.axes[0] != last.axes[0] || current.axes[1] != last.axes[1]
            || current.axes[2] != last.axes[2] || current.axes[3] != last.axes[3];
        proof {
            if current.axes@ =~= last.axes@ {
                assert(current.axes@[0] == last.axes@[0]);
                assert(current.axes@[1] == last.axes@[1]);
                assert(current.axes@[2] == last.axes@[2]);
                assert(current.axes@[3] == last.axes@[3]);
            }
        }
        InputChanges {
            pressed: current.buttons & !last.buttons,
            released: !current.buttons & last.buttons,
            held: current.buttons,
            axes: current.axes,
            axes_changed,
        }
    }

    /// Whether anything changed at all between the two packets.
    pub open spec fn change_occured_spec(self) -> bool {
        self.pressed != 0 || self.released != 0 || self.axes_changed
    }

    /// Whether anything changed at all between the two packets.
    pub fn change_occured(&self) -> (r: bool)
        ensures
            r == self.change_occured_spec(),
    {
        self.pressed != 0 || self.released != 0 || self.axes_changed
    }

    /// Whether any of the given buttons was released.
    pub fn button_released(&self, buttons: u16) -> (r: bool)
        ensures
            r == (self.released & buttons != 0),
    {
        self.released & buttons != 0
    }

    /// Whether any of the given buttons was pressed.
    pub fn button_pressed(&self, buttons: u16) -> (r: bool)
        ensures
            r == (self.pressed & buttons != 0),
    {
        self.pressed & buttons != 0
    }

    /// Whether any of the given buttons is held.
    pub fn button_held(&self, buttons: u16) -> (r: bool)
        ensures
            r == (self.held & buttons != 0),
    {
        self.held & buttons != 0
    }

    pub fn axes(&self) -> (r: [i8; 4])
        ensures
            r == self.axes,
    {
        self.axes
    }
}

/// How the field-control link changed between two packets.
#[derive(Debug, Clone, Copy, PartialEq, Eq, Structural)]
pub enum FieldControlState {
    Joined,
    Left,
    Connected,
    Disconnected,
}

/// The field-control transition between the previous and the current
/// competition-state flags.
pub fn fcs_state(last_bits: u8, current_bits: u8) -> (r: FieldControlState)
    ensures
        r == (match (last_bits & COMP_CONNECTED != 0, current_bits & COMP_CONNECTED != 0) {
            (false, true) => FieldControlState::Joined,
            (true, false) => FieldControlState::Left,
            (true, true) => FieldControlState::Connected,
            (false, false) => FieldControlState::Disconnected,
        }),
{
    let that = last_bits & COMP_CONNECTED != 0;
    let this = current_bits & COMP_CONNECTED != 0;
    match (that, this) {
        (false, true) => FieldControlState::Joined,
        (true, false) => FieldControlState::Left,
        (true, true) => FieldControlState::Connected,
        (false, false) => FieldControlState::Disconnected,
    }
}

/// Whether a field controller is connected at all.
pub fn is_competition(state_bits: u8) -> (r: bool)
    ensures
        r == (state_bits & COMP_CONNECTED != 0),
{
    state_bits & COMP_CONNECTED != 0
}

/// The competition phase the current flags report, ignoring the
/// connection flag.
pub fn compute_comp_state(state_bits: u8) -> (r: crate::CompetitionState)
    ensures
        r == (if state_bits & crate::brain::COMP_DISABLED != 0 {
            crate::CompetitionState::Disabled
        } else if state_bits & crate::brain::COMP_AUTONOMOUS != 0 {
            crate::CompetitionState::Autonomous
        } else {
            crate::CompetitionState::UserControl
        }),
{
    if state_bits & crate::brain::COMP_DISABLED != 0 {
        crate::CompetitionState::Disabled
    } else if state_bits & crate::brain::COMP_AUTONOMOUS != 0 {
        crate::CompetitionState::Autonomous
    } else {
        crate::CompetitionState::UserControl
    }
}

/// Override the live operator input with replayed input: the latest
/// replayed event wins; with no event due, the previous replayed
/// input keeps holding; with nothing replayed yet, the live input
/// stands.
pub fn overwrite_replay_input(
    controller: &mut InputChanges,
    replay_last: &mut Option<InputChanges>,
    due: &Vec<(u32, InputChanges)>,
)
    ensures
        (due@.len() > 0 ==> *final(controller) == due@[0].1 && *final(replay_last) == Some(
            due@[0].1,
        )),
        (due@.len() == 0 ==> *final(replay_last) == *old(replay_last) && (match *old(replay_last) {
            Some(last) => *final(controller) == last,
            None => *final(controller) == *old(controller),
        })),
{
    if due.len() > 0 {
        let event = due[0].1;
        *replay_last = Some(event);
        *controller = event;
    } else {
        match replay_last {
            Some(last) => {
                *controller = *last;
            },
            None => {},
        }
    }
}

} // verus!
