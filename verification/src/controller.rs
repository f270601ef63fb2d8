//! The operator's controller, as the last two status packets describe
//! it: which buttons are held, pressed or released, and the joystick
//! axes in thousandths of full deflection.

use vstd::prelude::*;

use crate::brain::Packet;
use crate::num::tdiv;

verus! {

pub struct Controller {
    pub last: u16,
    pub current: u16,
    pub axes: [i8; 4],
}

/// A raw axis sample scaled to thousandths of full deflection.
pub open spec fn axis_per_mille(raw: i8) -> int {
    tdiv(raw * 1000, 127)
}

impl Controller {
    /// Build from the two most recent packets, the first being the
    /// current one.
    pub fn from_packets(first: &Packet, second: &Packet) -> (r: Controller)
        ensures
            r.last == second.buttons,
            r.current == first.buttons,
            r.axes == first.axes,
    {
        Controller { last: second.buttons, current: first.buttons, axes: first.axes }
    }

    /// One axis in thousandths of full deflection.
    fn axis(&self, i: usize) -> (r: i64)
        requires
            i < 4,
        ensures
            r == axis_per_mille(self.axes[i as int]),
            -1008 <= r <= 1000,
    {
        let raw = self.axes[i];
        proof {
            crate::num::lemma_mul_bound(raw as int, 1000, 128, 1000);
            crate::num::lemma_tdiv_bound(raw as int * 1000, 127, 128_000);
            assert(raw as int * 1000 <= 127_000 && -128_000 <= raw as int * 1000)
                by (nonlinear_arith)
                requires
                    -128 <= raw <= 127,
            ;
            assert(tdiv(raw as int * 1000, 127) <= 1000 && -1008 <= tdiv(raw as int * 1000, 127))
                by (nonlinear_arith)
                requires
                    -128_000 <= raw as int * 1000 <= 127_000,
                    tdiv(raw as int * 1000, 127) == (if raw as int * 1000 >= 0 {
                        (raw as int * 1000) / 127
                    } else {
                        -((-(raw as int * 1000)) / 127)
                    }),
            ;
        }
        crate::num::div_trunc(raw as i64 * 1000, 127)
    }

    /// Left stick, horizontal axis, in thousandths.
    pub fn lx(&self) -> (r: i64)
        ensures
            r == axis_per_mille(self.axes[0]),
    {
        self.axis(0)
    }

    /// Left stick, vertical axis, in thousandths.
    pub fn ly(&self) -> (r: i64)
        ensures
            r == axis_per_mille(self.axes[1]),
    {
        self.axis(1)
    }

    /// Right stick, horizontal axis, in thousandths.
    pub fn rx(&self) -> (r: i64)
        ensures
            r == axis_per_mille(self.axes[2]),
    {
        self.axis(2)
    }

    /// Right stick, vertical axis, in thousandths.
    pub fn ry(&self) -> (r: i64)
        ensures
            r == axis_per_mille(self.axes[3]),
    {
        self.axis(3)
    }

    /// Whether every bit of `button` is down in `matcher`.
    fn bit_matches(button: u16, matcher: u16) -> (r: bool)
        ensures
            r == (matcher & button == button),
    {
        matcher & button == button
    }

    /// Whether the button is down in the current packet.
    pub fn held(&self, button: u16) -> (r: bool)
        ensures
            r == (self.current & button == button),
    {
        Self::bit_matches(button, self.current)
    }

    /// Whether the button went up between the two packets.
    pub fn released(&self, button: u16) -> (r: bool)
        ensures
            r == (self.last & button == button && self.current & button != button),
    {
        Self::bit_matches(button, self.last) && !Self::bit_matches(button, self.current)
    }

    /// Whether the button went down between the two packets.
    pub fn pressed(&self, button: u16) -> (r: bool)
        ensures
            r == (self.last & button != button && self.current & button == button),
    {
        !Self::bit_matches(button, self.last) && Self::bit_matches(button, self.current)
    }

    /// Absorb the edge states so a slow brain does not replay them.
    pub fn update_no_change(&mut self)
        ensures
            *final(self) == (Controller { last: old(self).current, ..*old(self) }),
    {
        self.last = self.current;
    }
}

} // verus!
