//! Digital output channels, eight to a bank, carried as one bitfield
//! byte. A `Triport` names one channel; the byte itself lives with the
//! caller, which ships it to the hardware whole.

use vstd::prelude::*;

verus! {

/// What to do to a set of channels.
#[derive(Debug, Clone, Copy, PartialEq, Eq, Structural)]
pub enum TriportChange {
    Active,
    Inactive,
    Toggle,
}

/// One digital output channel of the eight in a bank.
#[derive(Debug, Clone, Copy, PartialEq, Eq, Structural)]
pub struct Triport {
    pub index: u8,
}

/// The bank byte after applying `change` to the channels under `mask`.
pub open spec fn apply_change(pins: u8, mask: u8, change: TriportChange) -> u8 {
    match change {
        TriportChange::Active => pins | mask,
        TriportChange::Inactive => pins & !mask,
        TriportChange::Toggle => pins ^ mask,
    }
}

impl Triport {
    pub fn new(index: u8) -> (r: Triport)
        requires
            index < 8,
        ensures
            r.index == index,
    {
        Triport { index }
    }

    /// The single-channel mask of this triport.
    pub fn mask(&self) -> (r: u8)
        requires
            self.index < 8,
        ensures
            r == (1u8 << self.index),
    {
        1u8 << self.index
    }

    /// Drive the channel high.
    pub fn set_active(&self, pins: &mut u8)
        requires
            self.index < 8,
        ensures
            *final(pins) == (*old(pins) | (1u8 << self.index)),
    {
        *pins = *pins | (1u8 << self.index);
    }

    /// Drive the channel low.
    pub fn set_inactive(&self, pins: &mut u8)
        requires
            self.index < 8,
        ensures
            *final(pins) == (*old(pins) & !(1u8 << self.index)),
    {
        *pins = *pins & !(1u8 << self.index);
    }

    /// Invert the channel.
    pub fn toggle(&self, pins: &mut u8)
        requires
            self.index < 8,
        ensures
            *final(pins) == (*old(pins) ^ (1u8 << self.index)),
    {
        *pins = *pins ^ (1u8 << self.index);
    }

    /// Apply one of the three changes to the channel.
    pub fn change(&self, pins: &mut u8, change: TriportChange)
        requires
            self.index < 8,
        ensures
            *final(pins) == apply_change(*old(pins), 1u8 << self.index, change),
    {
        match change {
            TriportChange::Active => self.set_active(pins),
            TriportChange::Inactive => self.set_inactive(pins),
            TriportChange::Toggle => self.toggle(pins),
        }
    }
}

/// Apply one change to every channel in `mask` at once.
pub fn change_masked(pins: &mut u8, mask: u8, change: TriportChange)
    ensures
        *final(pins) == apply_change(*old(pins), mask, change),
{
    match change {
        TriportChange::Active => {
            *pins = *pins | mask;
        },
        TriportChange::Inactive => {
            *pins = *pins & !mask;
        },
        TriportChange::Toggle => {
            *pins = *pins ^ mask;
        },
    }
}

} // verus!
