//! One physical control line behind a handle that every channel on the bus
//! can hold.
//!
//! The line itself belongs to the [`BusArbiter`]. A [`SharedPin`] is the
//! share of one device in it: through it the device drives the line, and
//! only while it holds the bus, so that writes to the line from two
//! devices cannot interleave.

use crate::arbiter::BusArbiter;
use crate::wire::{Level, Signal, WireOp};
use vstd::prelude::*;

verus! {

/// The share that the device on one chip-select has in the control line.
#[derive(Clone, Copy, Debug, PartialEq, Eq, Structural)]
pub struct SharedPin {
    line: u8,
}

impl View for SharedPin {
    type V = u8;

    /// The chip-select line of the device that this share belongs to.
    closed spec fn view(&self) -> u8 {
        self.line
    }
}

impl SharedPin {
    /// The share of the device on chip-select `line`.
    pub fn new(line: u8) -> (pin: SharedPin)
        ensures
            pin@ == line,
    {
        SharedPin { line }
    }

    /// The chip-select line of the device that this share belongs to.
    pub fn line(&self) -> (line: u8)
        ensures
            line == self@,
    {
        self.line
    }

    /// Drives the control line low. Succeeds, with the one operation to
    /// perform, exactly when the owning device holds the bus; otherwise
    /// nothing changes.
    pub fn set_low(&self, arbiter: &mut BusArbiter) -> (driven: Result<Vec<WireOp>, ()>)
        ensures
            driven is Ok <==> old(arbiter)@.active_line() == Some(self@),
            driven matches Ok(ops) ==> {
                &&& ops.deep_view() == seq![Signal::Control { level: Level::Low }]
                &&& final(arbiter)@ == old(arbiter)@.after_control(Level::Low)
            },
            driven is Err ==> final(arbiter)@ == old(arbiter)@,
    {
        arbiter.set_control(self.line, Level::Low)
    }

    /// Drives the control line high. Succeeds, with the one operation to
    /// perform, exactly when the owning device holds the bus; otherwise
    /// nothing changes.
    pub fn set_high(&self, arbiter: &mut BusArbiter) -> (driven: Result<Vec<WireOp>, ()>)
        ensures
            driven is Ok <==> old(arbiter)@.active_line() == Some(self@),
            driven matches Ok(ops) ==> {
                &&& ops.deep_view() == seq![Signal::Control { level: Level::High }]
                &&& final(arbiter)@ == old(arbiter)@.after_control(Level::High)
            },
            driven is Err ==> final(arbiter)@ == old(arbiter)@,
    {
        arbiter.set_control(self.line, Level::High)
    }
}

} // verus!
