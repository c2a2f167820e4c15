//! A simulated bus: line levels in memory and a record of what the devices
//! on the bus would have seen.
//!
//! It stands in for the hardware wherever the operations that the arbiter
//! returns are to be looked at rather than performed. It is the executable
//! form of [`Lines::step`] and [`Lines::shows`].

use crate::wire::{Level, Lines, Seen, Signal, WireOp};
use vstd::prelude::*;

verus! {

/// One entry in the record of a simulated bus.
#[derive(Debug, PartialEq, Eq)]
pub enum Sighting {
    /// The chip-select of `line` fell.
    Asserted { line: u8 },
    /// The chip-select of `line` rose.
    Released { line: u8 },
    /// Bytes on the serial bus, with the level of every chip-select and of
    /// the control line while they were clocked.
    Spi { select: Vec<Level>, control: Level, bytes: Vec<u8> },
    /// Bytes sent to an address.
    I2c { address: u8, bytes: Vec<u8> },
}

impl DeepView for Sighting {
    type V = Seen;

    open spec fn deep_view(&self) -> Seen {
        match self {
            Sighting::Asserted { line } => Seen::Asserted { line: *line },
            Sighting::Released { line } => Seen::Released { line: *line },
            Sighting::Spi { select, control, bytes } => Seen::Spi {
                select: select@,
                control: *control,
                bytes: bytes@,
            },
            Sighting::I2c { address, bytes } => Seen::I2c { address: *address, bytes: bytes@ },
        }
    }
}

/// Line levels and the record of what was seen.
#[derive(Debug)]
pub struct SimBus {
    select: Vec<Level>,
    control: Level,
    seen: Vec<Sighting>,
}

impl SimBus {
    /// The levels at which the lines stand.
    pub closed spec fn lines(&self) -> Lines {
        Lines { select: self.select@, control: self.control }
    }

    /// Everything seen so far, oldest first.
    pub closed spec fn record(&self) -> Seq<Seen> {
        self.seen.deep_view()
    }

    /// A bus whose lines stand at the given levels, with an empty record.
    pub fn new(select: Vec<Level>, control: Level) -> (bus: SimBus)
        ensures
            bus.lines() == (Lines { select: select@, control }),
            bus.record() == Seq::<Seen>::empty(),
    {
        let seen: Vec<Sighting> = Vec::new();
        assert(seen.deep_view() =~= Seq::<Seen>::empty());
        SimBus { select, control, seen }
    }

    /// The level of every chip-select, by line number.
    pub fn select(&self) -> (select: &Vec<Level>)
        ensures
            select@ == self.lines().select,
    {
        &self.select
    }

    /// The level of the control line.
    pub fn control(&self) -> (control: Level)
        ensures
            control == self.lines().control,
    {
        self.control
    }

    /// Everything seen so far, oldest first.
    pub fn seen(&self) -> (seen: &Vec<Sighting>)
        ensures
            seen.deep_view() == self.record(),
    {
        &self.seen
    }

    /// Performs one operation: the lines move as [`Lines::step`] says, and
    /// what [`Lines::shows`] says is added to the record.
    pub fn perform(&mut self, op: &WireOp)
        ensures
            final(self).lines() == old(self).lines().step(op.deep_view()),
            final(self).record() == old(self).record() + old(self).lines().shows(op.deep_view()),
    {
        let ghost before = self.seen.deep_view();
        let ghost lines = self.lines();
        match op {
            WireOp::ChipSelect { line, level } => {
                let index = *line as usize;
                if index < self.select.len() {
                    if self.select[index] != *level {
                        let sighting = match *level {
                            Level::Low => Sighting::Asserted { line: *line },
                            Level::High => Sighting::Released { line: *line },
                        };
                        self.seen.push(sighting);
                        assert(self.seen.deep_view() =~= before + lines.shows(op.deep_view()));
                    } else {
                        assert(before =~= before + lines.shows(op.deep_view()));
                    }
                    self.select.set(index, *level);
                } else {
                    assert(before =~= before + lines.shows(op.deep_view()));
                }
            },
            WireOp::Control { level } => {
                self.control = *level;
                assert(before =~= before + lines.shows(op.deep_view()));
            },
            WireOp::SpiWrite { bytes } => {
                let sighting = Sighting::Spi {
                    select: copy_levels(&self.select),
                    control: self.control,
                    bytes: bytes.clone(),
                };
                self.seen.push(sighting);
                assert(self.seen.deep_view() =~= before + lines.shows(op.deep_view()));
            },
            WireOp::I2cWrite { address, bytes } => {
                self.seen.push(Sighting::I2c { address: *address, bytes: bytes.clone() });
                assert(self.seen.deep_view() =~= before + lines.shows(op.deep_view()));
            },
        }
    }

    /// Performs `ops` in order: the lines move as [`Lines::run`] says, and
    /// what [`Lines::observe`] says is added to the record.
    pub fn perform_all(&mut self, ops: &Vec<WireOp>)
        ensures
            final(self).lines() == old(self).lines().run(ops.deep_view()),
            final(self).record() == old(self).record() + old(self).lines().observe(
                ops.deep_view(),
            ),
    {
        let ghost trace = ops.deep_view();
        let ghost start = self.lines();
        let ghost before = self.record();
        let mut i: usize = 0;
        assert(trace.take(0) =~= Seq::<Signal>::empty());
        assert(before + start.observe(trace.take(0)) =~= before);
        while i < ops.len()
            invariant
                i <= ops.len(),
                trace == ops.deep_view(),
                self.lines() == start.run(trace.take(i as int)),
                self.record() == before + start.observe(trace.take(i as int)),
            decreases ops.len() - i,
        {
            let ghost done = trace.take(i as int);
            let ghost next = trace.take(i + 1);
            assert(next.drop_last() =~= done);
            assert(next.last() == ops[i as int].deep_view());
            self.perform(&ops[i]);
            assert(self.record() =~= before + start.observe(next));
            i = i + 1;
        }
        assert(trace.take(i as int) =~= trace);
    }
}

/// A copy of `levels`.
fn copy_levels(levels: &Vec<Level>) -> (copy: Vec<Level>)
    ensures
        copy@ == levels@,
{
    let mut copy: Vec<Level> = Vec::new();
    let mut i: usize = 0;
    while i < levels.len()
        invariant
            i <= levels.len(),
            copy@ == levels@.take(i as int),
        decreases levels.len() - i,
    {
        copy.push(levels[i]);
        assert(copy@ =~= levels@.take(i + 1));
        i = i + 1;
    }
    assert(levels@.take(i as int) =~= levels@);
    copy
}

} // verus!
