//! Vocabulary of the physical lines: levels, the operations that drive
//! them, and what the devices on the bus see of a run of operations.
//!
//! A chip-select line is active when it is low. A device listens to the
//! serial bus exactly while its own chip-select is low, and reads the
//! shared control line at that moment to tell commands from data.

use vstd::prelude::*;

verus! {

/// Electrical level of an output line.
#[derive(Clone, Copy, Debug, PartialEq, Eq, Structural)]
pub enum Level {
    Low,
    High,
}

/// One operation on the physical lines, for the caller to perform.
#[derive(Debug, PartialEq, Eq)]
pub enum WireOp {
    /// Drive the chip-select of `line` to `level`.
    ChipSelect { line: u8, level: Level },
    /// Drive the shared control line to `level`.
    Control { level: Level },
    /// Clock `bytes` out on the serial bus.
    SpiWrite { bytes: Vec<u8> },
    /// Send `bytes` to the device that answers to `address`.
    I2cWrite { address: u8, bytes: Vec<u8> },
}

/// A [`WireOp`] as a mathematical value.
pub enum Signal {
    ChipSelect { line: u8, level: Level },
    Control { level: Level },
    SpiWrite { bytes: Seq<u8> },
    I2cWrite { address: u8, bytes: Seq<u8> },
}

impl DeepView for WireOp {
    type V = Signal;

    open spec fn deep_view(&self) -> Signal {
        match self {
            WireOp::ChipSelect { line, level } => Signal::ChipSelect { line: *line, level: *level },
            WireOp::Control { level } => Signal::Control { level: *level },
            WireOp::SpiWrite { bytes } => Signal::SpiWrite { bytes: bytes@ },
            WireOp::I2cWrite { address, bytes } => Signal::I2cWrite {
                address: *address,
                bytes: bytes@,
            },
        }
    }
}

/// Levels of the chip-select lines, by line number, and of the control line.
pub struct Lines {
    pub select: Seq<Level>,
    pub control: Level,
}

/// One thing that the devices on the bus get to see.
pub enum Seen {
    /// The chip-select of `line` fell: a select-active region begins.
    Asserted { line: u8 },
    /// The chip-select of `line` rose: its select-active region ends.
    Released { line: u8 },
    /// Bytes on the serial bus, with the levels that held while they were
    /// clocked.
    Spi { select: Seq<Level>, control: Level, bytes: Seq<u8> },
    /// Bytes sent to an address.
    I2c { address: u8, bytes: Seq<u8> },
}

impl Lines {
    /// `count` chip-selects, all released.
    pub open spec fn idle(count: nat, control: Level) -> Lines {
        Lines { select: Seq::new(count, |i: int| Level::High), control }
    }

    /// `count` chip-selects of which `line` alone is active.
    pub open spec fn only(count: nat, line: u8, control: Level) -> Lines {
        Lines {
            select: Seq::new(
                count,
                |i: int|
                    if i == line {
                        Level::Low
                    } else {
                        Level::High
                    },
            ),
            control,
        }
    }

    /// The levels after one signal. A chip-select that does not exist is
    /// not driven.
    pub open spec fn step(self, signal: Signal) -> Lines {
        match signal {
            Signal::ChipSelect { line, level } => if line < self.select.len() {
                Lines { select: self.select.update(line as int, level), ..self }
            } else {
                self
            },
            Signal::Control { level } => Lines { control: level, ..self },
            Signal::SpiWrite { .. } => self,
            Signal::I2cWrite { .. } => self,
        }
    }

    /// What one signal shows to the devices, given the levels before it.
    pub open spec fn shows(self, signal: Signal) -> Seq<Seen> {
        match signal {
            Signal::ChipSelect { line, level } => if line < self.select.len()
                && self.select[line as int] != level {
                if level == Level::Low {
                    seq![Seen::Asserted { line }]
                } else {
                    seq![Seen::Released { line }]
                }
            } else {
                Seq::empty()
            },
            Signal::Control { .. } => Seq::empty(),
            Signal::SpiWrite { bytes } => seq![
                Seen::Spi { select: self.select, control: self.control, bytes },
            ],
            Signal::I2cWrite { address, bytes } => seq![Seen::I2c { address, bytes }],
        }
    }

    /// The levels after a run of signals, oldest first.
    pub open spec fn run(self, trace: Seq<Signal>) -> Lines
        decreases trace.len(),
    {
        if trace.len() == 0 {
            self
        } else {
            self.run(trace.drop_last()).step(trace.last())
        }
    }

    /// Everything that a run of signals shows to the devices, in order.
    pub open spec fn observe(self, trace: Seq<Signal>) -> Seq<Seen>
        decreases trace.len(),
    {
        if trace.len() == 0 {
            Seq::empty()
        } else {
            self.observe(trace.drop_last()) + self.run(trace.drop_last()).shows(trace.last())
        }
    }
}

/// Running two traces one after the other is running their concatenation,
/// for the levels and for what is seen.
pub proof fn lemma_run_concat(lines: Lines, first: Seq<Signal>, second: Seq<Signal>)
    ensures
        lines.run(first + second) == lines.run(first).run(second),
        lines.observe(first + second) == lines.observe(first) + lines.run(first).observe(second),
    decreases second.len(),
{
    if second.len() == 0 {
        assert(first + second == first);
        assert(lines.observe(first) + Seq::<Seen>::empty() == lines.observe(first));
    } else {
        let whole = first + second;
        assert(whole.drop_last() == first + second.drop_last());
        assert(whole.last() == second.last());
        lemma_run_concat(lines, first, second.drop_last());
        let mid = lines.run(first);
        assert(lines.observe(whole) == (lines.observe(first) + mid.observe(second.drop_last()))
            + mid.run(second.drop_last()).shows(second.last()));
        assert((lines.observe(first) + mid.observe(second.drop_last())) + mid.run(
            second.drop_last(),
        ).shows(second.last()) == lines.observe(first) + (mid.observe(second.drop_last())
            + mid.run(second.drop_last()).shows(second.last())));
    }
}

/// Levels and sight after a trace of exactly one signal.
pub proof fn lemma_run_one(lines: Lines, signal: Signal)
    ensures
        lines.run(seq![signal]) == lines.step(signal),
        lines.observe(seq![signal]) == lines.shows(signal),
{
    let trace = seq![signal];
    assert(trace.drop_last() == Seq::<Signal>::empty());
    assert(trace.last() == signal);
    assert(lines.run(trace.drop_last()) == lines);
    assert(lines.observe(trace.drop_last()) == Seq::<Seen>::empty());
    assert(Seq::<Seen>::empty() + lines.shows(signal) == lines.shows(signal));
}

} // verus!
