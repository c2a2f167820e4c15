//! Serialises the transactions of every device onto the one physical bus.
//!
//! The arbiter owns the bus: it alone decides which chip-select is active
//! and at which level the shared control line stands. A device gets the bus
//! by [`BusArbiter::acquire`], which closes whatever bracket was open
//! before it opens the new one, so that two brackets never overlap. The
//! arbiter performs nothing itself: each operation returns the
//! [`WireOp`]s that the caller must perform, in order, before it asks for
//! the next.

use crate::wire::{Level, Lines, Signal, WireOp};
use vstd::prelude::*;
use vstd::slice::slice_to_vec;

verus! {

/// Why a transaction on the bus did not take place or did not succeed.
#[derive(Clone, Copy, Debug, PartialEq, Eq, Structural)]
pub enum BusError {
    /// The addressed device did not acknowledge. Reported by the hardware.
    NotAcknowledged,
    /// The bus hardware was busy. Reported by the hardware.
    Busy,
    /// The bus hardware failed. Reported by the hardware.
    Fault,
    /// The selector names no device that this bus can reach.
    NoSuchDevice,
    /// The device does not hold the bus.
    NotSelected,
}

/// How one device on the bus is told apart from its siblings.
#[derive(Clone, Copy, Debug, PartialEq, Eq, Structural)]
pub enum DeviceSelector {
    /// A device that answers to a seven-bit address.
    Address { address: u8 },
    /// A device with a chip-select line of its own, together with the level
    /// that the shared control line takes when the device is selected.
    ChipSelect { line: u8, control: Level },
}

impl DeviceSelector {
    /// Both selectors name the same device, whatever control level they ask for.
    pub open spec fn spec_same_device(self, other: DeviceSelector) -> bool {
        match (self, other) {
            (DeviceSelector::Address { address: a }, DeviceSelector::Address { address: b }) => a
                == b,
            (
                DeviceSelector::ChipSelect { line: a, .. },
                DeviceSelector::ChipSelect { line: b, .. },
            ) => a == b,
            _ => false,
        }
    }

    /// Both selectors name the same device, whatever control level they ask for.
    #[verifier::when_used_as_spec(spec_same_device)]
    pub fn same_device(self, other: DeviceSelector) -> (same: bool)
        ensures
            same == self.spec_same_device(other),
    {
        match (self, other) {
            (DeviceSelector::Address { address: a }, DeviceSelector::Address { address: b }) => a
                == b,
            (
                DeviceSelector::ChipSelect { line: a, .. },
                DeviceSelector::ChipSelect { line: b, .. },
            ) => a == b,
            _ => false,
        }
    }

    /// The chip-select line of the device, if it has one.
    pub open spec fn spec_line(self) -> Option<u8> {
        match self {
            DeviceSelector::Address { .. } => None,
            DeviceSelector::ChipSelect { line, .. } => Some(line),
        }
    }

    /// The chip-select line of the device, if it has one.
    #[verifier::when_used_as_spec(spec_line)]
    pub fn line(self) -> (line: Option<u8>)
        ensures
            line == self.spec_line(),
    {
        match self {
            DeviceSelector::Address { .. } => None,
            DeviceSelector::ChipSelect { line, .. } => Some(line),
        }
    }
}

/// The signals that release the chip-selects `0..count` in rising order,
/// leaving out the line `keep`.
pub open spec fn release_signals(count: nat, keep: Option<u8>) -> Seq<Signal>
    decreases count,
{
    if count == 0 {
        Seq::empty()
    } else {
        let line = (count - 1) as u8;
        let before = release_signals((count - 1) as nat, keep);
        if keep == Some(line) {
            before
        } else {
            before.push(Signal::ChipSelect { line, level: Level::High })
        }
    }
}

/// What an arbiter keeps, as a mathematical value.
pub struct ArbiterState {
    /// Number of chip-select lines. A bus without any is an addressed bus.
    pub lines: u8,
    /// The device whose bracket is open, as it was acquired.
    pub holder: Option<DeviceSelector>,
    /// Level of the shared control line.
    pub control: Level,
}

impl ArbiterState {
    /// The bus can reach the device that `selector` names.
    pub open spec fn accepts(self, selector: DeviceSelector) -> bool {
        match selector {
            DeviceSelector::Address { address } => self.lines == 0 && address < 0x80,
            DeviceSelector::ChipSelect { line, .. } => line < self.lines,
        }
    }

    /// The holder, if there is one, is a device of this bus.
    pub open spec fn wf(self) -> bool {
        self.holder matches Some(holder) ==> self.accepts(holder)
    }

    /// The device that `selector` names has its bracket open.
    pub open spec fn holds(self, selector: DeviceSelector) -> bool {
        self.holder matches Some(holder) && holder.spec_same_device(selector)
    }

    /// The chip-select line that is active, if any.
    pub open spec fn active_line(self) -> Option<u8> {
        match self.holder {
            Some(holder) => holder.spec_line(),
            None => None,
        }
    }

    /// The levels that the lines have when every returned operation has
    /// been performed.
    pub open spec fn wire(self) -> Lines {
        match self.active_line() {
            Some(line) => Lines::only(self.lines as nat, line, self.control),
            None => Lines::idle(self.lines as nat, self.control),
        }
    }

    /// Signals of a reset: every chip-select released, control line low.
    pub open spec fn reset_signals(self) -> Seq<Signal> {
        release_signals(self.lines as nat, None).push(Signal::Control { level: Level::Low })
    }

    /// State after a reset.
    pub open spec fn after_reset(self) -> ArbiterState {
        ArbiterState { holder: None, control: Level::Low, ..self }
    }

    /// Signals that open the bracket of `selector`: for a chip-select
    /// device every sibling is released, then its own line is asserted, then
    /// the control line is driven as the selector asks. An addressed device
    /// needs none.
    pub open spec fn acquire_signals(self, selector: DeviceSelector) -> Seq<Signal> {
        match selector {
            DeviceSelector::Address { .. } => Seq::empty(),
            DeviceSelector::ChipSelect { line, control } => release_signals(
                self.lines as nat,
                Some(line),
            ).push(Signal::ChipSelect { line, level: Level::Low }).push(
                Signal::Control { level: control },
            ),
        }
    }

    /// State after the bracket of `selector` was opened.
    pub open spec fn after_acquire(self, selector: DeviceSelector) -> ArbiterState {
        ArbiterState {
            holder: Some(selector),
            control: match selector {
                DeviceSelector::Address { .. } => self.control,
                DeviceSelector::ChipSelect { control, .. } => control,
            },
            ..self
        }
    }

    /// The one signal that carries `bytes` to the device of `selector`.
    pub open spec fn write_signals(selector: DeviceSelector, bytes: Seq<u8>) -> Seq<Signal> {
        match selector {
            DeviceSelector::Address { address } => seq![Signal::I2cWrite { address, bytes }],
            DeviceSelector::ChipSelect { .. } => seq![Signal::SpiWrite { bytes }],
        }
    }

    /// Signals of one whole transaction with the device of `selector`:
    /// its bracket is opened, `bytes` are written, the bracket is closed.
    pub open spec fn transact_signals(self, selector: DeviceSelector, bytes: Seq<u8>) -> Seq<
        Signal,
    > {
        self.acquire_signals(selector) + Self::write_signals(selector, bytes)
            + self.after_acquire(selector).release_all()
    }

    /// State after one whole transaction with the device of `selector`.
    pub open spec fn after_transact(self, selector: DeviceSelector) -> ArbiterState {
        self.after_acquire(selector).after_release()
    }

    /// State after the control line was driven to `level`.
    pub open spec fn after_control(self, level: Level) -> ArbiterState {
        ArbiterState { control: level, ..self }
    }

    /// Signals that close the open bracket: every chip-select released.
    pub open spec fn release_all(self) -> Seq<Signal> {
        release_signals(self.lines as nat, None)
    }

    /// State after the open bracket was closed.
    pub open spec fn after_release(self) -> ArbiterState {
        ArbiterState { holder: None, ..self }
    }
}

/// What [`BusArbiter::acquire`] grants: the device that now holds the bus and
/// the operations that open its bracket on the lines.
#[derive(Debug)]
pub struct TransactionHandle {
    pub selector: DeviceSelector,
    pub ops: Vec<WireOp>,
}

/// Handle of one device on the bus, made by [`BusArbiter::proxy`]. It
/// carries the selector under which the device asks for the bus.
#[derive(Clone, Copy, Debug, PartialEq, Eq, Structural)]
pub struct BusProxy {
    selector: DeviceSelector,
}

impl View for BusProxy {
    type V = DeviceSelector;

    closed spec fn view(&self) -> DeviceSelector {
        self.selector
    }
}

impl BusProxy {
    /// The selector of the device.
    pub fn selector(&self) -> (selector: DeviceSelector)
        ensures
            selector == self@,
    {
        self.selector
    }
}

/// Owner of one physical bus and of its shared control line.
#[derive(Debug)]
pub struct BusArbiter {
    lines: u8,
    holder: Option<DeviceSelector>,
    control: Level,
}

impl View for BusArbiter {
    type V = ArbiterState;

    closed spec fn view(&self) -> ArbiterState {
        ArbiterState { lines: self.lines, holder: self.holder, control: self.control }
    }
}

/// Operations that release the chip-selects `0..lines`, leaving out `keep`.
fn release_ops(lines: u8, keep: Option<u8>) -> (ops: Vec<WireOp>)
    ensures
        ops.deep_view() == release_signals(lines as nat, keep),
{
    let mut ops: Vec<WireOp> = Vec::new();
    let mut line: u8 = 0;
    assert(ops.deep_view() =~= release_signals(0, keep));
    while line < lines
        invariant
            line <= lines,
            ops.deep_view() == release_signals(line as nat, keep),
        decreases lines - line,
    {
        let kept = match keep {
            Some(k) => k == line,
            None => false,
        };
        if !kept {
            let ghost before = ops.deep_view();
            ops.push(WireOp::ChipSelect { line, level: Level::High });
            assert(ops.deep_view() =~= before.push(
                Signal::ChipSelect { line, level: Level::High },
            ));
        }
        line = line + 1;
    }
    ops
}

impl BusArbiter {
    #[verifier::type_invariant]
    spec fn inv(self) -> bool {
        self@.wf()
    }

    /// An arbiter for a bus with `lines` chip-select lines, numbered from
    /// zero, and no bracket open. With `lines == 0` the bus is an addressed
    /// one. Nothing is known of the physical lines until the operations of
    /// [`BusArbiter::reset`] have been performed.
    pub fn new(lines: u8) -> (arbiter: BusArbiter)
        ensures
            arbiter@ == (ArbiterState { lines, holder: None, control: Level::Low }),
            arbiter@.wf(),
    {
        BusArbiter { lines, holder: None, control: Level::Low }
    }

    /// Brings the lines to the safe state, whatever their levels were:
    /// every chip-select released, the control line low.
    pub fn reset(&mut self) -> (ops: Vec<WireOp>)
        ensures
            ops.deep_view() == old(self)@.reset_signals(),
            final(self)@ == old(self)@.after_reset(),
    {
        let mut ops = release_ops(self.lines, None);
        let ghost before = ops.deep_view();
        ops.push(WireOp::Control { level: Level::Low });
        assert(ops.deep_view() =~= before.push(Signal::Control { level: Level::Low }));
        self.holder = None;
        self.control = Level::Low;
        ops
    }

    /// Number of chip-select lines of the bus.
    pub fn lines(&self) -> (lines: u8)
        ensures
            lines == self@.lines,
    {
        self.lines
    }

    /// Level of the shared control line.
    pub fn control(&self) -> (level: Level)
        ensures
            level == self@.control,
    {
        self.control
    }

    /// The device whose bracket is open, as it was acquired. It is always
    /// a device of this bus.
    pub fn holder(&self) -> (holder: Option<DeviceSelector>)
        ensures
            holder == self@.holder,
            self@.wf(),
    {
        proof {
            use_type_invariant(self);
        }
        self.holder
    }

    /// Whether the bus can reach the device that `selector` names.
    pub fn accepts(&self, selector: DeviceSelector) -> (accepted: bool)
        ensures
            accepted == self@.accepts(selector),
    {
        match selector {
            DeviceSelector::Address { address } => self.lines == 0 && address < 0x80,
            DeviceSelector::ChipSelect { line, .. } => line < self.lines,
        }
    }

    /// A handle for the device that `selector` names. Fails with
    /// `NoSuchDevice` exactly when the bus cannot reach such a device.
    pub fn proxy(&self, selector: DeviceSelector) -> (made: Result<BusProxy, BusError>)
        ensures
            made is Ok <==> self@.accepts(selector),
            made matches Ok(proxy) ==> proxy@ == selector,
            made matches Err(error) ==> error == BusError::NoSuchDevice,
    {
        if self.accepts(selector) {
            Ok(BusProxy { selector })
        } else {
            Err(BusError::NoSuchDevice)
        }
    }

    /// Whether the device that `selector` names has its bracket open.
    pub fn holds(&self, selector: DeviceSelector) -> (held: bool)
        ensures
            held == self@.holds(selector),
    {
        match self.holder {
            Some(holder) => holder.same_device(selector),
            None => false,
        }
    }

    /// Opens the bracket of the device that `selector` names, closing the
    /// one that was open. Fails with `NoSuchDevice`, and changes nothing,
    /// exactly when the bus cannot reach the device.
    pub fn acquire(&mut self, selector: DeviceSelector) -> (granted: Result<
        TransactionHandle,
        BusError,
    >)
        ensures
            granted is Ok <==> old(self)@.accepts(selector),
            granted matches Ok(handle) ==> {
                &&& handle.selector == selector
                &&& handle.ops.deep_view() == old(self)@.acquire_signals(selector)
                &&& final(self)@ == old(self)@.after_acquire(selector)
            },
            granted matches Err(error) ==> {
                &&& error == BusError::NoSuchDevice
                &&& final(self)@ == old(self)@
            },
    {
        if !self.accepts(selector) {
            return Err(BusError::NoSuchDevice);
        }
        match selector {
            DeviceSelector::Address { .. } => {
                let ops: Vec<WireOp> = Vec::new();
                assert(ops.deep_view() =~= Seq::<Signal>::empty());
                self.holder = Some(selector);
                Ok(TransactionHandle { selector, ops })
            },
            DeviceSelector::ChipSelect { line, control } => {
                let mut ops = release_ops(self.lines, Some(line));
                let ghost released = ops.deep_view();
                ops.push(WireOp::ChipSelect { line, level: Level::Low });
                ops.push(WireOp::Control { level: control });
                assert(ops.deep_view() =~= released.push(
                    Signal::ChipSelect { line, level: Level::Low },
                ).push(Signal::Control { level: control }));
                self.holder = Some(selector);
                self.control = control;
                Ok(TransactionHandle { selector, ops })
            },
        }
    }

    /// Carries `bytes` to the device that `selector` names. Fails with
    /// `NotSelected` exactly when that device does not hold the bus.
    pub fn write(&self, selector: DeviceSelector, bytes: &[u8]) -> (sent: Result<
        Vec<WireOp>,
        BusError,
    >)
        ensures
            sent is Ok <==> self@.holds(selector),
            sent matches Ok(ops) ==> ops.deep_view() == ArbiterState::write_signals(
                selector,
                bytes@,
            ),
            sent matches Err(error) ==> error == BusError::NotSelected,
    {
        if !self.holds(selector) {
            return Err(BusError::NotSelected);
        }
        let payload = slice_to_vec(bytes);
        let op = match selector {
            DeviceSelector::Address { address } => WireOp::I2cWrite { address, bytes: payload },
            DeviceSelector::ChipSelect { .. } => WireOp::SpiWrite { bytes: payload },
        };
        let mut ops: Vec<WireOp> = Vec::new();
        ops.push(op);
        assert(ops.deep_view() =~= ArbiterState::write_signals(selector, bytes@));
        Ok(ops)
    }

    /// Drives the shared control line to `level` on behalf of the device on
    /// chip-select `line`. Fails, and changes nothing, exactly when that
    /// device does not hold the bus.
    pub fn set_control(&mut self, line: u8, level: Level) -> (driven: Result<Vec<WireOp>, ()>)
        ensures
            driven is Ok <==> old(self)@.active_line() == Some(line),
            driven matches Ok(ops) ==> {
                &&& ops.deep_view() == seq![Signal::Control { level }]
                &&& final(self)@ == old(self)@.after_control(level)
            },
            driven is Err ==> final(self)@ == old(self)@,
    {
        proof {
            use_type_invariant(&*self);
        }
        let active = match self.holder {
            Some(holder) => holder.line(),
            None => None,
        };
        let held = match active {
            Some(active) => active == line,
            None => false,
        };
        if held {
            let mut ops: Vec<WireOp> = Vec::new();
            ops.push(WireOp::Control { level });
            assert(ops.deep_view() =~= seq![Signal::Control { level }]);
            self.control = level;
            Ok(ops)
        } else {
            Err(())
        }
    }

    /// Closes the bracket of the device that `selector` names, if it is the
    /// open one: every chip-select is released. Does nothing for a device
    /// that does not hold the bus.
    pub fn release(&mut self, selector: DeviceSelector) -> (ops: Vec<WireOp>)
        ensures
            old(self)@.holds(selector) ==> {
                &&& ops.deep_view() == old(self)@.release_all()
                &&& final(self)@ == old(self)@.after_release()
            },
            !old(self)@.holds(selector) ==> {
                &&& ops.deep_view() == Seq::<Signal>::empty()
                &&& final(self)@ == old(self)@
            },
    {
        if self.holds(selector) {
            let ops = release_ops(self.lines, None);
            self.holder = None;
            ops
        } else {
            let ops: Vec<WireOp> = Vec::new();
            assert(ops.deep_view() =~= Seq::<Signal>::empty());
            ops
        }
    }

    /// One whole transaction: opens the bracket of the device that
    /// `selector` names, writes `bytes` to it and closes the bracket again,
    /// so that no chip-select is left active. Fails with `NoSuchDevice`, and
    /// changes nothing, exactly when the bus cannot reach the device.
    pub fn transact(&mut self, selector: DeviceSelector, bytes: &[u8]) -> (sent: Result<
        Vec<WireOp>,
        BusError,
    >)
        ensures
            sent is Ok <==> old(self)@.accepts(selector),
            sent matches Ok(ops) ==> {
                &&& ops.deep_view() == old(self)@.transact_signals(selector, bytes@)
                &&& final(self)@ == old(self)@.after_transact(selector)
            },
            sent matches Err(error) ==> {
                &&& error == BusError::NoSuchDevice
                &&& final(self)@ == old(self)@
            },
    {
        let mut ops = match self.acquire(selector) {
            Ok(handle) => handle.ops,
            Err(error) => {
                return Err(error);
            },
        };
        let ghost opened = ops.deep_view();
        let mut written = match self.write(selector, bytes) {
            Ok(written) => written,
            Err(error) => {
                // Not reached: the device has just been given the bus.
                return Err(error);
            },
        };
        let ghost sent = written.deep_view();
        let mut closed = self.release(selector);
        let ghost released = closed.deep_view();
        ops.append(&mut written);
        ops.append(&mut closed);
        assert(ops.deep_view() =~= opened + sent + released);
        Ok(ops)
    }

    /// Takes the verdict of the hardware on the operations last returned.
    ///
    /// The verdict is handed back unchanged for the caller to deal with. On
    /// a failure the open bracket is closed and the operations that release
    /// every chip-select are returned with it; nothing is sent again.
    pub fn complete(&mut self, outcome: Result<(), BusError>) -> (settled: (
        Result<(), BusError>,
        Vec<WireOp>,
    ))
        ensures
            settled.0 == outcome,
            outcome is Ok ==> {
                &&& settled.1.deep_view() == Seq::<Signal>::empty()
                &&& final(self)@ == old(self)@
            },
            outcome is Err ==> {
                &&& settled.1.deep_view() == old(self)@.release_all()
                &&& final(self)@ == old(self)@.after_release()
            },
    {
        match outcome {
            Ok(()) => {
                let ops: Vec<WireOp> = Vec::new();
                assert(ops.deep_view() =~= Seq::<Signal>::empty());
                (outcome, ops)
            },
            Err(_) => {
                let ops = release_ops(self.lines, None);
                self.holder = None;
                (outcome, ops)
            },
        }
    }
}

} // verus!
