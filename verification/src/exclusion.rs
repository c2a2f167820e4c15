//! Laws of the bracket discipline: what the devices see when the
//! operations that the arbiter returns are performed in order.
//!
//! Everything here is stated over [`Lines::run`] and [`Lines::observe`], that
//! is over the physical lines, and proved from the signals that the
//! arbiter's operations return.

use crate::arbiter::{release_signals, ArbiterState, DeviceSelector};
use crate::channel::{ChannelState, FrameFormat};
use crate::wire::{lemma_run_concat, lemma_run_one, Level, Lines, Seen, Signal};
use vstd::prelude::*;

verus! {

/// The chip-select levels `select` after the lines `0..count`, but for
/// `keep`, were released.
pub open spec fn released(select: Seq<Level>, count: nat, keep: Option<u8>) -> Seq<Level> {
    Seq::new(
        select.len(),
        |i: int|
            if i < count && keep != Some(i as u8) {
                Level::High
            } else {
                select[i]
            },
    )
}

/// At most the chip-select `line` is active in `select`.
pub open spec fn at_most_active(select: Seq<Level>, line: Option<u8>) -> bool {
    forall|i: int| 0 <= i < select.len() && line != Some(i as u8) ==> select[i] == Level::High
}

impl ArbiterState {
    /// What the devices see of an acquisition by `selector`: the region of
    /// the previous holder ends, then the region of the new one begins. A
    /// device that already holds the bus sees nothing.
    pub open spec fn acquire_shows(self, selector: DeviceSelector) -> Seq<Seen> {
        match selector {
            DeviceSelector::Address { .. } => Seq::empty(),
            DeviceSelector::ChipSelect { line, .. } => self.release_shows(Some(line)) + (
            if self.active_line() == Some(line) {
                Seq::empty()
            } else {
                seq![Seen::Asserted { line }]
            }),
        }
    }

    /// What the devices see when every chip-select but `keep` is
    /// released: the end of the active region, if there is one.
    pub open spec fn release_shows(self, keep: Option<u8>) -> Seq<Seen> {
        match self.active_line() {
            Some(held) => if keep == Some(held) {
                Seq::empty()
            } else {
                seq![Seen::Released { line: held }]
            },
            None => Seq::empty(),
        }
    }

    /// What the devices see of one write to the device of `selector`.
    pub open spec fn write_shows(self, selector: DeviceSelector, bytes: Seq<u8>) -> Seq<Seen> {
        match selector {
            DeviceSelector::Address { address } => seq![Seen::I2c { address, bytes }],
            DeviceSelector::ChipSelect { .. } => seq![
                Seen::Spi { select: self.wire().select, control: self.control, bytes },
            ],
        }
    }
}

/// Releasing the lines `0..count` but for `keep` raises exactly those and
/// leaves the control line alone.
pub proof fn lemma_release_levels(lines: Lines, count: nat, keep: Option<u8>)
    requires
        count <= 256,
    ensures
        lines.run(release_signals(count, keep)) == (Lines {
            select: released(lines.select, count, keep),
            control: lines.control,
        }),
    decreases count,
{
    let after = lines.run(release_signals(count, keep));
    if count == 0 {
        assert(released(lines.select, count, keep) =~= lines.select);
    } else {
        let line = (count - 1) as u8;
        let before = release_signals((count - 1) as nat, keep);
        lemma_release_levels(lines, (count - 1) as nat, keep);
        if keep == Some(line) {
            assert(released(lines.select, count, keep) =~= released(
                lines.select,
                (count - 1) as nat,
                keep,
            ));
        } else {
            let signal = Signal::ChipSelect { line, level: Level::High };
            let trace = before.push(signal);
            assert(trace.drop_last() == before);
            assert(trace.last() == signal);
            assert(after.select =~= released(lines.select, count, keep));
        }
    }
}

/// While at most one chip-select is active, releasing the lines `0..count`
/// but for `keep` shows the end of that one region, if the line is among
/// those released, and nothing else.
pub proof fn lemma_release_observed(
    lines: Lines,
    active: Option<u8>,
    count: nat,
    keep: Option<u8>,
)
    requires
        count <= 256,
        at_most_active(lines.select, active),
    ensures
        lines.observe(release_signals(count, keep)) == match active {
            Some(held) => if held < count && held < lines.select.len() && lines.select[held as int]
                == Level::Low && keep != Some(held) {
                seq![Seen::Released { line: held }]
            } else {
                Seq::<Seen>::empty()
            },
            None => Seq::<Seen>::empty(),
        },
    decreases count,
{
    if count > 0 {
        let line = (count - 1) as u8;
        let before = release_signals((count - 1) as nat, keep);
        lemma_release_observed(lines, active, (count - 1) as nat, keep);
        lemma_release_levels(lines, (count - 1) as nat, keep);
        if keep != Some(line) {
            let signal = Signal::ChipSelect { line, level: Level::High };
            let trace = before.push(signal);
            assert(trace.drop_last() == before);
            assert(trace.last() == signal);
            let mid = lines.run(before);
            assert(line < lines.select.len() ==> mid.select[line as int]
                == lines.select[line as int]);
            assert(lines.observe(trace) == lines.observe(before) + mid.shows(signal));
            if active == Some(line) && line < lines.select.len() && lines.select[line as int]
                == Level::Low {
                assert(lines.observe(before) == Seq::<Seen>::empty());
                assert(mid.shows(signal) == seq![Seen::Released { line }]);
                assert(Seq::<Seen>::empty() + seq![Seen::Released { line }] =~= seq![
                    Seen::Released { line },
                ]);
            } else {
                assert(mid.shows(signal) == Seq::<Seen>::empty());
                assert(lines.observe(before) + Seq::<Seen>::empty() =~= lines.observe(before));
            }
        }
    }
}

/// A reset brings lines at any levels to the levels that the arbiter then
/// believes them to have.
pub proof fn lemma_reset_syncs(bus: ArbiterState, lines: Lines)
    requires
        lines.select.len() == bus.lines,
    ensures
        lines.run(bus.reset_signals()) == bus.after_reset().wire(),
{
    let released_all = release_signals(bus.lines as nat, None);
    let signal = Signal::Control { level: Level::Low };
    lemma_release_levels(lines, bus.lines as nat, None);
    assert(bus.reset_signals().drop_last() == released_all);
    assert(bus.reset_signals().last() == signal);
    assert(lines.run(bus.reset_signals()).select =~= bus.after_reset().wire().select);
}

/// The arbiter's picture of the lines has at most the holder's
/// chip-select active, and in a well-formed state that one is active.
pub proof fn lemma_wire_exclusive(bus: ArbiterState)
    ensures
        at_most_active(bus.wire().select, bus.active_line()),
        bus.wire().select.len() == bus.lines,
        bus.wire().control == bus.control,
        bus.wf() ==> match bus.active_line() {
            Some(held) => held < bus.lines && bus.wire().select[held as int] == Level::Low,
            None => true,
        },
{
}

/// Performing the signals of an acquisition takes the lines from the
/// arbiter's picture before it to its picture after it, and shows the
/// devices one region ending and one beginning, at most.
pub proof fn lemma_acquire_syncs(bus: ArbiterState, selector: DeviceSelector)
    requires
        bus.wf(),
        bus.accepts(selector),
    ensures
        bus.after_acquire(selector).wf(),
        bus.after_acquire(selector).holds(selector),
        bus.wire().run(bus.acquire_signals(selector)) == bus.after_acquire(selector).wire(),
        bus.wire().observe(bus.acquire_signals(selector)) == bus.acquire_shows(selector),
{
    let lines = bus.wire();
    let after = bus.after_acquire(selector);
    match selector {
        DeviceSelector::Address { .. } => {
            assert(after.wire().select =~= lines.select);
        },
        DeviceSelector::ChipSelect { line, control } => {
            let releases = release_signals(bus.lines as nat, Some(line));
            let assert_own = Signal::ChipSelect { line, level: Level::Low };
            let drive = Signal::Control { level: control };
            let opened = releases.push(assert_own);
            let trace = opened.push(drive);
            lemma_wire_exclusive(bus);
            lemma_release_levels(lines, bus.lines as nat, Some(line));
            lemma_release_observed(lines, bus.active_line(), bus.lines as nat, Some(line));
            assert(opened.drop_last() == releases);
            assert(opened.last() == assert_own);
            assert(trace.drop_last() == opened);
            assert(trace.last() == drive);
            let quiet = lines.run(releases);
            let asserted = lines.run(opened);
            assert(asserted == quiet.step(assert_own));
            assert(lines.run(trace) == asserted.step(drive));
            assert(lines.run(trace).select =~= after.wire().select);
            assert(lines.observe(releases) == bus.release_shows(Some(line)));
            assert(quiet.select[line as int] == lines.select[line as int]);
            assert(lines.observe(opened) == lines.observe(releases) + quiet.shows(assert_own));
            assert(lines.observe(trace) == lines.observe(opened) + asserted.shows(drive));
            assert(lines.observe(opened) + Seq::<Seen>::empty() =~= lines.observe(opened));
        },
    }
}

/// A write leaves the lines as they are and shows the devices its bytes
/// under the levels of the arbiter's picture.
pub proof fn lemma_write_syncs(bus: ArbiterState, selector: DeviceSelector, bytes: Seq<u8>)
    ensures
        bus.wire().run(ArbiterState::write_signals(selector, bytes)) == bus.wire(),
        bus.wire().observe(ArbiterState::write_signals(selector, bytes)) == bus.write_shows(
            selector,
            bytes,
        ),
{
    match selector {
        DeviceSelector::Address { address } => {
            lemma_run_one(bus.wire(), Signal::I2cWrite { address, bytes });
        },
        DeviceSelector::ChipSelect { .. } => {
            lemma_run_one(bus.wire(), Signal::SpiWrite { bytes });
        },
    }
}

/// Driving the control line changes that line alone and shows the devices
/// nothing until bytes follow.
pub proof fn lemma_control_syncs(bus: ArbiterState, level: Level)
    ensures
        bus.wire().run(seq![Signal::Control { level }]) == bus.after_control(level).wire(),
        bus.wire().observe(seq![Signal::Control { level }]) == Seq::<Seen>::empty(),
{
    lemma_run_one(bus.wire(), Signal::Control { level });
    assert(bus.wire().step(Signal::Control { level }).select =~= bus.after_control(
        level,
    ).wire().select);
}

/// Closing the bracket leaves every chip-select released and shows the
/// devices the end of the holder's region.
pub proof fn lemma_release_syncs(bus: ArbiterState)
    requires
        bus.wf(),
    ensures
        bus.wire().run(bus.release_all()) == bus.after_release().wire(),
        bus.wire().observe(bus.release_all()) == bus.release_shows(None),
{
    lemma_wire_exclusive(bus);
    lemma_release_levels(bus.wire(), bus.lines as nat, None);
    lemma_release_observed(bus.wire(), bus.active_line(), bus.lines as nat, None);
    assert(bus.wire().run(bus.release_all()).select =~= bus.after_release().wire().select);
}

/// One whole transaction on a bus on which nothing is selected leaves
/// nothing selected, and shows the devices one region of the one device
/// with the bytes inside it; on an addressed bus it shows the one write.
pub proof fn lemma_transaction_is_bracketed(
    bus: ArbiterState,
    selector: DeviceSelector,
    bytes: Seq<u8>,
)
    requires
        bus.wf(),
        bus.accepts(selector),
    ensures
        bus.after_transact(selector).holder is None,
        bus.wire().run(bus.transact_signals(selector, bytes)) == bus.after_transact(
            selector,
        ).wire(),
        bus.after_transact(selector).wire().select == Lines::idle(
            bus.lines as nat,
            bus.control,
        ).select,
        bus.wire().observe(bus.transact_signals(selector, bytes)) == bus.acquire_shows(selector)
            + bus.after_acquire(selector).write_shows(selector, bytes) + bus.after_acquire(
            selector,
        ).release_shows(None),
        bus.holder is None ==> bus.wire().observe(bus.transact_signals(selector, bytes))
            == match selector {
            DeviceSelector::Address { address } => seq![Seen::I2c { address, bytes }],
            DeviceSelector::ChipSelect { line, control } => seq![
                Seen::Asserted { line },
                Seen::Spi {
                    select: Lines::only(bus.lines as nat, line, control).select,
                    control,
                    bytes,
                },
                Seen::Released { line },
            ],
        },
{
    let held = bus.after_acquire(selector);
    let open = bus.acquire_signals(selector);
    let write = ArbiterState::write_signals(selector, bytes);
    let close = held.release_all();
    lemma_acquire_syncs(bus, selector);
    lemma_write_syncs(held, selector, bytes);
    lemma_release_syncs(held);
    lemma_run_concat(bus.wire(), open, write);
    lemma_run_concat(bus.wire(), open + write, close);
    if bus.holder is None {
        assert(bus.wire().observe(open + write + close) =~= match selector {
            DeviceSelector::Address { address } => seq![Seen::I2c { address, bytes }],
            DeviceSelector::ChipSelect { line, control } => seq![
                Seen::Asserted { line },
                Seen::Spi {
                    select: Lines::only(bus.lines as nat, line, control).select,
                    control,
                    bytes,
                },
                Seen::Released { line },
            ],
        });
    }
}

/// A flush that is granted leaves the lines as they are, so that a second
/// flush, with no draw between, puts the same bytes on the lines under
/// the same levels: the devices see of the two what they saw of the first,
/// twice.
pub proof fn lemma_flush_twice_shows_the_same(channel: ChannelState, bus: ArbiterState)
    requires
        channel.flush(bus) is Ok,
    ensures
        ({
            let signals = channel.flush(bus)->Ok_0;
            &&& signals == channel.flush_signals()
            &&& bus.wire().run(signals) == bus.wire()
            &&& bus.wire().observe(signals + signals) == bus.wire().observe(signals)
                + bus.wire().observe(signals)
            &&& channel.format != FrameFormat::Direct ==> bus.wire().observe(signals)
                == bus.write_shows(channel.selector, channel.frame)
            &&& channel.format == FrameFormat::Direct ==> bus.wire().observe(signals)
                == Seq::<Seen>::empty()
        }),
{
    let signals = channel.flush_signals();
    if channel.format != FrameFormat::Direct {
        lemma_write_syncs(bus, channel.selector, channel.frame);
    }
    lemma_run_concat(bus.wire(), signals, signals);
}

/// Two devices used one after the other, each selected and then written to,
/// with no deselect between: both writes are granted, and the devices see
/// the first stream whole, then the first region end and the second begin,
/// then the second stream. No byte of one stream lies inside the other, and
/// each stream is seen by its own device alone.
pub proof fn lemma_streams_do_not_interleave(
    bus: ArbiterState,
    first: DeviceSelector,
    first_bytes: Seq<u8>,
    second: DeviceSelector,
    second_bytes: Seq<u8>,
)
    requires
        bus.wf(),
        bus.accepts(first),
        bus.accepts(second),
        !first.spec_same_device(second),
    ensures
        ({
            let bus_first = bus.after_acquire(first);
            let bus_second = bus_first.after_acquire(second);
            let trace = bus.acquire_signals(first) + ArbiterState::write_signals(
                first,
                first_bytes,
            ) + bus_first.acquire_signals(second) + ArbiterState::write_signals(
                second,
                second_bytes,
            );
            &&& bus_first.holds(first)
            &&& bus_second.holds(second)
            &&& bus.wire().run(trace) == bus_second.wire()
            &&& bus.wire().observe(trace) == bus.acquire_shows(first) + bus_first.write_shows(
                first,
                first_bytes,
            ) + bus_first.acquire_shows(second) + bus_second.write_shows(second, second_bytes)
            &&& first matches DeviceSelector::ChipSelect { line: a, control: level_a } ==> second
                matches DeviceSelector::ChipSelect { line: b, control: level_b } ==> {
                &&& bus_first.write_shows(first, first_bytes) == seq![
                    Seen::Spi {
                        select: Lines::only(bus.lines as nat, a, level_a).select,
                        control: level_a,
                        bytes: first_bytes,
                    },
                ]
                &&& bus_first.acquire_shows(second) == seq![
                    Seen::Released { line: a },
                    Seen::Asserted { line: b },
                ]
                &&& bus_second.write_shows(second, second_bytes) == seq![
                    Seen::Spi {
                        select: Lines::only(bus.lines as nat, b, level_b).select,
                        control: level_b,
                        bytes: second_bytes,
                    },
                ]
            }
            &&& first matches DeviceSelector::Address { address: a } ==> second
                matches DeviceSelector::Address { address: b } ==> bus.wire().observe(trace)
                == seq![
                Seen::I2c { address: a, bytes: first_bytes },
                Seen::I2c { address: b, bytes: second_bytes },
            ]
        }),
{
    let bus_first = bus.after_acquire(first);
    let bus_second = bus_first.after_acquire(second);
    let select_first = bus.acquire_signals(first);
    let write_first = ArbiterState::write_signals(first, first_bytes);
    let select_second = bus_first.acquire_signals(second);
    let write_second = ArbiterState::write_signals(second, second_bytes);
    let lines = bus.wire();
    lemma_acquire_syncs(bus, first);
    lemma_write_syncs(bus_first, first, first_bytes);
    lemma_acquire_syncs(bus_first, second);
    lemma_write_syncs(bus_second, second, second_bytes);
    lemma_run_concat(lines, select_first, write_first);
    lemma_run_concat(lines, select_first + write_first, select_second);
    lemma_run_concat(lines, select_first + write_first + select_second, write_second);
    match (first, second) {
        (
            DeviceSelector::ChipSelect { line: a, .. },
            DeviceSelector::ChipSelect { line: b, .. },
        ) => {
            assert(bus_first.acquire_shows(second) =~= seq![
                Seen::Released { line: a },
                Seen::Asserted { line: b },
            ]);
        },
        (DeviceSelector::Address { address: a }, DeviceSelector::Address { address: b }) => {
            assert(bus.wire().observe(
                select_first + write_first + select_second + write_second,
            ) =~= seq![
                Seen::I2c { address: a, bytes: first_bytes },
                Seen::I2c { address: b, bytes: second_bytes },
            ]);
        },
        _ => {},
    }
}

/// The control line carries no level over from one device to the next.
///
/// The device on `first` holds the bus, drives the control line to
/// `first_level` and writes. Then `second` is selected, drives the line to
/// `second_level` and writes. The bytes of the first device are seen under
/// `first_level`, those of the second under `second_level`; and had the
/// second device not driven the line at all, its bytes would be seen under
/// the level of its own selector, never under `first_level` left behind.
pub proof fn lemma_control_line_is_not_stale(
    bus: ArbiterState,
    first: u8,
    first_level: Level,
    first_bytes: Seq<u8>,
    second: u8,
    selector_level: Level,
    second_level: Level,
    second_bytes: Seq<u8>,
)
    requires
        bus.wf(),
        bus.active_line() == Some(first),
        second < bus.lines,
        first != second,
    ensures
        ({
            let holder = bus.holder->Some_0;
            let selector = DeviceSelector::ChipSelect { line: second, control: selector_level };
            let toggled = bus.after_control(first_level);
            let switched = toggled.after_acquire(selector);
            let retoggled = switched.after_control(second_level);
            let first_part = seq![Signal::Control { level: first_level }]
                + ArbiterState::write_signals(holder, first_bytes) + toggled.acquire_signals(
                selector,
            );
            let with_toggle = first_part + seq![Signal::Control { level: second_level }]
                + ArbiterState::write_signals(selector, second_bytes);
            let without_toggle = first_part + ArbiterState::write_signals(selector, second_bytes);
            let seen_first = seq![
                Seen::Spi {
                    select: Lines::only(bus.lines as nat, first, first_level).select,
                    control: first_level,
                    bytes: first_bytes,
                },
                Seen::Released { line: first },
                Seen::Asserted { line: second },
            ];
            let select_second = Lines::only(bus.lines as nat, second, second_level).select;
            &&& toggled.active_line() == Some(first)
            &&& switched.active_line() == Some(second)
            &&& bus.wire().observe(with_toggle) == seen_first.push(
                Seen::Spi { select: select_second, control: second_level, bytes: second_bytes },
            )
            &&& bus.wire().observe(without_toggle) == seen_first.push(
                Seen::Spi { select: select_second, control: selector_level, bytes: second_bytes },
            )
        }),
{
    let holder = bus.holder->Some_0;
    let selector = DeviceSelector::ChipSelect { line: second, control: selector_level };
    let toggled = bus.after_control(first_level);
    let switched = toggled.after_acquire(selector);
    let retoggled = switched.after_control(second_level);
    let drive_first = seq![Signal::Control { level: first_level }];
    let write_first = ArbiterState::write_signals(holder, first_bytes);
    let select_second = toggled.acquire_signals(selector);
    let drive_second = seq![Signal::Control { level: second_level }];
    let write_second = ArbiterState::write_signals(selector, second_bytes);
    let lines = bus.wire();
    lemma_control_syncs(bus, first_level);
    lemma_write_syncs(toggled, holder, first_bytes);
    lemma_acquire_syncs(toggled, selector);
    lemma_control_syncs(switched, second_level);
    lemma_write_syncs(retoggled, selector, second_bytes);
    lemma_write_syncs(switched, selector, second_bytes);
    lemma_run_concat(lines, drive_first, write_first);
    lemma_run_concat(lines, drive_first + write_first, select_second);
    let first_part = drive_first + write_first + select_second;
    lemma_run_concat(lines, first_part, drive_second);
    lemma_run_concat(lines, first_part + drive_second, write_second);
    lemma_run_concat(lines, first_part, write_second);
    let seen_first = seq![
        Seen::Spi {
            select: Lines::only(bus.lines as nat, first, first_level).select,
            control: first_level,
            bytes: first_bytes,
        },
        Seen::Released { line: first },
        Seen::Asserted { line: second },
    ];
    assert(toggled.wire().select =~= Lines::only(bus.lines as nat, first, first_level).select);
    assert(switched.wire().select =~= Lines::only(bus.lines as nat, second, second_level).select);
    assert(retoggled.wire().select =~= switched.wire().select);
    assert(lines.observe(first_part) =~= seen_first);
    let select_level = Lines::only(bus.lines as nat, second, second_level).select;
    assert(lines.observe(first_part + drive_second + write_second) =~= seen_first.push(
        Seen::Spi { select: select_level, control: second_level, bytes: second_bytes },
    ));
    assert(lines.observe(first_part + write_second) =~= seen_first.push(
        Seen::Spi { select: select_level, control: selector_level, bytes: second_bytes },
    ));
}

} // verus!
