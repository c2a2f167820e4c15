use display_bus::arbiter::{BusArbiter, BusError, DeviceSelector};
use display_bus::shared_pin::SharedPin;
use display_bus::sim::{Sighting, SimBus};
use display_bus::wire::{Level, WireOp};

const LOW: Level = Level::Low;
const HIGH: Level = Level::High;

fn line(line: u8, control: Level) -> DeviceSelector {
    DeviceSelector::ChipSelect { line, control }
}

fn address(address: u8) -> DeviceSelector {
    DeviceSelector::Address { address }
}

fn cs(line: u8, level: Level) -> WireOp {
    WireOp::ChipSelect { line, level }
}

fn dc(level: Level) -> WireOp {
    WireOp::Control { level }
}

/// An arbiter for `lines` chip-selects and a simulated bus in the state
/// that a reset leaves.
fn spi(lines: u8) -> (BusArbiter, SimBus) {
    (BusArbiter::new(lines), SimBus::new(vec![HIGH; lines as usize], LOW))
}

#[test]
fn new_arbiter_holds_nothing() {
    let arbiter = BusArbiter::new(2);
    assert_eq!(arbiter.lines(), 2);
    assert_eq!(arbiter.holder(), None);
    assert_eq!(arbiter.control(), LOW);
    assert!(!arbiter.holds(line(0, LOW)));
}

#[test]
fn reset_releases_every_line_and_lowers_control() {
    let mut arbiter = BusArbiter::new(3);
    assert_eq!(arbiter.reset(), vec![cs(0, HIGH), cs(1, HIGH), cs(2, HIGH), dc(LOW)]);
    assert_eq!(arbiter.holder(), None);
    assert_eq!(arbiter.control(), LOW);
}

#[test]
fn reset_brings_any_levels_to_the_safe_state() {
    let mut arbiter = BusArbiter::new(3);
    let mut bus = SimBus::new(vec![LOW, HIGH, LOW], HIGH);
    bus.perform_all(&arbiter.reset());
    assert_eq!(bus.select(), &vec![HIGH, HIGH, HIGH]);
    assert_eq!(bus.control(), LOW);
    assert_eq!(
        bus.seen(),
        &vec![Sighting::Released { line: 0 }, Sighting::Released { line: 2 }]
    );
}

#[test]
fn reset_closes_an_open_bracket() {
    let (mut arbiter, _) = spi(2);
    arbiter.acquire(line(1, HIGH)).unwrap();
    arbiter.reset();
    assert_eq!(arbiter.holder(), None);
    assert_eq!(arbiter.control(), LOW);
}

#[test]
fn serial_bus_accepts_its_lines_only() {
    let arbiter = BusArbiter::new(2);
    assert!(arbiter.accepts(line(0, LOW)));
    assert!(arbiter.accepts(line(1, HIGH)));
    assert!(!arbiter.accepts(line(2, LOW)));
    assert!(!arbiter.accepts(address(0x3C)));
}

#[test]
fn addressed_bus_accepts_seven_bit_addresses_only() {
    let arbiter = BusArbiter::new(0);
    assert!(arbiter.accepts(address(0x00)));
    assert!(arbiter.accepts(address(0x3C)));
    assert!(arbiter.accepts(address(0x7F)));
    assert!(!arbiter.accepts(address(0x80)));
    assert!(!arbiter.accepts(address(0xFF)));
    assert!(!arbiter.accepts(line(0, LOW)));
}

#[test]
fn proxy_is_made_for_a_device_of_the_bus() {
    let arbiter = BusArbiter::new(2);
    assert_eq!(arbiter.proxy(line(1, HIGH)).unwrap().selector(), line(1, HIGH));
    assert_eq!(arbiter.proxy(line(2, HIGH)), Err(BusError::NoSuchDevice));
    assert_eq!(arbiter.proxy(address(0x3C)), Err(BusError::NoSuchDevice));
}

#[test]
fn same_device_ignores_the_control_level() {
    assert!(line(1, LOW).same_device(line(1, HIGH)));
    assert!(!line(1, LOW).same_device(line(0, LOW)));
    assert!(address(0x3C).same_device(address(0x3C)));
    assert!(!address(0x3C).same_device(address(0x3D)));
    assert!(!address(1).same_device(line(1, LOW)));
    assert_eq!(line(4, LOW).line(), Some(4));
    assert_eq!(address(4).line(), None);
}

#[test]
fn acquire_releases_siblings_then_asserts_then_drives_control() {
    let mut arbiter = BusArbiter::new(3);
    let handle = arbiter.acquire(line(1, HIGH)).unwrap();
    assert_eq!(handle.selector, line(1, HIGH));
    assert_eq!(handle.ops, vec![cs(0, HIGH), cs(2, HIGH), cs(1, LOW), dc(HIGH)]);
    assert_eq!(arbiter.holder(), Some(line(1, HIGH)));
    assert_eq!(arbiter.control(), HIGH);
    assert!(arbiter.holds(line(1, LOW)));
    assert!(!arbiter.holds(line(0, LOW)));
}

#[test]
fn acquire_of_an_unknown_device_changes_nothing() {
    let mut arbiter = BusArbiter::new(2);
    arbiter.acquire(line(0, HIGH)).unwrap();
    let refused = arbiter.acquire(line(2, LOW));
    assert_eq!(refused.unwrap_err(), BusError::NoSuchDevice);
    assert_eq!(arbiter.holder(), Some(line(0, HIGH)));
    assert_eq!(arbiter.control(), HIGH);
    assert_eq!(arbiter.acquire(address(0x3C)).unwrap_err(), BusError::NoSuchDevice);
}

#[test]
fn acquire_on_an_addressed_bus_needs_no_operation() {
    let mut arbiter = BusArbiter::new(0);
    let handle = arbiter.acquire(address(0x3C)).unwrap();
    assert_eq!(handle.ops, Vec::<WireOp>::new());
    assert!(arbiter.holds(address(0x3C)));
    assert!(!arbiter.holds(address(0x3D)));
}

#[test]
fn write_goes_to_the_holder_only() {
    let mut arbiter = BusArbiter::new(2);
    assert_eq!(arbiter.write(line(0, LOW), &[1, 2]), Err(BusError::NotSelected));
    arbiter.acquire(line(0, LOW)).unwrap();
    assert_eq!(
        arbiter.write(line(0, LOW), &[1, 2]),
        Ok(vec![WireOp::SpiWrite { bytes: vec![1, 2] }])
    );
    assert_eq!(arbiter.write(line(1, LOW), &[3]), Err(BusError::NotSelected));
}

#[test]
fn write_to_an_address_names_the_address() {
    let mut arbiter = BusArbiter::new(0);
    arbiter.acquire(address(0x3D)).unwrap();
    assert_eq!(
        arbiter.write(address(0x3D), &[0x40, 0xFF]),
        Ok(vec![WireOp::I2cWrite { address: 0x3D, bytes: vec![0x40, 0xFF] }])
    );
    assert_eq!(arbiter.write(address(0x3C), &[0]), Err(BusError::NotSelected));
}

#[test]
fn empty_write_is_still_one_write() {
    let mut arbiter = BusArbiter::new(1);
    arbiter.acquire(line(0, LOW)).unwrap();
    assert_eq!(arbiter.write(line(0, LOW), &[]), Ok(vec![WireOp::SpiWrite { bytes: vec![] }]));
}

#[test]
fn release_raises_every_line() {
    let mut arbiter = BusArbiter::new(2);
    arbiter.acquire(line(1, HIGH)).unwrap();
    assert_eq!(arbiter.release(line(1, LOW)), vec![cs(0, HIGH), cs(1, HIGH)]);
    assert_eq!(arbiter.holder(), None);
    // The control line is left where the holder put it.
    assert_eq!(arbiter.control(), HIGH);
}

#[test]
fn release_by_a_stranger_does_nothing() {
    let mut arbiter = BusArbiter::new(2);
    arbiter.acquire(line(1, HIGH)).unwrap();
    assert_eq!(arbiter.release(line(0, HIGH)), Vec::<WireOp>::new());
    assert_eq!(arbiter.holder(), Some(line(1, HIGH)));
    let mut idle = BusArbiter::new(2);
    assert_eq!(idle.release(line(0, HIGH)), Vec::<WireOp>::new());
}

#[test]
fn complete_hands_success_back_and_keeps_the_bracket() {
    let mut arbiter = BusArbiter::new(2);
    arbiter.acquire(line(0, LOW)).unwrap();
    let (verdict, ops) = arbiter.complete(Ok(()));
    assert_eq!(verdict, Ok(()));
    assert_eq!(ops, Vec::<WireOp>::new());
    assert!(arbiter.holds(line(0, LOW)));
}

#[test]
fn complete_surfaces_each_hardware_error_and_closes_the_bracket() {
    for error in [BusError::NotAcknowledged, BusError::Busy, BusError::Fault] {
        let mut arbiter = BusArbiter::new(2);
        arbiter.acquire(line(0, LOW)).unwrap();
        let (verdict, ops) = arbiter.complete(Err(error));
        assert_eq!(verdict, Err(error));
        // Only chip-selects are driven: nothing is sent again.
        assert_eq!(ops, vec![cs(0, HIGH), cs(1, HIGH)]);
        assert_eq!(arbiter.holder(), None);
        assert_eq!(arbiter.write(line(0, LOW), &[1]), Err(BusError::NotSelected));
    }
}

#[test]
fn shared_pin_drives_the_line_for_the_holder() {
    let mut arbiter = BusArbiter::new(2);
    arbiter.acquire(line(0, LOW)).unwrap();
    let pin = SharedPin::new(0);
    assert_eq!(pin.line(), 0);
    assert_eq!(pin.set_high(&mut arbiter), Ok(vec![dc(HIGH)]));
    assert_eq!(arbiter.control(), HIGH);
    assert_eq!(pin.set_low(&mut arbiter), Ok(vec![dc(LOW)]));
    assert_eq!(arbiter.control(), LOW);
}

#[test]
fn shared_pin_is_refused_outside_the_bracket() {
    let mut arbiter = BusArbiter::new(2);
    let first = SharedPin::new(0);
    let second = SharedPin::new(1);
    // Nobody holds the bus.
    assert_eq!(first.set_high(&mut arbiter), Err(()));
    arbiter.acquire(line(0, LOW)).unwrap();
    // The sibling holds it.
    assert_eq!(second.set_high(&mut arbiter), Err(()));
    assert_eq!(second.set_low(&mut arbiter), Err(()));
    assert_eq!(arbiter.control(), LOW);
}

#[test]
fn shared_pin_has_no_say_on_an_addressed_bus() {
    let mut arbiter = BusArbiter::new(0);
    arbiter.acquire(address(0x3C)).unwrap();
    assert_eq!(SharedPin::new(0).set_high(&mut arbiter), Err(()));
    assert_eq!(arbiter.set_control(0, HIGH), Err(()));
}

#[test]
fn simulated_bus_ignores_a_line_it_does_not_have() {
    let mut bus = SimBus::new(vec![HIGH, HIGH], LOW);
    bus.perform(&cs(2, LOW));
    assert_eq!(bus.select(), &vec![HIGH, HIGH]);
    assert_eq!(bus.seen(), &Vec::<Sighting>::new());
}

#[test]
fn simulated_bus_records_edges_not_levels() {
    let mut bus = SimBus::new(vec![HIGH], LOW);
    bus.perform(&cs(0, HIGH));
    bus.perform(&cs(0, LOW));
    bus.perform(&cs(0, LOW));
    bus.perform(&dc(HIGH));
    bus.perform(&cs(0, HIGH));
    assert_eq!(
        bus.seen(),
        &vec![Sighting::Asserted { line: 0 }, Sighting::Released { line: 0 }]
    );
    assert_eq!(bus.control(), HIGH);
}

#[test]
fn simulated_bus_samples_the_levels_at_each_write() {
    let mut bus = SimBus::new(vec![HIGH, LOW], LOW);
    bus.perform(&WireOp::SpiWrite { bytes: vec![9] });
    bus.perform(&dc(HIGH));
    bus.perform(&WireOp::SpiWrite { bytes: vec![8, 7] });
    bus.perform(&WireOp::I2cWrite { address: 0x3C, bytes: vec![6] });
    assert_eq!(
        bus.seen(),
        &vec![
            Sighting::Spi { select: vec![HIGH, LOW], control: LOW, bytes: vec![9] },
            Sighting::Spi { select: vec![HIGH, LOW], control: HIGH, bytes: vec![8, 7] },
            Sighting::I2c { address: 0x3C, bytes: vec![6] },
        ]
    );
}

#[test]
fn arbiter_and_lines_agree_after_every_operation() {
    let (mut arbiter, mut bus) = spi(3);
    let expect = |arbiter: &BusArbiter, bus: &SimBus| {
        let active = arbiter.holder().and_then(|holder| holder.line());
        for (i, level) in bus.select().iter().enumerate() {
            assert_eq!(*level == LOW, active == Some(i as u8));
        }
        assert_eq!(bus.control(), arbiter.control());
    };
    expect(&arbiter, &bus);
    bus.perform_all(&arbiter.acquire(line(2, HIGH)).unwrap().ops);
    expect(&arbiter, &bus);
    bus.perform_all(&arbiter.set_control(2, LOW).unwrap());
    expect(&arbiter, &bus);
    bus.perform_all(&arbiter.acquire(line(0, HIGH)).unwrap().ops);
    expect(&arbiter, &bus);
    bus.perform_all(&arbiter.write(line(0, HIGH), &[1, 2, 3]).unwrap());
    expect(&arbiter, &bus);
    bus.perform_all(&arbiter.complete(Err(BusError::Fault)).1);
    expect(&arbiter, &bus);
    bus.perform_all(&arbiter.acquire(line(1, LOW)).unwrap().ops);
    expect(&arbiter, &bus);
    bus.perform_all(&arbiter.release(line(1, LOW)));
    expect(&arbiter, &bus);
}

#[test]
fn at_most_one_line_is_active_at_every_write() {
    let (mut arbiter, mut bus) = spi(4);
    for target in [3u8, 0, 2, 2, 1, 3] {
        bus.perform_all(&arbiter.acquire(line(target, LOW)).unwrap().ops);
        bus.perform_all(&arbiter.write(line(target, LOW), &[target]).unwrap());
    }
    for sighting in bus.seen() {
        if let Sighting::Spi { select, bytes, .. } = sighting {
            let active: Vec<usize> =
                (0..select.len()).filter(|i| select[*i] == LOW).collect();
            assert_eq!(active, vec![bytes[0] as usize]);
        }
    }
}

#[test]
fn transaction_is_one_closed_bracket() {
    let (mut arbiter, mut bus) = spi(2);
    let ops = arbiter.transact(line(1, HIGH), &[1, 2, 3]).unwrap();
    assert_eq!(
        ops,
        vec![
            cs(0, HIGH),
            cs(1, LOW),
            dc(HIGH),
            WireOp::SpiWrite { bytes: vec![1, 2, 3] },
            cs(0, HIGH),
            cs(1, HIGH),
        ]
    );
    assert_eq!(arbiter.holder(), None);
    bus.perform_all(&ops);
    assert_eq!(bus.select(), &vec![HIGH, HIGH]);
    assert_eq!(
        bus.seen(),
        &vec![
            Sighting::Asserted { line: 1 },
            Sighting::Spi { select: vec![HIGH, LOW], control: HIGH, bytes: vec![1, 2, 3] },
            Sighting::Released { line: 1 },
        ]
    );
}

#[test]
fn transaction_takes_the_bus_from_its_holder() {
    let (mut arbiter, mut bus) = spi(2);
    bus.perform_all(&arbiter.acquire(line(0, LOW)).unwrap().ops);
    bus.perform_all(&arbiter.transact(line(1, LOW), &[9]).unwrap());
    assert_eq!(arbiter.holder(), None);
    assert_eq!(
        bus.seen(),
        &vec![
            Sighting::Asserted { line: 0 },
            Sighting::Released { line: 0 },
            Sighting::Asserted { line: 1 },
            Sighting::Spi { select: vec![HIGH, LOW], control: LOW, bytes: vec![9] },
            Sighting::Released { line: 1 },
        ]
    );
}

#[test]
fn transaction_on_an_addressed_bus_is_one_write() {
    let mut arbiter = BusArbiter::new(0);
    assert_eq!(
        arbiter.transact(address(0x3C), &[5]),
        Ok(vec![WireOp::I2cWrite { address: 0x3C, bytes: vec![5] }])
    );
    assert_eq!(arbiter.holder(), None);
}

#[test]
fn transaction_with_an_unknown_device_changes_nothing() {
    let mut arbiter = BusArbiter::new(2);
    arbiter.acquire(line(0, LOW)).unwrap();
    assert_eq!(arbiter.transact(line(2, LOW), &[1]), Err(BusError::NoSuchDevice));
    assert_eq!(arbiter.holder(), Some(line(0, LOW)));
}
