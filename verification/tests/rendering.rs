use core::fmt::Write;

use display_bus::arbiter::{BusArbiter, BusError, DeviceSelector};
use display_bus::channel::{DriverError, FrameFormat, Geometry};
use display_bus::gfx;
use display_bus::gfx::{Baseline, DrawCommand, Font};
use display_bus::gfx_spi;
use display_bus::latch::{Edge, EventLatch, InputSource, Pull, Trigger};
use display_bus::message::{Message, MAX_COUNTER, MESSAGE_CAPACITY};
use display_bus::script::{Asset, Color, Orientation, Step};
use display_bus::sequencer::{
    redraw_title, startup_script, Action, Failure, RenderSequencer,
};
use display_bus::wire::Level;

fn address(address: u8) -> DeviceSelector {
    DeviceSelector::Address { address }
}

fn button() -> EventLatch {
    let mut latch = EventLatch::new(InputSource {
        pin: 2,
        trigger: Trigger::FallingEdge,
        pull: Pull::Up,
    });
    latch.listen(true);
    latch
}

fn text(message: &Message) -> &str {
    core::str::from_utf8(message.as_bytes()).unwrap()
}

#[test]
fn counter_seven_renders_as_yeehaw_7() {
    let message = Message::for_counter(7).unwrap();
    assert_eq!(MESSAGE_CAPACITY, 13);
    assert_eq!(text(&message), "YEEHAW 7");
    assert_eq!(message.len(), 8);
    assert!(message.len() <= MESSAGE_CAPACITY);
}

#[test]
fn counter_renders_in_decimal() {
    assert_eq!(text(&Message::for_counter(0).unwrap()), "YEEHAW 0");
    assert_eq!(text(&Message::for_counter(9).unwrap()), "YEEHAW 9");
    assert_eq!(text(&Message::for_counter(10).unwrap()), "YEEHAW 10");
    assert_eq!(text(&Message::for_counter(1905).unwrap()), "YEEHAW 1905");
    assert_eq!(text(&Message::for_counter(100_000).unwrap()), "YEEHAW 100000");
}

#[test]
fn largest_counter_fills_the_buffer() {
    assert_eq!(MAX_COUNTER, 999_999);
    let message = Message::for_counter(MAX_COUNTER).unwrap();
    assert_eq!(text(&message), "YEEHAW 999999");
    assert_eq!(message.len(), MESSAGE_CAPACITY);
}

#[test]
fn counter_that_does_not_fit_has_no_message() {
    assert_eq!(Message::for_counter(1_000_000), None);
    assert_eq!(Message::for_counter(u32::MAX), None);
}

#[test]
fn equal_counters_give_equal_messages() {
    assert_eq!(Message::for_counter(42), Message::for_counter(42));
    assert_ne!(Message::for_counter(42), Message::for_counter(43));
    assert_ne!(Message::for_counter(1), Message::for_counter(10));
}

#[test]
fn small_displays_sit_at_both_addresses() {
    let bus = BusArbiter::new(0);
    let (d1, d2) = gfx::init_displays(&bus).unwrap();
    assert_eq!(d1.selector(), address(0x3C));
    assert_eq!(d2.selector(), address(0x3D));
    for display in [&d1, &d2] {
        assert_eq!(
            display.geometry(),
            Geometry { width: 128, height: 64, offset_x: 0, offset_y: 0 }
        );
        assert_eq!(display.geometry(), gfx::geometry());
        assert_eq!(display.format(), FrameFormat::Mono);
        assert_eq!(display.frame(), &[0u8; 1024][..]);
    }
}

#[test]
fn small_displays_need_an_addressed_bus() {
    let bus = BusArbiter::new(2);
    assert_eq!(gfx::init_displays(&bus).unwrap_err(), BusError::NoSuchDevice);
}

#[test]
fn colour_displays_sit_on_the_first_two_lines() {
    let bus = BusArbiter::new(2);
    let (tft1, tft2, bring_up) = gfx_spi::init_displays(&bus).unwrap();
    let first = DeviceSelector::ChipSelect { line: 0, control: Level::Low };
    let second = DeviceSelector::ChipSelect { line: 1, control: Level::Low };
    assert_eq!(tft1.selector(), first);
    assert_eq!(tft2.selector(), second);
    assert_eq!(gfx_spi::selector(0), first);
    for display in [&tft1, &tft2] {
        assert_eq!(
            display.geometry(),
            Geometry { width: 160, height: 80, offset_x: 1, offset_y: 26 }
        );
        assert_eq!(display.geometry(), gfx_spi::geometry());
        assert_eq!(display.format(), FrameFormat::Direct);
        assert_eq!(display.frame(), &[0u8; 0]);
    }
    assert_eq!(
        bring_up,
        vec![
            Step::Select { target: first },
            Step::Init { target: first },
            Step::Orient { target: first, orientation: Orientation::Landscape },
            Step::Clear { target: first, color: Color::Black },
            Step::Select { target: second },
            Step::Init { target: second },
            Step::Clear { target: second, color: Color::Black },
            Step::Orient { target: second, orientation: Orientation::Landscape },
        ]
    );
}

#[test]
fn colour_displays_need_two_lines() {
    assert_eq!(
        gfx_spi::init_displays(&BusArbiter::new(1)).unwrap_err(),
        BusError::NoSuchDevice
    );
    assert_eq!(
        gfx_spi::init_displays(&BusArbiter::new(0)).unwrap_err(),
        BusError::NoSuchDevice
    );
    assert!(gfx_spi::init_displays(&BusArbiter::new(3)).is_ok());
}

#[test]
fn colour_displays_share_panel_settings() {
    assert!(!gfx_spi::ST7735_RGB);
    assert!(gfx_spi::ST7735_INVERTED);
    assert_eq!(gfx_spi::SharedPin::new(1).line(), 1);
}

#[test]
fn splash_of_the_small_displays() {
    let bus = BusArbiter::new(0);
    let (d1, d2) = gfx::init_displays(&bus).unwrap();
    let a = d1.selector();
    let b = d2.selector();
    assert_eq!(
        gfx::splash(&d1, &d2),
        vec![
            Step::Image { target: a, asset: Asset::Ant2, x: 0, y: 0 },
            Step::Image { target: a, asset: Asset::Rust, x: 64, y: 0 },
            Step::Image { target: b, asset: Asset::Logo2021, x: 0, y: 0 },
            Step::Image { target: b, asset: Asset::Ant3, x: 64, y: 0 },
            Step::Flush { target: a },
            Step::Flush { target: b },
            Step::Hold { millis: 1000 },
            Step::Image { target: a, asset: Asset::Ant1, x: 0, y: 0 },
            Step::Image { target: b, asset: Asset::Ferris, x: 0, y: 0 },
            Step::Flush { target: a },
            Step::Flush { target: b },
            Step::Hold { millis: 1000 },
            Step::Image { target: a, asset: Asset::Logo2023, x: 32, y: 0 },
            Step::Flush { target: a },
            Step::Hold { millis: 1000 },
        ]
    );
}

#[test]
fn splash_of_a_colour_display() {
    let bus = BusArbiter::new(2);
    let (_tft1, tft2, _) = gfx_spi::init_displays(&bus).unwrap();
    let target = tft2.selector();
    assert_eq!(
        gfx_spi::splash(&tft2),
        vec![
            Step::Image { target, asset: Asset::Logo2022, x: 20, y: 0 },
            Step::Hold { millis: 800 },
            Step::Clear { target, color: Color::Black },
            Step::Image { target, asset: Asset::FerrisLarge, x: 37, y: 10 },
        ]
    );
}

#[test]
fn scene_is_laid_out_on_the_display() {
    let commands = gfx::draw(&gfx::geometry(), "BOOP BOOP", "YEEHAW 7").unwrap();
    assert_eq!(
        commands,
        vec![
            DrawCommand::Clear { color: Color::Black },
            DrawCommand::Rectangle {
                x: 0,
                y: 0,
                width: 128,
                height: 64,
                fill: Color::Blue,
                stroke: Color::Yellow,
                stroke_width: 1,
            },
            DrawCommand::Text {
                text: "BOOP BOOP",
                x: 3,
                y: 3,
                font: Font::Font6x10,
                color: Color::White,
                baseline: Baseline::Top,
            },
            DrawCommand::Text {
                text: "YEEHAW 7",
                x: 10,
                y: 27,
                font: Font::Font10x20,
                color: Color::White,
                baseline: Baseline::Alphabetic,
            },
        ]
    );
}

fn message_row(height: u32) -> i32 {
    let display = Geometry { width: 10, height, offset_x: 0, offset_y: 0 };
    match gfx::draw(&display, "", "").unwrap()[3] {
        DrawCommand::Text { y, .. } => y,
        _ => unreachable!(),
    }
}

#[test]
fn message_row_is_half_of_what_the_height_leaves() {
    assert_eq!(message_row(10), 0);
    assert_eq!(message_row(11), 0);
    assert_eq!(message_row(12), 1);
    assert_eq!(message_row(80), 35);
    assert_eq!(message_row(0x8000_0009), 0x3FFF_FFFF);
}

#[test]
fn scene_needs_room_for_its_text() {
    for height in [0, 9, 0x8000_000A, u32::MAX] {
        let display = Geometry { width: 128, height, offset_x: 0, offset_y: 0 };
        assert_eq!(gfx::draw(&display, "a", "b"), Err(DriverError::UnsupportedGeometry));
    }
}

fn steady(target: DeviceSelector) -> RenderSequencer {
    RenderSequencer::new(Vec::new(), target)
}

#[test]
fn nothing_is_due_without_an_event() {
    let mut sequencer = steady(address(0x3D));
    let mut latch = button();
    assert!(sequencer.is_steady());
    assert_eq!(sequencer.next(&latch), Action::Idle);
    sequencer.settle(&mut latch, Ok(()));
    assert_eq!(sequencer.counter(), 0);
    assert_eq!(sequencer.next(&latch), Action::Idle);
}

#[test]
fn event_asks_for_one_redraw() {
    let mut sequencer = steady(address(0x3D));
    let mut latch = button();
    latch.signal(2, Edge::Falling);
    match sequencer.next(&latch) {
        Action::Redraw { target, title, message } => {
            assert_eq!(target, address(0x3D));
            assert_eq!(title, "BOOP BOOP");
            assert_eq!(title, redraw_title());
            assert_eq!(text(&message), "YEEHAW 1");
        }
        other => panic!("{:?}", other),
    }
    // The latch stays set until the work is dispatched.
    assert!(latch.is_set());
    assert_eq!(sequencer.counter(), 0);
    sequencer.settle(&mut latch, Ok(()));
    assert!(!latch.is_set());
    assert_eq!(sequencer.counter(), 1);
}

/// A falling edge fires twice on the same pin before the loop polls: one
/// poll-and-clear cycle leaves the latch clear and has asked for exactly
/// one redraw.
#[test]
fn two_edges_before_the_poll_give_one_redraw() {
    let mut sequencer = steady(address(0x3D));
    let mut latch = button();
    latch.signal(2, Edge::Falling);
    latch.signal(2, Edge::Falling);

    let mut redraws = 0;
    for _ in 0..5 {
        match sequencer.next(&latch) {
            Action::Redraw { .. } => {
                redraws += 1;
                sequencer.settle(&mut latch, Ok(()));
                assert!(!latch.is_set());
            }
            Action::Idle => {}
            other => panic!("{:?}", other),
        }
    }
    assert_eq!(redraws, 1);
    assert_eq!(sequencer.counter(), 1);
    assert!(!latch.is_set());
}

#[test]
fn redraw_is_due_again_until_it_is_settled() {
    let mut sequencer = steady(address(0x3D));
    let mut latch = button();
    latch.signal(2, Edge::Falling);
    let first = sequencer.next(&latch);
    let again = sequencer.next(&latch);
    assert_eq!(first, again);
    sequencer.settle(&mut latch, Ok(()));
    assert_eq!(sequencer.next(&latch), Action::Idle);
}

#[test]
fn edge_during_the_redraw_is_part_of_it() {
    let mut sequencer = steady(address(0x3D));
    let mut latch = button();
    latch.signal(2, Edge::Falling);
    assert!(matches!(sequencer.next(&latch), Action::Redraw { .. }));
    latch.signal(2, Edge::Falling);
    sequencer.settle(&mut latch, Ok(()));
    assert!(!latch.is_set());
    assert_eq!(sequencer.next(&latch), Action::Idle);
}

#[test]
fn edge_after_an_idle_poll_is_not_settled_away() {
    let mut sequencer = steady(address(0x3D));
    let mut latch = button();
    assert_eq!(sequencer.next(&latch), Action::Idle);
    latch.signal(2, Edge::Falling);
    // Nothing was handed out, so there is nothing to settle.
    sequencer.settle(&mut latch, Ok(()));
    assert!(latch.is_set());
    assert_eq!(sequencer.counter(), 0);
    assert!(matches!(sequencer.next(&latch), Action::Redraw { .. }));
}

#[test]
fn counter_counts_the_redraws() {
    let mut sequencer = steady(address(0x3D));
    let mut latch = button();
    for n in 1..=12u32 {
        latch.signal(2, Edge::Falling);
        match sequencer.next(&latch) {
            Action::Redraw { message, .. } => {
                assert_eq!(text(&message), format!("YEEHAW {}", n));
            }
            other => panic!("{:?}", other),
        }
        sequencer.settle(&mut latch, Ok(()));
        assert_eq!(sequencer.counter(), n);
    }
}

#[test]
fn failed_redraw_halts_and_leaves_the_latch_set() {
    for failure in [
        Failure::Bus(BusError::NotAcknowledged),
        Failure::Bus(BusError::Busy),
        Failure::Bus(BusError::Fault),
        Failure::Bus(BusError::NotSelected),
        Failure::Driver(DriverError::OutOfFrame),
    ] {
        let mut sequencer = steady(address(0x3D));
        let mut latch = button();
        latch.signal(2, Edge::Falling);
        assert!(matches!(sequencer.next(&latch), Action::Redraw { .. }));
        sequencer.settle(&mut latch, Err(failure));
        assert_eq!(sequencer.failure(), Some(failure));
        assert!(latch.is_set());
        assert_eq!(sequencer.counter(), 0);
        // Halted for good: no retry, no skipping ahead.
        assert_eq!(sequencer.next(&latch), Action::Halt(failure));
        sequencer.settle(&mut latch, Ok(()));
        assert_eq!(sequencer.next(&latch), Action::Halt(failure));
        assert!(latch.is_set());
    }
}

#[test]
fn counter_without_a_text_halts_with_overflow() {
    let mut sequencer = steady(address(0x3D));
    let mut latch = button();
    for _ in 0..MAX_COUNTER {
        latch.signal(2, Edge::Falling);
        assert!(matches!(sequencer.next(&latch), Action::Redraw { .. }));
        sequencer.settle(&mut latch, Ok(()));
    }
    assert_eq!(sequencer.counter(), MAX_COUNTER);
    assert_eq!(sequencer.failure(), None);
    assert_eq!(sequencer.next(&latch), Action::Idle);
    latch.signal(2, Edge::Falling);
    assert_eq!(sequencer.next(&latch), Action::Halt(Failure::Overflow));
    assert_eq!(sequencer.failure(), Some(Failure::Overflow));
    sequencer.settle(&mut latch, Ok(()));
    assert_eq!(sequencer.counter(), MAX_COUNTER);
    assert!(latch.is_set());
}

#[test]
fn script_runs_one_step_at_a_time() {
    let target = address(0x3C);
    let script = vec![
        Step::Init { target },
        Step::Flush { target },
        Step::Hold { millis: 10 },
    ];
    let mut sequencer = RenderSequencer::new(script.clone(), target);
    let mut latch = button();
    // Events do not jump the queue.
    latch.signal(2, Edge::Falling);
    for step in &script {
        assert!(!sequencer.is_steady());
        assert_eq!(sequencer.next(&latch), Action::Perform(*step));
        // Asking again does not move on.
        assert_eq!(sequencer.next(&latch), Action::Perform(*step));
        sequencer.settle(&mut latch, Ok(()));
        // Settling twice does not move on twice.
        sequencer.settle(&mut latch, Ok(()));
        assert!(latch.is_set());
    }
    assert!(sequencer.is_steady());
    assert!(matches!(sequencer.next(&latch), Action::Redraw { .. }));
}

#[test]
fn failed_step_halts_the_script() {
    let target = address(0x3C);
    let script = vec![Step::Init { target }, Step::Flush { target }];
    let mut sequencer = RenderSequencer::new(script, target);
    let mut latch = button();
    assert_eq!(sequencer.next(&latch), Action::Perform(Step::Init { target }));
    let failure = Failure::Driver(DriverError::UnsupportedGeometry);
    sequencer.settle(&mut latch, Err(failure));
    assert_eq!(sequencer.next(&latch), Action::Halt(failure));
    assert!(!sequencer.is_steady());
}

#[test]
fn startup_script_in_order() {
    let i2c = BusArbiter::new(0);
    let spi = BusArbiter::new(2);
    let (d1, d2) = gfx::init_displays(&i2c).unwrap();
    let (tft1, tft2, bring_up) = gfx_spi::init_displays(&spi).unwrap();
    let (a, b, c, d) = (d1.selector(), d2.selector(), tft1.selector(), tft2.selector());

    let mut expected = vec![
        Step::Init { target: a },
        Step::Init { target: b },
        Step::Scene { target: a, title: ">> Das Labor <<", text: "Write Rust!" },
        Step::Flush { target: a },
        Step::Scene { target: b, title: "\\o/ *woop woop* \\o/", text: "Party hard!" },
        Step::Flush { target: b },
    ];
    expected.extend(bring_up.iter().copied());
    expected.push(Step::Select { target: c });
    expected.push(Step::Clear { target: c, color: Color::Black });
    expected.extend(gfx_spi::splash(&tft1));
    expected.push(Step::Select { target: d });
    expected.push(Step::Clear { target: d, color: Color::Black });
    expected.extend(gfx_spi::splash(&tft2));
    expected.push(Step::Hold { millis: 1000 });
    expected.extend(gfx::splash(&d1, &d2));
    expected.push(Step::Hold { millis: 1000 });
    expected.push(Step::Scene { target: a, title: "GFX", text: "regines" });
    expected.push(Step::Flush { target: a });
    expected.push(Step::Scene { target: b, title: "code", text: "CyReVolt" });
    expected.push(Step::Flush { target: b });
    expected.push(Step::Hold { millis: 1500 });

    let script = startup_script(&d1, &d2, &tft1, &tft2, &bring_up);
    assert_eq!(script.len(), 6 + 8 + 6 + 6 + 1 + 15 + 6);
    assert_eq!(script, expected);

    // The sequencer hands the script out in this order and then idles.
    let mut sequencer = RenderSequencer::new(script, b);
    let mut latch = button();
    for step in expected {
        assert_eq!(sequencer.next(&latch), Action::Perform(step));
        sequencer.settle(&mut latch, Ok(()));
    }
    assert_eq!(sequencer.next(&latch), Action::Idle);
}

/// Writes into the formatting buffer of the given size what the firmware's
/// formatter would, and says whether it fitted.
fn bounded(n: u32) -> (bool, Vec<u8>) {
    let mut buffer = arrform::ArrForm::<13>::new();
    let fitted = buffer.write_str("YEEHAW ").is_ok() && buffer.write_str(&n.to_string()).is_ok();
    (fitted, buffer.as_bytes().to_vec())
}

#[test]
fn message_agrees_with_the_bounded_formatter() {
    for n in [0, 1, 7, 9, 10, 99, 100, 4711, 99_999, 100_000, 999_999] {
        let (fitted, bytes) = bounded(n);
        assert!(fitted);
        assert_eq!(Message::for_counter(n).unwrap().as_bytes(), &bytes[..]);
    }
    for n in [1_000_000, 1_000_001, 123_456_789, u32::MAX] {
        let (fitted, _) = bounded(n);
        assert!(!fitted);
        assert_eq!(Message::for_counter(n), None);
    }
}
