//! The two colour displays on the serial bus, which share one data/command
//! line: their channels, their bring-up and their splash sequence.

use crate::arbiter::{BusArbiter, BusError, DeviceSelector};
use crate::channel::{DisplayChannel, FrameFormat, Geometry};
use crate::script::{Asset, Color, Orientation, Step};
pub use crate::shared_pin::SharedPin;
use crate::wire::Level;
use vstd::prelude::*;

verus! {

/// Column of the visible area in the memory of the display controller.
pub const ST7735_OFF_X: u16 = 1;

/// Row of the visible area in the memory of the display controller.
pub const ST7735_OFF_Y: u16 = 26;

/// The panel takes its colours in the order red, green, blue.
pub const ST7735_RGB: bool = false;

/// The panel shows its colours inverted.
pub const ST7735_INVERTED: bool = true;

/// Width of either display in pixels.
pub const ST7735_WIDTH: u32 = 160;

/// Height of either display in pixels.
pub const ST7735_HEIGHT: u32 = 80;

/// Chip-select line of the first display.
pub const FIRST_LINE: u8 = 0;

/// Chip-select line of the second display.
pub const SECOND_LINE: u8 = 1;

/// Pause between the two pictures of the splash, in milliseconds.
pub const SPLASH_HOLD_MS: u32 = 800;

/// The geometry of either display.
pub open spec fn spec_geometry() -> Geometry {
    Geometry {
        width: ST7735_WIDTH,
        height: ST7735_HEIGHT,
        offset_x: ST7735_OFF_X,
        offset_y: ST7735_OFF_Y,
    }
}

/// The geometry of either display.
#[verifier::when_used_as_spec(spec_geometry)]
pub fn geometry() -> (geometry: Geometry)
    ensures
        geometry == spec_geometry(),
{
    Geometry {
        width: ST7735_WIDTH,
        height: ST7735_HEIGHT,
        offset_x: ST7735_OFF_X,
        offset_y: ST7735_OFF_Y,
    }
}

/// The selector of the display on chip-select `line`. A display is
/// selected for commands: the data/command line goes low with it.
pub open spec fn spec_selector(line: u8) -> DeviceSelector {
    DeviceSelector::ChipSelect { line, control: Level::Low }
}

/// The selector of the display on chip-select `line`. A display is
/// selected for commands: the data/command line goes low with it.
#[verifier::when_used_as_spec(spec_selector)]
pub fn selector(line: u8) -> (selector: DeviceSelector)
    ensures
        selector == spec_selector(line),
{
    DeviceSelector::ChipSelect { line, control: Level::Low }
}

/// The bring-up of the two displays, as a sequence: each display is
/// selected before anything is sent to it. The first is brought up, turned
/// and then cleared; the second is brought up, cleared and then turned.
pub open spec fn bring_up_steps() -> Seq<Step> {
    let first = spec_selector(FIRST_LINE);
    let second = spec_selector(SECOND_LINE);
    seq![
        Step::Select { target: first },
        Step::Init { target: first },
        Step::Orient { target: first, orientation: Orientation::Landscape },
        Step::Clear { target: first, color: Color::Black },
        Step::Select { target: second },
        Step::Init { target: second },
        Step::Clear { target: second, color: Color::Black },
        Step::Orient { target: second, orientation: Orientation::Landscape },
    ]
}

/// The channels of the two displays on the serial bus `spi_bus`, on the
/// chip-selects [`FIRST_LINE`] and [`SECOND_LINE`], both without a frame
/// of their own, together with the steps that bring them up. Fails with
/// `NoSuchDevice` exactly when the bus has fewer than two chip-select
/// lines.
pub fn init_displays(spi_bus: &BusArbiter) -> (made: Result<
    (DisplayChannel, DisplayChannel, Vec<Step>),
    BusError,
>)
    ensures
        made is Ok <==> spi_bus@.lines >= 2,
        made matches Ok(set) ==> {
            &&& set.0@.selector == spec_selector(FIRST_LINE)
            &&& set.1@.selector == spec_selector(SECOND_LINE)
            &&& set.0@.geometry == spec_geometry()
            &&& set.1@.geometry == spec_geometry()
            &&& set.0@.format == FrameFormat::Direct
            &&& set.1@.format == FrameFormat::Direct
            &&& set.0@.frame == Seq::<u8>::empty()
            &&& set.1@.frame == Seq::<u8>::empty()
            &&& set.0@.wf()
            &&& set.1@.wf()
            &&& set.2@ == bring_up_steps()
        },
        made matches Err(error) ==> error == BusError::NoSuchDevice,
{
    let first = match spi_bus.proxy(selector(FIRST_LINE)) {
        Ok(proxy) => proxy,
        Err(error) => {
            return Err(error);
        },
    };
    let second = match spi_bus.proxy(selector(SECOND_LINE)) {
        Ok(proxy) => proxy,
        Err(error) => {
            return Err(error);
        },
    };
    assert(spec_geometry().supports(FrameFormat::Direct));
    // Neither construction can fail: the format supports the geometry.
    let display1 = match DisplayChannel::new(first, geometry(), FrameFormat::Direct) {
        Ok(channel) => channel,
        Err(_) => {
            return Err(BusError::NoSuchDevice);
        },
    };
    let display2 = match DisplayChannel::new(second, geometry(), FrameFormat::Direct) {
        Ok(channel) => channel,
        Err(_) => {
            return Err(BusError::NoSuchDevice);
        },
    };
    assert(display1@.frame =~= Seq::<u8>::empty());
    assert(display2@.frame =~= Seq::<u8>::empty());
    let a = display1.selector();
    let b = display2.selector();
    let mut steps: Vec<Step> = Vec::new();
    steps.push(Step::Select { target: a });
    steps.push(Step::Init { target: a });
    steps.push(Step::Orient { target: a, orientation: Orientation::Landscape });
    steps.push(Step::Clear { target: a, color: Color::Black });
    steps.push(Step::Select { target: b });
    steps.push(Step::Init { target: b });
    steps.push(Step::Clear { target: b, color: Color::Black });
    steps.push(Step::Orient { target: b, orientation: Orientation::Landscape });
    assert(steps@ =~= bring_up_steps());
    Ok((display1, display2, steps))
}

/// The splash of one colour display, as a sequence.
pub open spec fn splash_steps(display: DeviceSelector) -> Seq<Step> {
    seq![
        Step::Image { target: display, asset: Asset::Logo2022, x: 20, y: 0 },
        Step::Hold { millis: SPLASH_HOLD_MS },
        Step::Clear { target: display, color: Color::Black },
        Step::Image { target: display, asset: Asset::FerrisLarge, x: 37, y: 10 },
    ]
}

/// The splash of one colour display: a logo, held for
/// [`SPLASH_HOLD_MS`], then Ferris on a black ground.
pub fn splash(display1: &DisplayChannel) -> (steps: Vec<Step>)
    ensures
        steps@ == splash_steps(display1@.selector),
{
    let target = display1.selector();
    let mut steps: Vec<Step> = Vec::new();
    steps.push(Step::Image { target, asset: Asset::Logo2022, x: 20, y: 0 });
    steps.push(Step::Hold { millis: SPLASH_HOLD_MS });
    steps.push(Step::Clear { target, color: Color::Black });
    steps.push(Step::Image { target, asset: Asset::FerrisLarge, x: 37, y: 10 });
    assert(steps@ =~= splash_steps(target));
    steps
}

} // verus!
