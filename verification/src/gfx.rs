//! The two small displays on the addressed bus: their channels, their
//! splash sequence and the framed scene of a title and a line of text.

use crate::arbiter::{BusArbiter, BusError, DeviceSelector};
use crate::channel::{DisplayChannel, DriverError, FrameFormat, Geometry};
use crate::script::{Asset, Color, Step};
use vstd::prelude::*;

verus! {

/// Address of the first display.
pub const PRIMARY_ADDRESS: u8 = 0x3C;

/// Address of the second display.
pub const ALTERNATE_ADDRESS: u8 = 0x3D;

/// Width of either display in pixels.
pub const WIDTH: u32 = 128;

/// Height of either display in pixels.
pub const HEIGHT: u32 = 64;

/// Pause after each frame of the splash, in milliseconds.
pub const SPLASH_HOLD_MS: u32 = 1000;

/// Height in pixels of the line of text in a scene.
pub const TEXT_LINE: u32 = 10;

/// The fonts of a scene, by the size of one character in pixels.
#[derive(Clone, Copy, Debug, PartialEq, Eq, Structural)]
pub enum Font {
    Font6x10,
    Font10x20,
}

/// The line of a character cell that a text position refers to.
#[derive(Clone, Copy, Debug, PartialEq, Eq, Structural)]
pub enum Baseline {
    Top,
    Alphabetic,
}

/// One drawing primitive of a scene.
#[derive(Clone, Copy, Debug, PartialEq, Eq)]
pub enum DrawCommand<'a> {
    /// Fill the whole display.
    Clear { color: Color },
    /// A filled rectangle with a border.
    Rectangle {
        x: i32,
        y: i32,
        width: u32,
        height: u32,
        fill: Color,
        stroke: Color,
        stroke_width: u32,
    },
    /// One line of text.
    Text { text: &'a str, x: i32, y: i32, font: Font, color: Color, baseline: Baseline },
}

/// The geometry of either display.
pub open spec fn spec_geometry() -> Geometry {
    Geometry { width: WIDTH, height: HEIGHT, offset_x: 0, offset_y: 0 }
}

/// The geometry of either display.
#[verifier::when_used_as_spec(spec_geometry)]
pub fn geometry() -> (geometry: Geometry)
    ensures
        geometry == spec_geometry(),
{
    Geometry { width: WIDTH, height: HEIGHT, offset_x: 0, offset_y: 0 }
}

/// The channels of the two displays on the addressed bus `i2c_bus`: the
/// first at [`PRIMARY_ADDRESS`], the second at [`ALTERNATE_ADDRESS`], both
/// buffered with one bit per pixel and a frame of zeros. Fails with
/// `NoSuchDevice` exactly when the bus has chip-select lines, that is, when
/// it is no addressed bus.
pub fn init_displays(i2c_bus: &BusArbiter) -> (made: Result<
    (DisplayChannel, DisplayChannel),
    BusError,
>)
    ensures
        made is Ok <==> i2c_bus@.lines == 0,
        made matches Ok(pair) ==> {
            &&& pair.0@.selector == DeviceSelector::Address { address: PRIMARY_ADDRESS }
            &&& pair.1@.selector == DeviceSelector::Address { address: ALTERNATE_ADDRESS }
            &&& pair.0@.geometry == spec_geometry()
            &&& pair.1@.geometry == spec_geometry()
            &&& pair.0@.format == FrameFormat::Mono
            &&& pair.1@.format == FrameFormat::Mono
            &&& pair.0@.frame == Seq::new(1024, |i: int| 0u8)
            &&& pair.1@.frame == Seq::new(1024, |i: int| 0u8)
            &&& pair.0@.wf()
            &&& pair.1@.wf()
        },
        made matches Err(error) ==> error == BusError::NoSuchDevice,
{
    let first = match i2c_bus.proxy(DeviceSelector::Address { address: PRIMARY_ADDRESS }) {
        Ok(proxy) => proxy,
        Err(error) => {
            return Err(error);
        },
    };
    let second = match i2c_bus.proxy(DeviceSelector::Address { address: ALTERNATE_ADDRESS }) {
        Ok(proxy) => proxy,
        Err(error) => {
            return Err(error);
        },
    };
    assert(spec_geometry().supports(FrameFormat::Mono));
    assert(spec_geometry().frame_bytes(FrameFormat::Mono) == 1024);
    // Neither construction can fail: the format supports the geometry.
    let d1 = match DisplayChannel::new(first, geometry(), FrameFormat::Mono) {
        Ok(channel) => channel,
        Err(_) => {
            return Err(BusError::NoSuchDevice);
        },
    };
    let d2 = match DisplayChannel::new(second, geometry(), FrameFormat::Mono) {
        Ok(channel) => channel,
        Err(_) => {
            return Err(BusError::NoSuchDevice);
        },
    };
    Ok((d1, d2))
}

/// The splash of the two small displays, as a sequence.
pub open spec fn splash_steps(d1: DeviceSelector, d2: DeviceSelector) -> Seq<Step> {
    seq![
        Step::Image { target: d1, asset: Asset::Ant2, x: 0, y: 0 },
        Step::Image { target: d1, asset: Asset::Rust, x: 64, y: 0 },
        Step::Image { target: d2, asset: Asset::Logo2021, x: 0, y: 0 },
        Step::Image { target: d2, asset: Asset::Ant3, x: 64, y: 0 },
        Step::Flush { target: d1 },
        Step::Flush { target: d2 },
        Step::Hold { millis: SPLASH_HOLD_MS },
        Step::Image { target: d1, asset: Asset::Ant1, x: 0, y: 0 },
        Step::Image { target: d2, asset: Asset::Ferris, x: 0, y: 0 },
        Step::Flush { target: d1 },
        Step::Flush { target: d2 },
        Step::Hold { millis: SPLASH_HOLD_MS },
        Step::Image { target: d1, asset: Asset::Logo2023, x: 32, y: 0 },
        Step::Flush { target: d1 },
        Step::Hold { millis: SPLASH_HOLD_MS },
    ]
}

/// The splash of the two small displays: three frames, each drawn, then
/// flushed, then held for [`SPLASH_HOLD_MS`]. The first frame pairs an ant
/// with the Rust gear on `d1` and a logo with an ant on `d2`, the second
/// shows an ant on `d1` and Ferris on `d2`, the third a logo on `d1` alone.
pub fn splash(d1: &DisplayChannel, d2: &DisplayChannel) -> (steps: Vec<Step>)
    ensures
        steps@ == splash_steps(d1@.selector, d2@.selector),
{
    let a = d1.selector();
    let b = d2.selector();
    let mut steps: Vec<Step> = Vec::new();
    steps.push(Step::Image { target: a, asset: Asset::Ant2, x: 0, y: 0 });
    steps.push(Step::Image { target: a, asset: Asset::Rust, x: 64, y: 0 });
    steps.push(Step::Image { target: b, asset: Asset::Logo2021, x: 0, y: 0 });
    steps.push(Step::Image { target: b, asset: Asset::Ant3, x: 64, y: 0 });
    steps.push(Step::Flush { target: a });
    steps.push(Step::Flush { target: b });
    steps.push(Step::Hold { millis: SPLASH_HOLD_MS });
    steps.push(Step::Image { target: a, asset: Asset::Ant1, x: 0, y: 0 });
    steps.push(Step::Image { target: b, asset: Asset::Ferris, x: 0, y: 0 });
    steps.push(Step::Flush { target: a });
    steps.push(Step::Flush { target: b });
    steps.push(Step::Hold { millis: SPLASH_HOLD_MS });
    steps.push(Step::Image { target: a, asset: Asset::Logo2023, x: 32, y: 0 });
    steps.push(Step::Flush { target: a });
    steps.push(Step::Hold { millis: SPLASH_HOLD_MS });
    assert(steps@ =~= splash_steps(a, b));
    steps
}

/// A display of this geometry is tall enough for a scene, and the
/// position of its text can be computed.
pub open spec fn fits_scene(display: Geometry) -> bool {
    TEXT_LINE <= display.height && display.height - TEXT_LINE <= i32::MAX
}

/// The scene of a title and a message on a display: the display cleared to
/// black; a blue rectangle over the whole display with a yellow border one
/// pixel wide; the title in the small font in white with its top left at
/// (3, 3); the message in the large font in white, ten pixels from the left
/// and with its baseline at half of what the height leaves above
/// [`TEXT_LINE`].
pub open spec fn scene<'a>(display: Geometry, title: &'a str, msg: &'a str) -> Seq<
    DrawCommand<'a>,
> {
    seq![
        DrawCommand::Clear { color: Color::Black },
        DrawCommand::Rectangle {
            x: 0,
            y: 0,
            width: display.width,
            height: display.height,
            fill: Color::Blue,
            stroke: Color::Yellow,
            stroke_width: 1,
        },
        DrawCommand::Text {
            text: title,
            x: 3,
            y: 3,
            font: Font::Font6x10,
            color: Color::White,
            baseline: Baseline::Top,
        },
        DrawCommand::Text {
            text: msg,
            x: 10,
            y: ((display.height - TEXT_LINE) / 2) as i32,
            font: Font::Font10x20,
            color: Color::White,
            baseline: Baseline::Alphabetic,
        },
    ]
}

/// Draw a message with a title on the display.
///
/// Returns the primitives of [`scene`], in the order in which they are to
/// be drawn. Fails with `UnsupportedGeometry` exactly when the display is
/// lower than [`TEXT_LINE`] pixels, or so high that the position of the
/// message is no `i32`.
pub fn draw<'a>(display: &Geometry, title: &'a str, msg: &'a str) -> (drawn: Result<
    Vec<DrawCommand<'a>>,
    DriverError,
>)
    ensures
        drawn is Ok <==> fits_scene(*display),
        drawn matches Ok(commands) ==> commands@ == scene(*display, title, msg),
        drawn matches Err(error) ==> error == DriverError::UnsupportedGeometry,
{
    if display.height < TEXT_LINE || display.height - TEXT_LINE > 0x7fff_ffff {
        return Err(DriverError::UnsupportedGeometry);
    }
    let baseline = ((display.height - TEXT_LINE) / 2) as i32;
    let mut commands: Vec<DrawCommand<'a>> = Vec::new();
    commands.push(DrawCommand::Clear { color: Color::Black });
    commands.push(
        DrawCommand::Rectangle {
            x: 0,
            y: 0,
            width: display.width,
            height: display.height,
            fill: Color::Blue,
            stroke: Color::Yellow,
            stroke_width: 1,
        },
    );
    commands.push(
        DrawCommand::Text {
            text: title,
            x: 3,
            y: 3,
            font: Font::Font6x10,
            color: Color::White,
            baseline: Baseline::Top,
        },
    );
    commands.push(
        DrawCommand::Text {
            text: msg,
            x: 10,
            y: baseline,
            font: Font::Font10x20,
            color: Color::White,
            baseline: Baseline::Alphabetic,
        },
    );
    assert(commands@ =~= scene(*display, title, msg));
    Ok(commands)
}

} // verus!
