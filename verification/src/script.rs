//! The vocabulary of rendering: the pictures, the colours and the steps of
//! which every rendering sequence is made.
//!
//! A [`Step`] names one thing for the caller to do with one display, or one
//! pause. Which pixels a step produces is the business of the drawing and
//! driver code that performs it.

use crate::arbiter::DeviceSelector;
use vstd::prelude::*;

verus! {

/// The colours that the sequences use.
#[derive(Clone, Copy, Debug, PartialEq, Eq, Structural)]
pub enum Color {
    Black,
    Blue,
    Yellow,
    White,
}

/// The pictures that the sequences show.
#[derive(Clone, Copy, Debug, PartialEq, Eq, Structural)]
pub enum Asset {
    /// Ant scratching its head.
    Ant1,
    /// Ant holding hands to the right.
    Ant2,
    /// Ant holding hands to the left.
    Ant3,
    Logo2021,
    Logo2022,
    Logo2023,
    /// The Rust gear.
    Rust,
    /// Ferris, for the small displays.
    Ferris,
    /// Ferris, for the colour displays.
    FerrisLarge,
}

/// How a display is turned.
#[derive(Clone, Copy, Debug, PartialEq, Eq, Structural)]
pub enum Orientation {
    Portrait,
    Landscape,
}

/// One thing to do in a rendering sequence.
#[derive(Clone, Copy, Debug, PartialEq, Eq)]
pub enum Step {
    /// Bring up the controller of the display.
    Init { target: DeviceSelector },
    /// Turn the display.
    Orient { target: DeviceSelector, orientation: Orientation },
    /// Make the display the one that the bus talks to.
    Select { target: DeviceSelector },
    /// Fill the display with one colour.
    Clear { target: DeviceSelector, color: Color },
    /// Draw a picture with its top left corner at (`x`, `y`).
    Image { target: DeviceSelector, asset: Asset, x: i32, y: i32 },
    /// Draw the framed scene of a title and a line of text.
    Scene { target: DeviceSelector, title: &'static str, text: &'static str },
    /// Commit what was drawn to the display.
    Flush { target: DeviceSelector },
    /// Do nothing for so many milliseconds.
    Hold { millis: u32 },
}

} // verus!
