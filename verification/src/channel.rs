//! One addressable display: a device of the bus together with its geometry
//! and, for a buffered display, the frame that a flush sends.
//!
//! A channel is an opaque sink. What the bytes mean to the display
//! controller is the business of whoever draws; the channel only sees to it
//! that they travel inside the channel's own bracket on the bus.

use crate::arbiter::{ArbiterState, BusArbiter, BusError, BusProxy, DeviceSelector};
use crate::shared_pin::SharedPin;
use crate::wire::{Signal, WireOp};
use vstd::prelude::*;

verus! {

/// Largest frame, in bytes, that a channel keeps.
pub const MAX_FRAME_BYTES: usize = 0x10_0000;

/// Why a display refused an operation.
#[derive(Clone, Copy, Debug, PartialEq, Eq, Structural)]
pub enum DriverError {
    /// The display cannot have this geometry in this frame format.
    UnsupportedGeometry,
    /// The bytes do not lie inside the frame.
    OutOfFrame,
}

/// Size of the visible area in pixels and its offset in the memory of the
/// display controller.
#[derive(Clone, Copy, Debug, PartialEq, Eq, Structural)]
pub struct Geometry {
    pub width: u32,
    pub height: u32,
    pub offset_x: u16,
    pub offset_y: u16,
}

/// How a channel keeps what is drawn.
#[derive(Clone, Copy, Debug, PartialEq, Eq, Structural)]
pub enum FrameFormat {
    /// No frame is kept: what is drawn goes to the display as it is drawn.
    Direct,
    /// One bit per pixel, in bytes that each hold a column of eight rows.
    Mono,
    /// Sixteen bits per pixel.
    Rgb565,
}

impl Geometry {
    /// Number of bytes in a frame of this geometry.
    pub open spec fn frame_bytes(self, format: FrameFormat) -> int {
        match format {
            FrameFormat::Direct => 0,
            FrameFormat::Mono => self.width * (self.height / 8),
            FrameFormat::Rgb565 => self.width * self.height * 2,
        }
    }

    /// A display can have this geometry in this format: it is not empty, a
    /// one-bit frame has whole bytes, and the frame is not larger than
    /// [`MAX_FRAME_BYTES`].
    pub open spec fn supports(self, format: FrameFormat) -> bool {
        &&& self.width > 0
        &&& self.height > 0
        &&& format == FrameFormat::Mono ==> self.height % 8 == 0
        &&& self.frame_bytes(format) <= MAX_FRAME_BYTES
    }

    /// The length of a frame, for a geometry that the format supports, and
    /// nothing for one that it does not.
    pub fn frame_len(&self, format: FrameFormat) -> (len: Option<usize>)
        ensures
            len is Some <==> self.supports(format),
            len matches Some(n) ==> n == self.frame_bytes(format),
    {
        if self.width == 0 || self.height == 0 {
            return None;
        }
        let width = self.width as u64;
        let height = self.height as u64;
        match format {
            FrameFormat::Direct => Some(0),
            FrameFormat::Mono => {
                if self.height % 8 != 0 {
                    return None;
                }
                assert(width * (height / 8) <= 0xffff_ffff * 0xffff_ffff) by (nonlinear_arith)
                    requires
                        width <= 0xffff_ffff,
                        height / 8 <= 0xffff_ffff,
                ;
                let bytes = width * (height / 8);
                if bytes > MAX_FRAME_BYTES as u64 {
                    None
                } else {
                    Some(bytes as usize)
                }
            },
            FrameFormat::Rgb565 => {
                assert(width * height <= 0xffff_ffff * 0xffff_ffff) by (nonlinear_arith)
                    requires
                        width <= 0xffff_ffff,
                        height <= 0xffff_ffff,
                ;
                let pixels = width * height;
                if pixels > (MAX_FRAME_BYTES / 2) as u64 {
                    None
                } else {
                    Some((pixels * 2) as usize)
                }
            },
        }
    }
}

/// The frame `frame` with `data` written over it from position `offset` on.
pub open spec fn overlay(frame: Seq<u8>, offset: int, data: Seq<u8>) -> Seq<u8> {
    Seq::new(
        frame.len(),
        |i: int|
            if offset <= i < offset + data.len() {
                data[i - offset]
            } else {
                frame[i]
            },
    )
}

/// What a channel is, as a mathematical value.
pub struct ChannelState {
    pub selector: DeviceSelector,
    pub geometry: Geometry,
    pub format: FrameFormat,
    pub frame: Seq<u8>,
}

impl ChannelState {
    /// The frame has the length that geometry and format give it.
    pub open spec fn wf(self) -> bool {
        &&& self.geometry.supports(self.format)
        &&& self.frame.len() == self.geometry.frame_bytes(self.format)
    }

    /// Number of bytes of the frame that hold one pixel.
    pub open spec fn pixel_bytes(self) -> int {
        match self.format {
            FrameFormat::Direct => 0,
            FrameFormat::Mono => 1,
            FrameFormat::Rgb565 => 2,
        }
    }

    /// Position in the frame of the first byte that holds the pixel in
    /// column `x` and row `y`. A one-bit frame is laid out in bands of
    /// eight rows, one byte per column; a sixteen-bit frame row by row.
    pub open spec fn pixel_offset(self, x: u32, y: u32) -> int {
        match self.format {
            FrameFormat::Direct => 0,
            FrameFormat::Mono => x + (y / 8) * self.geometry.width,
            FrameFormat::Rgb565 => 2 * (x + y * self.geometry.width),
        }
    }

    /// The channel keeps a frame, the pixel lies on the display and its
    /// bytes lie in the frame.
    pub open spec fn has_pixel(self, x: u32, y: u32) -> bool {
        &&& self.format != FrameFormat::Direct
        &&& x < self.geometry.width
        &&& y < self.geometry.height
        &&& self.pixel_offset(x, y) + self.pixel_bytes() <= self.frame.len()
    }

    /// The frame with the pixel in column `x` and row `y` set to `value`.
    /// In a one-bit frame the pixel is bit `y % 8` of its byte, set for a
    /// value other than zero and cleared for zero. In a sixteen-bit frame
    /// the value is stored with its high byte first.
    pub open spec fn with_pixel(self, x: u32, y: u32, value: u16) -> Seq<u8> {
        let at = self.pixel_offset(x, y);
        match self.format {
            FrameFormat::Direct => self.frame,
            FrameFormat::Mono => self.frame.update(
                at,
                if value != 0 {
                    self.frame[at] | (1u8 << ((y % 8) as u8))
                } else {
                    self.frame[at] & !(1u8 << ((y % 8) as u8))
                },
            ),
            FrameFormat::Rgb565 => self.frame.update(at, (value >> 8) as u8).update(
                at + 1,
                (value & 0xff) as u8,
            ),
        }
    }

    /// What a flush asks of the bus: the whole frame in one write for a
    /// buffered channel, nothing for a direct one.
    pub open spec fn flush_signals(self) -> Seq<Signal> {
        if self.format == FrameFormat::Direct {
            Seq::empty()
        } else {
            ArbiterState::write_signals(self.selector, self.frame)
        }
    }

    /// How a flush ends on a bus in state `bus`: a buffered channel must
    /// hold the bus, a direct one has nothing to send.
    pub open spec fn flush(self, bus: ArbiterState) -> Result<Seq<Signal>, BusError> {
        if self.format == FrameFormat::Direct || bus.holds(self.selector) {
            Ok(self.flush_signals())
        } else {
            Err(BusError::NotSelected)
        }
    }
}

/// One logical display on a shared bus.
#[derive(Debug)]
pub struct DisplayChannel {
    proxy: BusProxy,
    geometry: Geometry,
    format: FrameFormat,
    frame: Vec<u8>,
}

impl View for DisplayChannel {
    type V = ChannelState;

    closed spec fn view(&self) -> ChannelState {
        ChannelState {
            selector: self.proxy@,
            geometry: self.geometry,
            format: self.format,
            frame: self.frame@,
        }
    }
}

/// The operations that went out, or the error, as mathematical values.
pub open spec fn sent_view(sent: Result<Vec<WireOp>, BusError>) -> Result<Seq<Signal>, BusError> {
    match sent {
        Ok(ops) => Ok(ops.deep_view()),
        Err(error) => Err(error),
    }
}

impl DisplayChannel {
    /// A channel for the device behind `proxy`, with a frame of zeros.
    /// Fails with `UnsupportedGeometry` exactly when the format does not
    /// support the geometry.
    pub fn new(proxy: BusProxy, geometry: Geometry, format: FrameFormat) -> (made: Result<
        DisplayChannel,
        DriverError,
    >)
        ensures
            made is Ok <==> geometry.supports(format),
            made matches Ok(channel) ==> {
                &&& channel@.selector == proxy@
                &&& channel@.geometry == geometry
                &&& channel@.format == format
                &&& channel@.frame == Seq::new(geometry.frame_bytes(format) as nat, |i: int| 0u8)
                &&& channel@.wf()
            },
            made matches Err(error) ==> error == DriverError::UnsupportedGeometry,
    {
        match geometry.frame_len(format) {
            None => Err(DriverError::UnsupportedGeometry),
            Some(len) => {
                let mut frame: Vec<u8> = Vec::new();
                while frame.len() < len
                    invariant
                        frame.len() <= len,
                        frame@ == Seq::new(frame.len() as nat, |i: int| 0u8),
                    decreases len - frame.len(),
                {
                    frame.push(0u8);
                }
                Ok(DisplayChannel { proxy, geometry, format, frame })
            },
        }
    }

    /// The selector of the device.
    pub fn selector(&self) -> (selector: DeviceSelector)
        ensures
            selector == self@.selector,
    {
        self.proxy.selector()
    }

    /// The geometry of the display.
    pub fn geometry(&self) -> (geometry: Geometry)
        ensures
            geometry == self@.geometry,
    {
        self.geometry
    }

    /// The frame format of the channel.
    pub fn format(&self) -> (format: FrameFormat)
        ensures
            format == self@.format,
    {
        self.format
    }

    /// The frame as it stands.
    pub fn frame(&self) -> (frame: &[u8])
        ensures
            frame@ == self@.frame,
    {
        self.frame.as_slice()
    }

    /// The channel's share of the control line: one for a chip-select
    /// device, none for an addressed one.
    pub fn pin(&self) -> (pin: Option<SharedPin>)
        ensures
            match self@.selector.spec_line() {
                Some(line) => pin matches Some(share) && share@ == line,
                None => pin is None,
            },
    {
        match self.proxy.selector().line() {
            Some(line) => Some(SharedPin::new(line)),
            None => None,
        }
    }

    /// Makes this channel the one that the bus talks to: its siblings are
    /// released, its own chip-select is asserted and the control line takes
    /// the level of the channel's selector. An addressed channel needs no
    /// operation. Fails with `NoSuchDevice`, and changes nothing, exactly
    /// when `arbiter` cannot reach the device.
    pub fn select(&self, arbiter: &mut BusArbiter) -> (sent: Result<Vec<WireOp>, BusError>)
        ensures
            sent is Ok <==> old(arbiter)@.accepts(self@.selector),
            sent matches Ok(ops) ==> {
                &&& ops.deep_view() == old(arbiter)@.acquire_signals(self@.selector)
                &&& final(arbiter)@ == old(arbiter)@.after_acquire(self@.selector)
            },
            sent matches Err(error) ==> {
                &&& error == BusError::NoSuchDevice
                &&& final(arbiter)@ == old(arbiter)@
            },
    {
        match arbiter.acquire(self.proxy.selector()) {
            Ok(handle) => Ok(handle.ops),
            Err(error) => Err(error),
        }
    }

    /// Ends the channel's bracket: every chip-select is released. Does
    /// nothing when the channel does not hold the bus.
    pub fn deselect(&self, arbiter: &mut BusArbiter) -> (ops: Vec<WireOp>)
        ensures
            old(arbiter)@.holds(self@.selector) ==> {
                &&& ops.deep_view() == old(arbiter)@.release_all()
                &&& final(arbiter)@ == old(arbiter)@.after_release()
            },
            !old(arbiter)@.holds(self@.selector) ==> {
                &&& ops.deep_view() == Seq::<Signal>::empty()
                &&& final(arbiter)@ == old(arbiter)@
            },
    {
        arbiter.release(self.proxy.selector())
    }

    /// Sends `bytes` to the display in one write. Fails with `NotSelected`
    /// exactly when the channel does not hold the bus.
    pub fn write(&self, arbiter: &BusArbiter, bytes: &[u8]) -> (sent: Result<
        Vec<WireOp>,
        BusError,
    >)
        ensures
            sent is Ok <==> arbiter@.holds(self@.selector),
            sent matches Ok(ops) ==> ops.deep_view() == ArbiterState::write_signals(
                self@.selector,
                bytes@,
            ),
            sent matches Err(error) ==> error == BusError::NotSelected,
    {
        arbiter.write(self.proxy.selector(), bytes)
    }

    /// Commits the frame to the display: a buffered channel sends its whole
    /// frame in one write and must hold the bus for it; a direct channel
    /// sends nothing. Neither the channel nor the arbiter changes, so a
    /// second flush with no draw between sends the same bytes again.
    pub fn flush(&self, arbiter: &BusArbiter) -> (sent: Result<Vec<WireOp>, BusError>)
        ensures
            sent_view(sent) == self@.flush(arbiter@),
    {
        match self.format {
            FrameFormat::Direct => {
                let ops: Vec<WireOp> = Vec::new();
                assert(ops.deep_view() =~= Seq::<Signal>::empty());
                Ok(ops)
            },
            _ => arbiter.write(self.proxy.selector(), self.frame.as_slice()),
        }
    }

    /// Writes `data` into the frame from position `offset` on. Fails with
    /// `OutOfFrame`, and changes nothing, exactly when the bytes do not all
    /// lie inside the frame.
    pub fn draw(&mut self, offset: usize, data: &[u8]) -> (drawn: Result<(), DriverError>)
        ensures
            drawn is Ok <==> offset + data@.len() <= old(self)@.frame.len(),
            drawn is Ok ==> final(self)@ == (ChannelState {
                frame: overlay(old(self)@.frame, offset as int, data@),
                ..old(self)@
            }),
            drawn matches Err(error) ==> {
                &&& error == DriverError::OutOfFrame
                &&& final(self)@ == old(self)@
            },
            old(self)@.wf() ==> final(self)@.wf(),
    {
        if offset > self.frame.len() || data.len() > self.frame.len() - offset {
            return Err(DriverError::OutOfFrame);
        }
        let mut i: usize = 0;
        while i < data.len()
            invariant
                i <= data@.len(),
                offset + data@.len() <= self.frame@.len() <= usize::MAX,
                self.frame@.len() == old(self).frame@.len(),
                self.proxy == old(self).proxy,
                self.geometry == old(self).geometry,
                self.format == old(self).format,
                self.frame@ == overlay(old(self).frame@, offset as int, data@.take(i as int)),
            decreases data@.len() - i,
        {
            let ghost before = self.frame@;
            self.frame.set(offset + i, data[i]);
            assert(self.frame@ =~= overlay(
                old(self).frame@,
                offset as int,
                data@.take(i + 1),
            ));
            i = i + 1;
        }
        assert(data@.take(i as int) == data@);
        Ok(())
    }

    /// Sets the pixel in column `x` and row `y` of the frame to `value`, as
    /// [`ChannelState::with_pixel`] says. Fails with `OutOfFrame`, and
    /// changes nothing, exactly when the channel keeps no frame or the
    /// pixel does not lie on the display.
    pub fn set_pixel(&mut self, x: u32, y: u32, value: u16) -> (drawn: Result<(), DriverError>)
        ensures
            drawn is Ok <==> old(self)@.has_pixel(x, y),
            drawn is Ok ==> final(self)@ == (ChannelState {
                frame: old(self)@.with_pixel(x, y, value),
                ..old(self)@
            }),
            drawn matches Err(error) ==> {
                &&& error == DriverError::OutOfFrame
                &&& final(self)@ == old(self)@
            },
            old(self)@.wf() ==> final(self)@.wf(),
    {
        if x >= self.geometry.width || y >= self.geometry.height {
            return Err(DriverError::OutOfFrame);
        }
        let width = self.geometry.width as u64;
        let len = self.frame.len() as u64;
        match self.format {
            FrameFormat::Direct => Err(DriverError::OutOfFrame),
            FrameFormat::Mono => {
                let band = (y / 8) as u64;
                assert(band * width <= 0x1fff_ffff * 0xffff_ffff) by (nonlinear_arith)
                    requires
                        band <= 0x1fff_ffff,
                        width <= 0xffff_ffff,
                ;
                let at = x as u64 + band * width;
                if at >= len {
                    return Err(DriverError::OutOfFrame);
                }
                let at = at as usize;
                let mask = 1u8 << ((y % 8) as u8);
                let byte = self.frame[at];
                let byte = if value != 0 {
                    byte | mask
                } else {
                    byte & !mask
                };
                self.frame.set(at, byte);
                assert(self.frame@ =~= old(self)@.with_pixel(x, y, value));
                Ok(())
            },
            FrameFormat::Rgb565 => {
                let row = y as u64;
                assert(row * width <= 0xffff_fffe * 0xffff_ffff) by (nonlinear_arith)
                    requires
                        row <= 0xffff_fffe,
                        width <= 0xffff_ffff,
                ;
                let pixel = x as u64 + row * width;
                if pixel >= len / 2 {
                    return Err(DriverError::OutOfFrame);
                }
                let at = (pixel * 2) as usize;
                self.frame.set(at, (value >> 8) as u8);
                self.frame.set(at + 1, (value & 0xff) as u8);
                assert(self.frame@ =~= old(self)@.with_pixel(x, y, value));
                Ok(())
            },
        }
    }

    /// Fills the whole frame with `fill`.
    pub fn clear(&mut self, fill: u8)
        ensures
            final(self)@ == (ChannelState {
                frame: Seq::new(old(self)@.frame.len(), |i: int| fill),
                ..old(self)@
            }),
            old(self)@.wf() ==> final(self)@.wf(),
    {
        let mut i: usize = 0;
        while i < self.frame.len()
            invariant
                i <= self.frame@.len(),
                self.frame@.len() == old(self).frame@.len(),
                self.proxy == old(self).proxy,
                self.geometry == old(self).geometry,
                self.format == old(self).format,
                forall|k: int| 0 <= k < i ==> self.frame@[k] == fill,
            decreases self.frame@.len() - i,
        {
            self.frame.set(i, fill);
            i = i + 1;
        }
        assert(self.frame@ =~= Seq::new(old(self)@.frame.len(), |i: int| fill));
    }
}

/// A well-formed channel that keeps a frame holds every pixel of its
/// display: the frame is long enough for each of them.
pub proof fn lemma_frame_holds_every_pixel(channel: ChannelState, x: u32, y: u32)
    requires
        channel.wf(),
        channel.format != FrameFormat::Direct,
        x < channel.geometry.width,
        y < channel.geometry.height,
    ensures
        channel.has_pixel(x, y),
{
    let width = channel.geometry.width as int;
    let height = channel.geometry.height as int;
    match channel.format {
        FrameFormat::Mono => {
            let band = y as int / 8;
            let bands = height / 8;
            assert(band + 1 <= bands);
            assert((band + 1) * width <= bands * width) by (nonlinear_arith)
                requires
                    band + 1 <= bands,
                    0 <= width,
            ;
            assert((band + 1) * width == band * width + width) by (nonlinear_arith);
            assert(bands * width == width * bands) by (nonlinear_arith);
        },
        _ => {
            assert((y + 1) * width <= height * width) by (nonlinear_arith)
                requires
                    y + 1 <= height,
                    0 <= width,
            ;
            assert((y + 1) * width == y * width + width) by (nonlinear_arith);
            assert(height * width == width * height) by (nonlinear_arith);
        },
    }
}

} // verus!
