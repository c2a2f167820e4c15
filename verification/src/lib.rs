//! Arbitration of one physical bus among several displays, and the
//! one-bit bridge that carries button interrupts into the main loop.
//!
//! The library never touches hardware. Every operation is a pure decision:
//! it updates the library's own bookkeeping and hands back what the caller
//! is to do on the real peripherals, be it line operations
//! ([`wire::WireOp`]), pending bits to clear or rendering steps
//! ([`script::Step`]). What the devices on the bus see when the caller
//! obeys is stated in [`wire`] and proved in [`exclusion`].
//!
//! - [`latch`]: the event latch and the duty list of the interrupt handler.
//! - [`wire`]: levels, line operations and what the devices see of them.
//! - [`arbiter`]: the owner of the bus, who opens and closes the brackets.
//! - [`shared_pin`]: a channel's share of the one data/command line.
//! - [`channel`]: one display, with its frame if it keeps one.
//! - [`exclusion`]: the laws of the bracket discipline.
//! - [`sim`]: a bus in memory that records what the devices would see.
//! - [`message`]: the counter text in its buffer of fixed size.
//! - [`script`], [`gfx`], [`gfx_spi`]: the rendering vocabulary, the
//!   displays at hand and their sequences.
//! - [`sequencer`]: runs the start-up script and the redraws.

pub mod arbiter;
pub mod channel;
pub mod exclusion;
pub mod gfx;
pub mod gfx_spi;
pub mod latch;
pub mod message;
pub mod script;
pub mod sequencer;
pub mod shared_pin;
pub mod sim;
pub mod wire;
