//! Driver core for the DRV8301 three-phase gate-driver IC.
//!
//! The chip is configured and monitored over a synchronous serial bus. This
//! crate holds the whole protocol logic: the register bitfield model
//! ([`register`]), the 16-bit command framing ([`command`]), and the
//! transaction and initialization state machines ([`driver`]). The state
//! machines emit pin, delay and bus-transfer actions; a thin platform layer
//! performs each action on the real hardware and feeds the bus responses
//! back in.

pub mod command;
pub mod driver;
pub mod register;
