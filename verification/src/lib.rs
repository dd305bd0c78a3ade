//! Driver core for a single-channel 12-bit digital-to-analog converter
//! reached over a two-wire serial bus.
//!
//! The crate is split in two layers:
//!
//! * [`codec`] — the pure, stateless translation between a voltage (held in
//!   microvolts, relative to a supply-voltage reference) and the device's
//!   12-bit register code, together with the exact byte framing used on the
//!   wire: a 2-byte fast-mode write frame and a 5-byte register read-back.
//! * [`device`] — the handle for one physical converter. It owns the bus
//!   address and the supply-voltage reference, and turns `set voltage` /
//!   `get voltage` operations into the bus transactions' byte buffers. The
//!   bus transaction itself is left to the caller, so the same handle serves
//!   a blocking transport and a suspendable one alike; the transport's error
//!   is handed through unchanged.

pub mod codec;
pub mod device;
