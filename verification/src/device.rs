//! The handle for one physical converter.
//!
//! A handle owns the device's 7-bit bus address and its supply-voltage
//! reference, and nothing else: every operation is one stateless
//! request/response exchange. The handle produces the exact bytes to put on
//! the bus for a `set voltage`, and consumes the exact bytes a register
//! read-back returns for a `get voltage`, delegating all numeric work to
//! [`crate::codec`]. The bus transaction itself — blocking or suspendable —
//! is the caller's, so one handle serves both call conventions with the same
//! arithmetic; a transport error is handed through unchanged, never wrapped
//! or classified.

use crate::codec::{
    decode_voltage, encode_code, read_frame_code, spec_decode, spec_encode, spec_read_code,
    spec_write_frame, write_frame,
};
use vstd::prelude::*;

verus! {

/// Marker for digital-to-analog converter handles.
pub trait Dac {}

/// Handle for one converter on the bus.
///
/// Both fields are fixed at construction. The address is taken
/// uninterpreted (7-bit addresses lie in `0x00..=0x7F`, but the device
/// family's own range is narrower and the type does not police either); the
/// supply reference must be positive for the encoding to be meaningful, and
/// is likewise not policed — a zero supply silently yields saturated codes.
pub struct Mcp4725 {
    /// 7-bit bus address of the device.
    pub address: u8,
    /// Supply-voltage reference in microvolts; full scale of the converter.
    pub supply_voltage_uv: u64,
}

impl Dac for Mcp4725 {
}

impl Mcp4725 {
    /// Make a handle from a bus address and a supply reference in
    /// microvolts. Neither value is validated or altered.
    pub fn new(address: u8, supply_voltage_uv: u64) -> (dac: Self)
        ensures
            dac.address == address,
            dac.supply_voltage_uv == supply_voltage_uv,
    {
        Mcp4725 { address, supply_voltage_uv }
    }

    /// The 2-byte fast-mode write frame that sets the device to `voltage_uv`:
    /// the frame of the code that `voltage_uv` encodes to against this
    /// handle's supply reference. Writing exactly these bytes to
    /// `self.address` is the whole of a `set voltage` operation; the
    /// transport's own result is the operation's result.
    pub fn set_voltage_frame(&self, voltage_uv: u64) -> (bytes: [u8; 2])
        ensures
            bytes@ == spec_write_frame(
                spec_encode(voltage_uv as int, self.supply_voltage_uv as int) as u16,
            ),
            voltage_uv <= self.supply_voltage_uv && self.supply_voltage_uv > 0 ==> bytes@[0] < 16,
    {
        let code = encode_code(voltage_uv, self.supply_voltage_uv);
        write_frame(code)
    }

    /// Decode a 5-byte register read-back into the voltage, in microvolts,
    /// that the device is currently outputting. The result always lies in
    /// `[0, supply_voltage_uv]`, since the extracted code is a 12-bit value.
    pub fn decode_read(&self, bytes: &[u8; 5]) -> (voltage_uv: u64)
        ensures
            voltage_uv == spec_decode(spec_read_code(bytes@), self.supply_voltage_uv as int),
            voltage_uv <= self.supply_voltage_uv,
    {
        let code = read_frame_code(bytes);
        decode_voltage(code, self.supply_voltage_uv)
    }

    /// Finish a `get voltage` operation from the transport's outcome: a
    /// successful 5-byte read decodes as [`Self::decode_read`]; a transport
    /// error is returned unchanged, and nothing else is done with it.
    pub fn get_voltage_outcome<E>(&self, outcome: Result<[u8; 5], E>) -> (r: Result<u64, E>)
        ensures
            match outcome {
                Ok(bytes) => r matches Ok(v) && v == spec_decode(
                    spec_read_code(bytes@),
                    self.supply_voltage_uv as int,
                ),
                Err(e) => r matches Err(e2) && e2 == e,
            },
    {
        match outcome {
            Ok(bytes) => Ok(self.decode_read(&bytes)),
            Err(e) => Err(e),
        }
    }
}

} // verus!
