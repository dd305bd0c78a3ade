use mcp4725::device::Mcp4725;

/// A transport error such as a bus might report; the handle must pass it
/// through untouched.
#[derive(Debug, Clone, Copy, PartialEq, Eq)]
enum BusFault {
    NoAcknowledge,
    ArbitrationLoss,
}

#[test]
fn new_keeps_address_and_supply() {
    let dac = Mcp4725::new(0x60, 3_300_000);
    assert_eq!(dac.address, 0x60);
    assert_eq!(dac.supply_voltage_uv, 3_300_000);
}

#[test]
fn set_voltage_frame_for_half_scale() {
    // 1.65 V on a 3.3 V supply encodes to code 2047 = 0x07FF.
    let dac = Mcp4725::new(0x60, 3_300_000);
    assert_eq!(dac.set_voltage_frame(1_650_000), [0x07, 0xFF]);
}

#[test]
fn set_voltage_frame_boundaries() {
    let dac = Mcp4725::new(0x60, 3_300_000);
    assert_eq!(dac.set_voltage_frame(0), [0x00, 0x00]);
    assert_eq!(dac.set_voltage_frame(3_300_000), [0x0F, 0xFF]);
}

#[test]
fn decode_read_recovers_voltage() {
    // Register read-back 0x07F0 shifts to code 127, which is
    // 127 * 3_300_000 / 4095 = 102_344 microvolts.
    let dac = Mcp4725::new(0x60, 3_300_000);
    assert_eq!(dac.decode_read(&[0x00, 0x07, 0xF0, 0x00, 0x00]), 102_344);
}

#[test]
fn get_voltage_outcome_decodes_successful_read() {
    let dac = Mcp4725::new(0x60, 3_300_000);
    let r: Result<u64, BusFault> = dac.get_voltage_outcome(Ok([0x00, 0x07, 0xF0, 0x00, 0x00]));
    assert_eq!(r, Ok(102_344));
}

#[test]
fn get_voltage_outcome_hands_error_through_unchanged() {
    let dac = Mcp4725::new(0x60, 3_300_000);
    let r: Result<u64, BusFault> = dac.get_voltage_outcome(Err(BusFault::NoAcknowledge));
    assert_eq!(r, Err(BusFault::NoAcknowledge));
    let r: Result<u64, BusFault> = dac.get_voltage_outcome(Err(BusFault::ArbitrationLoss));
    assert_eq!(r, Err(BusFault::ArbitrationLoss));
}

#[test]
fn full_scale_read_back_decodes_to_supply() {
    let dac = Mcp4725::new(0x61, 5_000_000);
    // Code 4095 left-justified: 0xFFF0.
    assert_eq!(dac.decode_read(&[0x00, 0xFF, 0xF0, 0x00, 0x00]), 5_000_000);
}
