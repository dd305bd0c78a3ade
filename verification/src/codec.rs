//! Pure conversion between voltages and the converter's 12-bit register
//! code, plus the byte-level framing used on the wire.
//!
//! Voltages are carried as whole microvolts, so the scaling arithmetic is
//! exact integer arithmetic. The converter's code space runs from 0 to
//! [`FULL_SCALE`]; code [`FULL_SCALE`] stands for the full supply voltage.
//!
//! The wire formats are asymmetric, mirroring the device's two transaction
//! shapes:
//!
//! * a write is 2 bytes holding the code in the low 12 bits of a big-endian
//!   16-bit pair (fast-mode write, no command byte);
//! * a read returns 5 bytes: a status byte, then the live register as a
//!   big-endian 16-bit pair with the 12-bit code left-justified (so the low
//!   4 bits are discarded by a right shift), then 2 bytes of persistent
//!   register that this layer ignores.

use vstd::arithmetic::div_mod::{
    lemma_div_is_ordered, lemma_div_multiples_vanish, lemma_fundamental_div_mod, lemma_mod_bound,
};
use vstd::arithmetic::mul::lemma_mul_is_commutative;
use vstd::prelude::*;

verus! {

/// Largest code of the 12-bit converter: an in-range code lies in
/// `[0, FULL_SCALE]`, and code `FULL_SCALE` stands for the supply voltage.
pub const FULL_SCALE: u16 = 4095;

/// The code that a voltage encodes to: the quotient
/// `voltage_uv * 4095 / supply_uv`, truncated toward zero and saturated to
/// 16 bits by the narrowing conversion. No clamping to the 12-bit range is
/// performed: a voltage above the supply yields a code above 4095, and a
/// supply reference of zero yields a meaningless saturated code.
pub open spec fn spec_encode(voltage_uv: int, supply_uv: int) -> int
    recommends
        supply_uv > 0,
{
    if supply_uv <= 0 {
        if voltage_uv > 0 {
            0xFFFF
        } else {
            0
        }
    } else {
        let q = (voltage_uv * 4095) / supply_uv;
        if q > 0xFFFF {
            0xFFFF
        } else {
            q
        }
    }
}

/// The voltage, in microvolts, that a code decodes to:
/// `code * supply_uv / 4095`, truncated toward zero.
pub open spec fn spec_decode(code: int, supply_uv: int) -> int {
    (code * supply_uv) / 4095
}

/// The 2-byte fast-mode write frame for a code: the code's high byte then
/// its low byte, i.e. `[code >> 8, code & 0xFF]`.
pub open spec fn spec_write_frame(code: u16) -> Seq<u8> {
    seq![(code / 256) as u8, (code % 256) as u8]
}

/// The code held in a 5-byte register read-back: bytes 1 and 2 combined
/// big-endian and shifted right by 4, discarding the 4 padding bits; the
/// status byte (index 0) and the trailing persistent-register bytes are
/// ignored.
pub open spec fn spec_read_code(bytes: Seq<u8>) -> int
    recommends
        bytes.len() == 5,
{
    (bytes[1] * 256 + bytes[2]) / 16
}

/// Encode a voltage to the converter's register code against a supply
/// reference. In-range inputs (`voltage_uv <= supply_uv` with a positive
/// supply) give an in-range code; out-of-range inputs are not rejected and
/// give a truncated or saturated code, as the spec function states.
pub fn encode_code(voltage_uv: u64, supply_uv: u64) -> (code: u16)
    ensures
        code == spec_encode(voltage_uv as int, supply_uv as int),
        voltage_uv <= supply_uv && supply_uv > 0 ==> code <= FULL_SCALE,
{
    if supply_uv == 0 {
        if voltage_uv > 0 {
            0xFFFF
        } else {
            0
        }
    } else {
        let wide: u128 = (voltage_uv as u128) * 4095;
        let q: u128 = wide / (supply_uv as u128);
        proof {
            if voltage_uv <= supply_uv {
                lemma_div_is_ordered(
                    (voltage_uv as int) * 4095,
                    (supply_uv as int) * 4095,
                    supply_uv as int,
                );
                lemma_div_multiples_vanish(4095, supply_uv as int);
            }
        }
        if q > 0xFFFF {
            0xFFFF
        } else {
            q as u16
        }
    }
}

/// Decode a 12-bit register code back to a voltage in microvolts against a
/// supply reference. The result always lies in `[0, supply_uv]`.
pub fn decode_voltage(code: u16, supply_uv: u64) -> (voltage_uv: u64)
    requires
        code <= FULL_SCALE,
    ensures
        voltage_uv == spec_decode(code as int, supply_uv as int),
        voltage_uv <= supply_uv,
{
    proof {
        assert((code as int) * (supply_uv as int) <= 4095 * (supply_uv as int))
            by (nonlinear_arith)
            requires
                code <= 4095,
                supply_uv >= 0,
        ;
        lemma_div_is_ordered(
            (code as int) * (supply_uv as int),
            4095 * (supply_uv as int),
            4095,
        );
        lemma_div_multiples_vanish(supply_uv as int, 4095);
    }
    let wide: u128 = (code as u128) * (supply_uv as u128);
    let q: u128 = wide / 4095;
    q as u64
}

/// Build the 2-byte fast-mode write frame for a code. The frame is a pure
/// function of the code: high byte `code >> 8`, low byte `code & 0xFF`; for
/// an in-range code the top 4 bits of the high byte are zero.
pub fn write_frame(code: u16) -> (bytes: [u8; 2])
    ensures
        bytes@ == spec_write_frame(code),
        bytes@[0] == code >> 8,
        bytes@[1] == code & 0xFF,
        code <= FULL_SCALE ==> bytes@[0] < 16,
{
    let hi: u8 = (code >> 8) as u8;
    let lo: u8 = (code & 0xFF) as u8;
    proof {
        assert(code >> 8 == code / 256 && code / 256 < 256) by (bit_vector);
        assert(code & 0xFF == code % 256 && code % 256 < 256) by (bit_vector);
    }
    let bytes: [u8; 2] = [hi, lo];
    proof {
        assert(bytes@ =~= spec_write_frame(code));
    }
    bytes
}

/// Extract the 12-bit code from a 5-byte register read-back: bytes 1 and 2
/// big-endian, right-shifted by 4 (a shift, not a mask: the low 4 bits of
/// the pair are padding and must be discarded, not kept).
pub fn read_frame_code(bytes: &[u8; 5]) -> (code: u16)
    ensures
        code == spec_read_code(bytes@),
        code <= FULL_SCALE,
{
    let hi: u16 = bytes[1] as u16;
    let lo: u16 = bytes[2] as u16;
    let word: u16 = (hi << 8) | lo;
    let code: u16 = word >> 4;
    proof {
        assert(((hi << 8) | lo) >> 4 == (hi * 256 + lo) / 16 && (hi * 256 + lo) / 16 <= 4095)
            by (bit_vector)
            requires
                hi < 256,
                lo < 256,
        ;
    }
    code
}

/// Range-mapping boundaries: against a positive supply reference, the zero
/// voltage encodes to code 0 and the full supply voltage encodes to code
/// 4095 exactly.
pub proof fn lemma_encode_boundaries(supply_uv: u64)
    requires
        supply_uv > 0,
    ensures
        spec_encode(0, supply_uv as int) == 0,
        spec_encode(supply_uv as int, supply_uv as int) == 4095,
{
    let s = supply_uv as int;
    lemma_div_multiples_vanish(0, s);
    lemma_div_multiples_vanish(4095, s);
}

/// Round-trip near-identity: for a positive supply reference and a voltage
/// within `[0, supply]`, encoding and then decoding loses at most one code
/// step, `supply_uv / 4095` microvolts (up to integer truncation): the
/// decoded voltage never exceeds the original, and falls short of it by
/// strictly less than `supply_uv / 4095 + 1`.
pub proof fn lemma_round_trip(voltage_uv: u64, supply_uv: u64)
    requires
        supply_uv > 0,
        voltage_uv <= supply_uv,
    ensures
        spec_encode(voltage_uv as int, supply_uv as int) <= 4095,
        spec_decode(spec_encode(voltage_uv as int, supply_uv as int), supply_uv as int)
            <= voltage_uv,
        (voltage_uv - spec_decode(spec_encode(voltage_uv as int, supply_uv as int), supply_uv as int))
            * 4095 < supply_uv + 4095,
{
    let v = voltage_uv as int;
    let s = supply_uv as int;
    let c = (v * 4095) / s;
    lemma_div_is_ordered(v * 4095, s * 4095, s);
    lemma_div_multiples_vanish(4095, s);
    assert(c <= 4095);
    assert(spec_encode(v, s) == c);
    let back = (c * s) / 4095;
    lemma_fundamental_div_mod(v * 4095, s);
    lemma_mod_bound(v * 4095, s);
    lemma_fundamental_div_mod(c * s, 4095);
    lemma_mod_bound(c * s, 4095);
    lemma_mul_is_commutative(s, c);
    assert(v * 4095 == s * c + (v * 4095) % s);
    assert(c * s == 4095 * back + (c * s) % 4095);
    assert(4095 * (v - back) == (v * 4095) % s + (c * s) % 4095);
}

} // verus!
