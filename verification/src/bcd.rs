//! Packed binary-coded-decimal codec.
//!
//! Every calendar and time register of the chip stores two decimal digits in
//! one byte: the tens digit in the high nibble, the ones digit in the low
//! nibble.

use vstd::prelude::*;

verus! {

/// Value of a packed-BCD byte: ten times the high nibble plus the low nibble.
pub open spec fn spec_from_bcd(data: u8) -> u8 {
    (10 * (data >> 4) + (data & 0x0F)) as u8
}

/// Packed-BCD byte for a two-digit value: tens digit in the high nibble,
/// ones digit in the low nibble.
pub open spec fn spec_to_bcd(data: u8) -> u8 {
    ((data / 10) << 4) | (data % 10)
}

/// Decodes a packed-BCD byte.
pub fn from_bcd(data: u8) -> (r: u8)
    ensures
        r == spec_from_bcd(data),
{
    proof {
        assert(10 * (data >> 4) + (data & 0x0F) <= 165) by (bit_vector);
    }
    (data >> 4) * 10 + (data & 0x0F)
}

/// Encodes a two-digit value as a packed-BCD byte.
pub fn to_bcd(data: u8) -> (r: u8)
    requires
        data <= 99,
    ensures
        r == spec_to_bcd(data),
{
    ((data / 10) << 4) | (data % 10)
}

/// Encoding then decoding gives the value back for every two-digit value.
pub proof fn lemma_bcd_round_trip(v: u8)
    requires
        v <= 99,
    ensures
        spec_from_bcd(spec_to_bcd(v)) == v,
{
    assert(v <= 99 ==> 10 * ((((v / 10) << 4) | (v % 10)) >> 4)
        + ((((v / 10) << 4) | (v % 10)) & 0x0F) == v) by (bit_vector);
}

} // verus!
