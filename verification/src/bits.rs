//! Single-bit views of a register byte.

use vstd::prelude::*;

verus! {

/// Whether bit `bit` of `data` is set.
pub open spec fn spec_bit(data: u8, bit: u8) -> bool
    recommends
        bit < 8,
{
    data & (1u8 << bit) == (1u8 << bit)
}

/// `data` with bit `bit` forced to `value` and every other bit kept.
pub open spec fn spec_set_bit(data: u8, bit: u8, value: bool) -> u8
    recommends
        bit < 8,
{
    if value {
        data | (1u8 << bit)
    } else {
        data & !(1u8 << bit)
    }
}

/// Forcing a bit sets exactly that bit to the requested value and leaves
/// every other bit as it was.
pub proof fn lemma_set_bit(data: u8, bit: u8, value: bool)
    requires
        bit < 8,
    ensures
        spec_bit(spec_set_bit(data, bit, value), bit) == value,
        forall|j: u8| j < 8 && j != bit ==> spec_bit(spec_set_bit(data, bit, value), j)
            == spec_bit(data, j),
{
    assert(bit < 8 ==> (data | (1u8 << bit)) & (1u8 << bit) == (1u8 << bit)) by (bit_vector);
    assert(bit < 8 ==> (data & !(1u8 << bit)) & (1u8 << bit) != (1u8 << bit)) by (bit_vector);
    assert(forall|j: u8|
        bit < 8 && j < 8 && j != bit ==> ((data | (1u8 << bit)) & (1u8 << j) == (1u8 << j))
            == (data & (1u8 << j) == (1u8 << j))) by (bit_vector);
    assert(forall|j: u8|
        bit < 8 && j < 8 && j != bit ==> ((data & !(1u8 << bit)) & (1u8 << j) == (1u8 << j))
            == (data & (1u8 << j) == (1u8 << j))) by (bit_vector);
}

} // verus!
