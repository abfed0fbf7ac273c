//! Bit-field updates on 8-bit register values.

use vstd::prelude::*;

verus! {

/// The register value that results from replacing, in `old_value`, exactly the
/// bits selected by `update_bits` with the corresponding bits of `data`.
pub open spec fn spec_update_bit(old_value: u8, update_bits: u8, data: u8) -> u8 {
    (old_value & !update_bits) | (update_bits & data)
}

/// Replaces the bits of `old_value` selected by `update_bits` with those of
/// `data`; every other bit keeps its old value.
pub fn update_bit(old_value: u8, update_bits: u8, data: u8) -> (result: u8)
    ensures
        result == spec_update_bit(old_value, update_bits, data),
{
    (old_value & (!update_bits)) | (update_bits & data)
}

} // verus!
