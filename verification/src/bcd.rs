//! Binary-coded-decimal conversion.
//!
//! The calendar, alarm and timestamp registers of the device store each
//! two-digit value with the tens digit in the high nibble and the ones
//! digit in the low nibble.

use vstd::prelude::*;

verus! {

/// BCD encoding of a two-digit binary value: tens digit in the high
/// nibble, ones digit in the low nibble.
pub open spec fn spec_bin_to_bcd(v: u8) -> u8
    recommends
        v < 100,
{
    ((v / 10) << 4) | (v % 10)
}

/// Binary value of a BCD byte: ten times the high nibble plus the low
/// nibble.  Total on all bytes; at most 165.
pub open spec fn spec_bcd_to_bin(b: u8) -> u8 {
    (((b & 0xF0) >> 4) * 10 + (b & 0x0F)) as u8
}

/// Converts a binary value below 100 to BCD format.
pub fn bin_to_bcd(value: u8) -> (r: u8)
    requires
        value < 100,
    ensures
        r == spec_bin_to_bcd(value),
{
    ((value / 10) << 4) | (value % 10)
}

/// Converts a BCD value to binary format.
pub fn bcd_to_bin(value: u8) -> (r: u8)
    ensures
        r == spec_bcd_to_bin(value),
{
    proof {
        assert(((value & 0xF0) >> 4) * 10 + (value & 0x0F) <= 165) by (bit_vector);
    }
    ((value & 0xF0) >> 4) * 10 + (value & 0x0F)
}

/// Every two-digit value survives the BCD round trip: decoding the
/// encoding of any `v` below 100 gives back `v`.
pub proof fn lemma_bcd_round_trip(v: u8)
    requires
        v < 100,
    ensures
        spec_bcd_to_bin(spec_bin_to_bcd(v)) == v,
{
    assert(spec_bcd_to_bin(spec_bin_to_bcd(v)) == v) by (bit_vector)
        requires
            v < 100,
    ;
}

} // verus!
