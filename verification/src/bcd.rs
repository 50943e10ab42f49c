//! Packed binary-coded-decimal bytes: the encoding used by every
//! time/calendar register of the chip. The high nibble carries the tens
//! digit, the low nibble the ones digit.

use vstd::prelude::*;

verus! {

/// The BCD byte for `x`: tens digit in the high nibble, ones digit in the
/// low nibble. Meaningful for `x < 100`.
pub open spec fn spec_to_bcd(x: u8) -> u8 {
    (16 * ((x as int) / 10) + (x as int) % 10) as u8
}

/// The value a BCD byte stands for: sixteens become tens. Meaningful when
/// both nibbles are decimal digits, but defined (and total) for every byte.
pub open spec fn spec_from_bcd(x: u8) -> u8 {
    (10 * ((x as int) / 16) + (x as int) % 16) as u8
}

/// Packs a binary value below 100 into a BCD byte.
pub fn to_bcd(x: u8) -> (r: u8)
    requires
        x < 100,
    ensures
        r == spec_to_bcd(x),
{
    proof {
        assert(16 * ((x as int) / 10) + (x as int) % 10 < 256) by (nonlinear_arith)
            requires
                x < 100,
        ;
    }
    (x / 10) * 16 + (x % 10)
}

/// Unpacks a BCD byte into its binary value.
pub fn from_bcd(x: u8) -> (r: u8)
    ensures
        r == spec_from_bcd(x),
{
    proof {
        assert(10 * ((x as int) / 16) + (x as int) % 16 < 256) by (nonlinear_arith);
    }
    (x / 16) * 10 + (x % 16)
}

/// Law: packing a value below 100 into BCD and unpacking it returns the
/// value itself.
pub proof fn lemma_bcd_round_trip(x: u8)
    requires
        x < 100,
    ensures
        spec_from_bcd(spec_to_bcd(x)) == x,
{
    assert(spec_from_bcd(spec_to_bcd(x)) == x) by (bit_vector)
        requires
            x < 100,
    ;
}

} // verus!
