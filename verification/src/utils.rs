//! Small helpers on 16-bit words.

use vstd::prelude::*;

verus! {

/// A word is negative, in the two's-complement reading, exactly when bit 15
/// is set, i.e. when its unsigned value is at least 0x8000.
pub open spec fn spec_is_negative(value: u16) -> bool {
    value >= 0x8000
}

/// The two's-complement reading of a word: values from 0x8000 up stand for
/// `value - 0x10000`.
pub open spec fn spec_signed(value: u16) -> int {
    if value >= 0x8000 {
        value - 0x10000
    } else {
        value as int
    }
}

/// Casting a word to `i16` yields exactly its two's-complement reading.
pub proof fn lemma_u16_as_i16(value: u16)
    by (bit_vector)
    ensures
        (value as i16) as int == (if value >= 0x8000 {
            value - 0x10000
        } else {
            value as int
        }),
{
}

/// Is the word negative (bit 15 set)?
pub fn is_negative(value: u16) -> (r: bool)
    ensures
        r == spec_is_negative(value),
{
    proof {
        assert((value >> 15) == 1 <==> value >= 0x8000) by (bit_vector);
    }
    value >> 15 == 1
}

} // verus!
