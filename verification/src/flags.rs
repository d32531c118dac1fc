//! The condition flag: a three-valued summary of the last result written by
//! a flag-setting operation.

use vstd::prelude::*;

verus! {

/// The sign of the most recently computed result.
#[derive(Clone, Copy, Debug, PartialEq, Eq, Structural)]
pub enum Sign {
    Negative,
    Zero,
    Positive,
}

/// A 16-bit word read as a two's-complement integer, `-32768..=32767`.
pub open spec fn signed_value(word: u16) -> int {
    if word >= 0x8000 {
        word - 0x1_0000
    } else {
        word as int
    }
}

/// The sign of a word read as a two's-complement integer.
pub open spec fn spec_sign_of(word: u16) -> Sign {
    if signed_value(word) < 0 {
        Sign::Negative
    } else if signed_value(word) > 0 {
        Sign::Positive
    } else {
        Sign::Zero
    }
}

/// Whether a branch-condition mask enables a branch under the given flag.
/// Bit 2 of the mask stands for negative, bit 1 for zero, bit 0 for positive.
pub open spec fn spec_enables(mask: u16, sign: Sign) -> bool {
    match sign {
        Sign::Negative => (mask / 4) % 2 == 1,
        Sign::Zero => (mask / 2) % 2 == 1,
        Sign::Positive => mask % 2 == 1,
    }
}

/// Classifies a word by its sign as a two's-complement integer.
#[verifier::when_used_as_spec(spec_sign_of)]
pub fn sign_of(word: u16) -> (sign: Sign)
    ensures
        sign == spec_sign_of(word),
{
    let result: i16 = #[verifier::truncate] (word as i16);
    assert((word as i16) < 0 <==> word >= 0x8000) by (bit_vector);
    assert((word as i16) > 0 <==> 0 < word < 0x8000) by (bit_vector);
    if result < 0 {
        Sign::Negative
    } else if result > 0 {
        Sign::Positive
    } else {
        Sign::Zero
    }
}

/// Tests a branch-condition mask against a flag.
#[verifier::when_used_as_spec(spec_enables)]
pub fn enables(mask: u16, sign: Sign) -> (enabled: bool)
    ensures
        enabled == spec_enables(mask, sign),
{
    assert(mask >> 2 == mask / 4 && mask >> 1 == mask / 2) by (bit_vector);
    match sign {
        Sign::Negative => (mask >> 2) % 2 == 1,
        Sign::Zero => (mask >> 1) % 2 == 1,
        Sign::Positive => mask % 2 == 1,
    }
}

} // verus!
