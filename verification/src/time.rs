//! Timestamps of the radio's hardware clock.

use vstd::prelude::*;

verus! {

/// Bit pattern of the binary64 value `1.0`.
pub const ONE_SECOND_BITS: u64 = 0x3FF0_0000_0000_0000;

/// Bit pattern of the binary64 value `-0.0`.
pub const NEGATIVE_ZERO_BITS: u64 = 0x8000_0000_0000_0000;

/// Tells whether a binary64 bit pattern encodes a value in `[0, 1)`.
///
/// The non-negative finite values order as their bit patterns do, so these are
/// the patterns below that of `1.0`, and negative zero, which equals zero.
pub open spec fn is_sub_second(fraction_bits: u64) -> bool {
    fraction_bits < ONE_SECOND_BITS || fraction_bits == NEGATIVE_ZERO_BITS
}

/// An instant of the radio's hardware clock.
///
/// The instant lies `seconds` whole seconds and a fraction of a second after
/// the clock's origin. The fraction is kept as the bit pattern of the binary64
/// number that the radio driver takes, so that a value passes through the
/// library unchanged.
#[derive(Debug, Clone, Copy, PartialEq, Eq, Structural)]
pub struct TimeSpec {
    /// Whole seconds.
    pub seconds: i64,
    /// Bit pattern of the fractional seconds, a binary64 value.
    pub fraction_bits: u64,
}

impl TimeSpec {
    /// The fraction is a sub-second offset: a value in `[0, 1)`.
    pub open spec fn wf(&self) -> bool {
        is_sub_second(self.fraction_bits)
    }

    /// Checks that the fraction is a sub-second offset.
    pub fn is_valid(&self) -> (valid: bool)
        ensures
            valid == self.wf(),
    {
        self.fraction_bits < ONE_SECOND_BITS || self.fraction_bits == NEGATIVE_ZERO_BITS
    }
}

} // verus!
