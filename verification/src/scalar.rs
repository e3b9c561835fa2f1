//! Real numbers as the panel carries them.

use vstd::prelude::*;

verus! {

/// A double-precision number, carried by its IEEE 754 bit pattern. The panel
/// never computes with these numbers: it stores what the operator entered or
/// the backend reported and hands it on unchanged.
#[derive(Clone, Copy, Debug, PartialEq, Eq, Structural)]
pub struct Scalar {
    pub bits: u64,
}

/// The bit pattern of positive zero.
pub const ZERO_BITS: u64 = 0;

/// The bit pattern of the double nearest to one tenth.
pub const ONE_TENTH_BITS: u64 = 0x3FB9_9999_9999_999A;

/// The bit pattern of one.
pub const ONE_BITS: u64 = 0x3FF0_0000_0000_0000;

/// The bit pattern of twenty.
pub const TWENTY_BITS: u64 = 0x4034_0000_0000_0000;

impl Scalar {
    /// The number with the given bit pattern.
    pub fn from_bits(bits: u64) -> (x: Scalar)
        ensures
            x.bits == bits,
    {
        Scalar { bits }
    }

    /// Positive zero.
    pub fn zero() -> (x: Scalar)
        ensures
            x.bits == ZERO_BITS,
    {
        Scalar { bits: ZERO_BITS }
    }
}

} // verus!
