use vstd::prelude::*;

verus! {

/// A real-valued parameter as the backend receives it: the IEEE-754 binary32
/// encoding, carried as its 32 bits so that it passes through unchanged.
#[derive(Debug, Clone, Copy, PartialEq, Eq, Structural)]
pub struct Real32 {
    pub bits: u32,
}

/// Sign bit of a binary32 encoding.
pub const SIGN_BIT: u32 = 0x8000_0000;

/// Encoding of positive infinity; every encoding with a clear sign bit above
/// it is a NaN.
pub const POSITIVE_INFINITY_BITS: u32 = 0x7F80_0000;

/// Whether the number that `x` encodes is greater than the positive finite
/// number that `limit` encodes. With a clear sign bit, binary32 encodings
/// order as the numbers do, up to infinity; a negative number or a NaN is
/// never greater.
pub open spec fn exceeds(x: Real32, limit: Real32) -> bool {
    &&& x.bits < SIGN_BIT
    &&& x.bits <= POSITIVE_INFINITY_BITS
    &&& x.bits > limit.bits
}

/// Whether an encoding is that of a positive finite number.
pub open spec fn is_positive_finite(x: Real32) -> bool {
    0 < x.bits < POSITIVE_INFINITY_BITS
}

impl Real32 {
    /// Wraps a binary32 encoding.
    pub fn from_bits(bits: u32) -> (r: Real32)
        ensures
            r.bits == bits,
    {
        Real32 { bits }
    }

    /// Whether this number is greater than `limit`, a positive finite number.
    pub(crate) fn exceeds(&self, limit: Real32) -> (r: bool)
        requires
            is_positive_finite(limit),
        ensures
            r == exceeds(*self, limit),
    {
        self.bits < SIGN_BIT && self.bits <= POSITIVE_INFINITY_BITS && self.bits > limit.bits
    }
}

} // verus!
