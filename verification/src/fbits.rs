//! Exact predicates over IEEE-754 double-precision bit patterns.
//!
//! The engine stores every real-valued quantity as the 64-bit pattern of an
//! IEEE-754 double (what `f64::to_bits` yields).  The classifications the
//! engine's logic needs — finite, strictly positive, non-negative, at most
//! two — are exact integer functions of that pattern:
//!
//! * bits 62..52 are the exponent; a double is finite iff they are not all
//!   ones (all ones encodes infinities and NaNs);
//! * bit 63 is the sign; zero has the two patterns `0` (+0.0) and
//!   `0x8000_0000_0000_0000` (-0.0);
//! * for two finite doubles with sign bit zero, the unsigned order of the
//!   patterns equals the numeric order, so "at most 2.0" is a comparison
//!   against the pattern of 2.0, `0x4000_0000_0000_0000`.

use vstd::prelude::*;

verus! {

/// Bit pattern of +2.0.
pub const F64_BITS_TWO: u64 = 0x4000_0000_0000_0000;

/// Bit pattern of -0.0 (the only negative pattern whose value is not < 0).
pub const F64_BITS_NEG_ZERO: u64 = 0x8000_0000_0000_0000;

/// The double encoded by `b` is neither an infinity nor a NaN.
pub open spec fn f64_bits_finite(b: u64) -> bool {
    (b >> 52) & 0x7ff != 0x7ff
}

/// The double encoded by `b` is finite and strictly positive.
pub open spec fn f64_bits_pos(b: u64) -> bool {
    f64_bits_finite(b) && b >> 63 == 0 && b != 0
}

/// The double encoded by `b` is finite and non-negative (this admits -0.0,
/// which compares equal to zero).
pub open spec fn f64_bits_nonneg(b: u64) -> bool {
    f64_bits_finite(b) && (b >> 63 == 0 || b == F64_BITS_NEG_ZERO)
}

/// The double encoded by `b` lies in the interval (0, 2]: it is finite,
/// strictly positive, and its pattern does not exceed the pattern of 2.0.
pub open spec fn f64_bits_pos_le_two(b: u64) -> bool {
    f64_bits_pos(b) && b <= F64_BITS_TWO
}

/// Exec check for `f64_bits_finite`.
pub fn is_finite_bits(b: u64) -> (r: bool)
    ensures
        r == f64_bits_finite(b),
{
    (b >> 52) & 0x7ff != 0x7ff
}

/// Exec check for `f64_bits_pos`.
pub fn is_pos_bits(b: u64) -> (r: bool)
    ensures
        r == f64_bits_pos(b),
{
    is_finite_bits(b) && b >> 63 == 0 && b != 0
}

/// Exec check for `f64_bits_nonneg`.
pub fn is_nonneg_bits(b: u64) -> (r: bool)
    ensures
        r == f64_bits_nonneg(b),
{
    is_finite_bits(b) && (b >> 63 == 0 || b == F64_BITS_NEG_ZERO)
}

/// Exec check for `f64_bits_pos_le_two`.
pub fn is_pos_le_two_bits(b: u64) -> (r: bool)
    ensures
        r == f64_bits_pos_le_two(b),
{
    is_pos_bits(b) && b <= F64_BITS_TWO
}

/// An ordered pair of doubles, both held as bit patterns.
#[derive(Clone, Copy, Debug, PartialEq, Eq, Structural)]
pub struct Vec2Bits {
    pub x: u64,
    pub y: u64,
}

impl Vec2Bits {
    /// Both components encode finite doubles.
    pub open spec fn finite(self) -> bool {
        f64_bits_finite(self.x) && f64_bits_finite(self.y)
    }

    pub fn new(x: u64, y: u64) -> (r: Vec2Bits)
        ensures
            r == (Vec2Bits { x, y }),
    {
        Vec2Bits { x, y }
    }

    /// Exec check for `finite`.
    pub fn is_finite(&self) -> (r: bool)
        ensures
            r == self.finite(),
    {
        is_finite_bits(self.x) && is_finite_bits(self.y)
    }
}

} // verus!
