//! The rectangle of the complex plane being rasterized.
//!
//! Each bound of the rectangle is carried as the IEEE 754 bit pattern of the
//! `f64` that the caller chose, so that the library can decide validity
//! exactly: a bound is acceptable only if it is finite, and each axis must
//! run from a strictly smaller to a strictly larger value. Finiteness and the
//! order of two finite doubles are both properties of the bit patterns alone.

use vstd::prelude::*;

verus! {

/// The encoded double is finite: its exponent field is not all ones, which
/// would mark an infinity or a NaN.
pub open spec fn bits_finite(bits: u64) -> bool {
    (bits >> 52) & 0x7ff != 0x7ff
}

/// The sign bit of the encoded double.
pub open spec fn bits_negative(bits: u64) -> bool {
    bits >> 63 == 1
}

/// The encoded double with its sign bit cleared.
pub open spec fn bits_magnitude(bits: u64) -> u64 {
    bits & 0x7fff_ffff_ffff_ffff
}

/// The strict order of the two finite doubles the bit patterns encode.
///
/// The two zeros compare equal whatever their signs; otherwise a negative
/// value lies below a positive one, two positives order by magnitude, and two
/// negatives order by magnitude reversed.
pub open spec fn bits_lt(a: u64, b: u64) -> bool {
    if bits_magnitude(a) == 0 && bits_magnitude(b) == 0 {
        false
    } else if bits_negative(a) != bits_negative(b) {
        bits_negative(a)
    } else if bits_negative(a) {
        bits_magnitude(a) > bits_magnitude(b)
    } else {
        bits_magnitude(a) < bits_magnitude(b)
    }
}

/// Decides `bits_finite`.
pub fn is_finite_bits(bits: u64) -> (finite: bool)
    ensures
        finite == bits_finite(bits),
{
    (bits >> 52) & 0x7ff != 0x7ff
}

/// Decides `bits_lt`.
pub fn lt_bits(a: u64, b: u64) -> (lt: bool)
    ensures
        lt == bits_lt(a, b),
{
    let mag_a = a & 0x7fff_ffff_ffff_ffff;
    let mag_b = b & 0x7fff_ffff_ffff_ffff;
    let neg_a = a >> 63 == 1;
    let neg_b = b >> 63 == 1;
    if mag_a == 0 && mag_b == 0 {
        false
    } else if neg_a != neg_b {
        neg_a
    } else if neg_a {
        mag_a > mag_b
    } else {
        mag_a < mag_b
    }
}

/// A rectangle of the complex plane, each bound the bit pattern of an `f64`:
/// `x` spans the real axis, `y` the imaginary one.
#[derive(Clone, Copy, Debug, PartialEq, Eq, Structural)]
pub struct Region {
    pub x_min: u64,
    pub x_max: u64,
    pub y_min: u64,
    pub y_max: u64,
}

impl Region {
    /// The rectangle is acceptable: all four bounds are finite and each axis
    /// is non-degenerate, running from a strictly smaller to a strictly
    /// larger value.
    pub open spec fn wf(self) -> bool {
        &&& bits_finite(self.x_min)
        &&& bits_finite(self.x_max)
        &&& bits_finite(self.y_min)
        &&& bits_finite(self.y_max)
        &&& bits_lt(self.x_min, self.x_max)
        &&& bits_lt(self.y_min, self.y_max)
    }

    /// Decides `wf`.
    pub fn is_wf(&self) -> (ok: bool)
        ensures
            ok == self.wf(),
    {
        is_finite_bits(self.x_min) && is_finite_bits(self.x_max) && is_finite_bits(self.y_min)
            && is_finite_bits(self.y_max) && lt_bits(self.x_min, self.x_max) && lt_bits(
            self.y_min,
            self.y_max,
        )
    }
}

} // verus!
