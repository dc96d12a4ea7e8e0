//! Binary64 numbers carried as their 64-bit encodings.
//!
//! Sign, magnitude and order are read off the encoding directly and proved
//! here. The four rounded operations are computed by `rustc_apfloat` and are
//! known to the verifier only by name.

use rustc_apfloat::ieee::Double;
use rustc_apfloat::Float;
use vstd::prelude::*;

verus! {

/// Mask of the sign bit of an encoding.
pub const SIGN_MASK: u64 = 0x8000_0000_0000_0000;

/// Mask of the exponent and fraction bits of an encoding.
pub const MAGNITUDE_MASK: u64 = 0x7fff_ffff_ffff_ffff;

/// Magnitude bits of positive infinity; every larger magnitude is a NaN.
pub const INFINITY_BITS: u64 = 0x7ff0_0000_0000_0000;

/// Encoding of one half.
pub const HALF_BITS: u64 = 0x3fe0_0000_0000_0000;

/// Encoding of the binary64 sum of two encoded numbers, rounded to nearest,
/// ties to even.
pub uninterp spec fn binary64_sum(a: u64, b: u64) -> u64;

/// Encoding of the rounded binary64 difference `a - b`.
pub uninterp spec fn binary64_difference(a: u64, b: u64) -> u64;

/// Encoding of the rounded binary64 product.
pub uninterp spec fn binary64_product(a: u64, b: u64) -> u64;

/// Encoding of the rounded binary64 quotient `a / b`.
pub uninterp spec fn binary64_quotient(a: u64, b: u64) -> u64;

/// A binary64 number, identified with its encoding. Two scalars are `==`
/// when their encodings agree, so `+0` and `-0` differ and a NaN equals
/// itself; numeric comparison is [`Scalar::gt`] and [`Scalar::is_zero`].
#[derive(Clone, Copy, Debug, PartialEq, Eq, Structural)]
pub struct Scalar {
    pub bits: u64,
}

impl Scalar {
    /// Exponent and fraction bits, as a number.
    pub open spec fn magnitude(self) -> int {
        (self.bits & MAGNITUDE_MASK) as int
    }

    /// Whether the sign bit is set.
    pub open spec fn sign_bit(self) -> bool {
        self.bits & SIGN_MASK != 0
    }

    /// Whether the number is `+0` or `-0`.
    pub open spec fn zero_valued(self) -> bool {
        self.magnitude() == 0
    }

    /// Whether the encoding is a NaN.
    pub open spec fn nan(self) -> bool {
        self.magnitude() > INFINITY_BITS
    }

    /// Position of a number that is not a NaN on the extended real line:
    /// the order of ranks is the numeric order, and both zeros have rank 0.
    pub open spec fn rank(self) -> int {
        if self.sign_bit() {
            -self.magnitude()
        } else {
            self.magnitude()
        }
    }

    /// Numeric `self > other`: false as soon as either side is a NaN.
    pub open spec fn exceeds(self, other: Scalar) -> bool {
        !self.nan() && !other.nan() && self.rank() > other.rank()
    }

    /// The number with the sign bit flipped.
    pub open spec fn negated(self) -> Scalar {
        Scalar { bits: self.bits ^ SIGN_MASK }
    }

    /// The number with the sign bit cleared.
    pub open spec fn absolute(self) -> Scalar {
        Scalar { bits: self.bits & MAGNITUDE_MASK }
    }

    /// Rounded sum.
    pub open spec fn plus(self, other: Scalar) -> Scalar {
        Scalar { bits: binary64_sum(self.bits, other.bits) }
    }

    /// Rounded difference.
    pub open spec fn minus(self, other: Scalar) -> Scalar {
        Scalar { bits: binary64_difference(self.bits, other.bits) }
    }

    /// Rounded product.
    pub open spec fn times(self, other: Scalar) -> Scalar {
        Scalar { bits: binary64_product(self.bits, other.bits) }
    }

    /// Rounded quotient.
    pub open spec fn over(self, other: Scalar) -> Scalar {
        Scalar { bits: binary64_quotient(self.bits, other.bits) }
    }

    /// Positive zero.
    pub open spec fn spec_zero() -> Scalar {
        Scalar { bits: 0 }
    }

    /// One half.
    pub open spec fn spec_half() -> Scalar {
        Scalar { bits: HALF_BITS }
    }

    pub fn from_bits(bits: u64) -> (s: Scalar)
        ensures
            s.bits == bits,
    {
        Scalar { bits }
    }

    pub fn to_bits(self) -> (bits: u64)
        ensures
            bits == self.bits,
    {
        self.bits
    }

    #[verifier::when_used_as_spec(spec_zero)]
    pub fn zero() -> (s: Scalar)
        ensures
            s == Scalar::spec_zero(),
            !s.sign_bit(),
    {
        assert(0u64 & SIGN_MASK == 0) by (bit_vector);
        Scalar { bits: 0 }
    }

    #[verifier::when_used_as_spec(spec_half)]
    pub fn half() -> (s: Scalar)
        ensures
            s == Scalar::spec_half(),
            !s.sign_bit(),
    {
        assert(HALF_BITS & SIGN_MASK == 0) by (bit_vector);
        Scalar { bits: HALF_BITS }
    }

    pub fn is_zero(self) -> (z: bool)
        ensures
            z == self.zero_valued(),
    {
        self.bits & MAGNITUDE_MASK == 0
    }

    pub fn is_nan(self) -> (n: bool)
        ensures
            n == self.nan(),
    {
        self.bits & MAGNITUDE_MASK > INFINITY_BITS
    }

    pub fn neg(self) -> (s: Scalar)
        ensures
            s == self.negated(),
    {
        Scalar { bits: self.bits ^ SIGN_MASK }
    }

    pub fn abs(self) -> (s: Scalar)
        ensures
            s == self.absolute(),
            !s.sign_bit(),
    {
        let bits = self.bits;
        assert((bits & MAGNITUDE_MASK) & SIGN_MASK == 0) by (bit_vector);
        Scalar { bits: self.bits & MAGNITUDE_MASK }
    }

    /// Numeric greater-than, decided on the encodings.
    pub fn gt(self, other: Scalar) -> (g: bool)
        ensures
            g == self.exceeds(other),
    {
        let ma: u64 = self.bits & MAGNITUDE_MASK;
        let mb: u64 = other.bits & MAGNITUDE_MASK;
        if ma > INFINITY_BITS || mb > INFINITY_BITS {
            return false;
        }
        let na: bool = self.bits & SIGN_MASK != 0;
        let nb: bool = other.bits & SIGN_MASK != 0;
        if na {
            // self <= 0: it exceeds only a negative number of larger magnitude.
            nb && ma < mb
        } else if nb {
            // self >= 0 > -mb, unless both are zeros.
            ma > 0 || mb > 0
        } else {
            ma > mb
        }
    }
}

/// Calls `Add::add` of `rustc_apfloat::ieee::Double` on the two decoded
/// numbers. Trusted: the encoding of the result depends on the two encodings
/// alone, and is what `binary64_sum` names; and the sum of two numbers without
/// a sign bit has none, be it a zero, a number, an infinity or a NaN (a NaN
/// that goes in comes out with its sign).
#[verifier::external_body]
pub(crate) fn sum(a: Scalar, b: Scalar) -> (r: Scalar)
    ensures
        r.bits == binary64_sum(a.bits, b.bits),
        !a.sign_bit() && !b.sign_bit() ==> !r.sign_bit(),
{
    let x = Double::from_bits(a.bits as u128);
    let y = Double::from_bits(b.bits as u128);
    Scalar { bits: (x + y).value.to_bits() as u64 }
}

/// Calls `Sub::sub` of `rustc_apfloat::ieee::Double`. Trusted: the encoding
/// of the result is what `binary64_difference` names.
#[verifier::external_body]
pub(crate) fn difference(a: Scalar, b: Scalar) -> (r: Scalar)
    ensures
        r.bits == binary64_difference(a.bits, b.bits),
{
    let x = Double::from_bits(a.bits as u128);
    let y = Double::from_bits(b.bits as u128);
    Scalar { bits: (x - y).value.to_bits() as u64 }
}

/// Calls `Mul::mul` of `rustc_apfloat::ieee::Double`. Trusted: the encoding
/// of the result is what `binary64_product` names; and the product of two
/// numbers without a sign bit has none (a NaN that goes in comes out with its
/// sign, and the NaN for zero times infinity is made without one).
#[verifier::external_body]
pub(crate) fn product(a: Scalar, b: Scalar) -> (r: Scalar)
    ensures
        r.bits == binary64_product(a.bits, b.bits),
        !a.sign_bit() && !b.sign_bit() ==> !r.sign_bit(),
{
    let x = Double::from_bits(a.bits as u128);
    let y = Double::from_bits(b.bits as u128);
    Scalar { bits: (x * y).value.to_bits() as u64 }
}

/// Calls `Div::div` of `rustc_apfloat::ieee::Double`. Trusted: the encoding
/// of the result is what `binary64_quotient` names. Division by zero does
/// not fail: it gives an infinity or a NaN.
#[verifier::external_body]
pub(crate) fn quotient(a: Scalar, b: Scalar) -> (r: Scalar)
    ensures
        r.bits == binary64_quotient(a.bits, b.bits),
{
    let x = Double::from_bits(a.bits as u128);
    let y = Double::from_bits(b.bits as u128);
    Scalar { bits: (x / y).value.to_bits() as u64 }
}

} // verus!
