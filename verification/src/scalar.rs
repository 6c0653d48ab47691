//! Single-precision numbers as bit patterns, and the exact operations on them.
use vstd::arithmetic::power2::{lemma_pow2_pos, lemma_pow2_strictly_increases, lemma_pow2_unfold, pow2};
use vstd::prelude::*;

verus! {

/// Pattern of the sign bit.
pub const SIGN_BIT: u32 = 0x8000_0000;

/// Pattern of positive infinity: every exponent bit set, no fraction bit.
pub const INFINITY_BITS: u32 = 0x7f80_0000;

/// Pattern of `1.0`.
pub const ONE_BITS: u32 = 0x3f80_0000;

/// Pattern of the machine epsilon, `2^-23`.
pub const EPSILON_BITS: u32 = 0x3400_0000;

/// Number of fraction patterns per exponent, `2^23`.
pub const FRACTION_SPAN: u32 = 0x80_0000;

/// A single-precision number, held as its IEEE-754 bit pattern: one sign bit,
/// eight exponent bits, twenty-three fraction bits.
#[derive(Clone, Copy, Debug)]
pub struct Scalar {
    pub bits: u32,
}

impl Scalar {
    /// The sign bit is set. Holds of `-0.0` and of negative NaNs too.
    pub open spec fn spec_is_sign_negative(self) -> bool {
        self.bits >= SIGN_BIT
    }

    /// The pattern without its sign bit.
    pub open spec fn magnitude(self) -> nat {
        if self.bits >= SIGN_BIT {
            (self.bits - SIGN_BIT) as nat
        } else {
            self.bits as nat
        }
    }

    /// The biased exponent, `0..=255`.
    pub open spec fn exponent(self) -> nat {
        self.magnitude() / (FRACTION_SPAN as nat)
    }

    /// The fraction field, `0..2^23`.
    pub open spec fn fraction(self) -> nat {
        self.magnitude() % (FRACTION_SPAN as nat)
    }

    /// Not a number: the exponent is all ones and the fraction is not zero.
    pub open spec fn spec_is_nan(self) -> bool {
        self.exponent() == 255 && self.fraction() != 0
    }

    /// Positive or negative infinity.
    pub open spec fn spec_is_infinite(self) -> bool {
        self.exponent() == 255 && self.fraction() == 0
    }

    /// Zero, subnormal or normal.
    pub open spec fn spec_is_finite(self) -> bool {
        self.exponent() < 255
    }

    /// `+0.0` or `-0.0`.
    pub open spec fn spec_is_zero(self) -> bool {
        self.magnitude() == 0
    }

    /// An integer that orders the patterns as the numbers they stand for:
    /// the magnitude, counted downwards from zero when the sign bit is set.
    /// Both zeros have key 0. Meaningless for a NaN.
    pub open spec fn key(self) -> int {
        if self.spec_is_sign_negative() {
            -(self.magnitude() as int)
        } else {
            self.magnitude() as int
        }
    }

    /// `self <= other` as numbers: false when either is a NaN.
    pub open spec fn spec_le(self, other: Scalar) -> bool {
        !self.spec_is_nan() && !other.spec_is_nan() && self.key() <= other.key()
    }

    /// `self < other` as numbers: false when either is a NaN.
    pub open spec fn spec_lt(self, other: Scalar) -> bool {
        !self.spec_is_nan() && !other.spec_is_nan() && self.key() < other.key()
    }

    /// The same number with the sign bit cleared.
    pub open spec fn spec_abs(self) -> Scalar {
        Scalar { bits: self.magnitude() as u32 }
    }

    /// The same number with the sign bit flipped.
    pub open spec fn spec_neg(self) -> Scalar {
        if self.bits >= SIGN_BIT {
            Scalar { bits: (self.bits - SIGN_BIT) as u32 }
        } else {
            Scalar { bits: (self.bits + SIGN_BIT) as u32 }
        }
    }

    /// `self` held to the range from `min` to `max`: a number below `min`
    /// becomes `min`, one above `max` becomes `max`, anything else, a NaN
    /// included, stays as it is.
    pub open spec fn spec_clamp(self, min: Scalar, max: Scalar) -> Scalar {
        if self.spec_lt(min) {
            min
        } else if max.spec_lt(self) {
            max
        } else {
            self
        }
    }

    pub open spec fn spec_zero() -> Scalar {
        Scalar { bits: 0 }
    }

    pub open spec fn spec_one() -> Scalar {
        Scalar { bits: ONE_BITS }
    }

    pub open spec fn spec_epsilon() -> Scalar {
        Scalar { bits: EPSILON_BITS }
    }

    /// Wraps a bit pattern.
    pub fn from_bits(bits: u32) -> (r: Scalar)
        ensures
            r.bits == bits,
    {
        Scalar { bits }
    }

    /// The bit pattern.
    pub fn to_bits(self) -> (r: u32)
        ensures
            r == self.bits,
    {
        self.bits
    }

    /// `+0.0`.
    #[verifier::when_used_as_spec(spec_zero)]
    pub fn zero() -> (r: Scalar)
        ensures
            r == Scalar::spec_zero(),
    {
        Scalar { bits: 0 }
    }

    /// `1.0`.
    #[verifier::when_used_as_spec(spec_one)]
    pub fn one() -> (r: Scalar)
        ensures
            r == Scalar::spec_one(),
    {
        Scalar { bits: ONE_BITS }
    }

    /// The machine epsilon, `2^-23`.
    #[verifier::when_used_as_spec(spec_epsilon)]
    pub fn epsilon() -> (r: Scalar)
        ensures
            r == Scalar::spec_epsilon(),
    {
        Scalar { bits: EPSILON_BITS }
    }

    /// Whether the sign bit is set.
    #[verifier::when_used_as_spec(spec_is_sign_negative)]
    pub fn is_sign_negative(self) -> (r: bool)
        ensures
            r == self.spec_is_sign_negative(),
    {
        let bits: u32 = self.bits;
        assert((bits & 0x8000_0000 != 0) == (bits >= 0x8000_0000)) by (bit_vector);
        bits & SIGN_BIT != 0
    }

    /// Whether this is a NaN.
    #[verifier::when_used_as_spec(spec_is_nan)]
    pub fn is_nan(self) -> (r: bool)
        ensures
            r == self.spec_is_nan(),
    {
        self.abs().bits > INFINITY_BITS
    }

    /// Whether this is `+0.0` or `-0.0`.
    #[verifier::when_used_as_spec(spec_is_zero)]
    pub fn is_zero(self) -> (r: bool)
        ensures
            r == self.spec_is_zero(),
    {
        self.abs().bits == 0
    }

    /// Clears the sign bit.
    #[verifier::when_used_as_spec(spec_abs)]
    pub fn abs(self) -> (r: Scalar)
        ensures
            r == self.spec_abs(),
    {
        let bits: u32 = self.bits;
        assert(bits & 0x7fff_ffff == (if bits >= 0x8000_0000 {
            (bits - 0x8000_0000) as u32
        } else {
            bits
        })) by (bit_vector);
        Scalar { bits: bits & 0x7fff_ffff }
    }

    /// Flips the sign bit. Exact for every pattern, NaNs included.
    #[verifier::when_used_as_spec(spec_neg)]
    pub fn neg(self) -> (r: Scalar)
        ensures
            r == self.spec_neg(),
    {
        let bits: u32 = self.bits;
        assert(bits ^ 0x8000_0000 == (if bits >= 0x8000_0000 {
            (bits - 0x8000_0000) as u32
        } else {
            (bits + 0x8000_0000) as u32
        })) by (bit_vector);
        Scalar { bits: bits ^ SIGN_BIT }
    }

    /// `self <= other` as numbers.
    #[verifier::when_used_as_spec(spec_le)]
    pub fn le(self, other: Scalar) -> (r: bool)
        ensures
            r == self.spec_le(other),
    {
        if self.is_nan() || other.is_nan() {
            false
        } else {
            let a: u32 = self.abs().bits;
            let b: u32 = other.abs().bits;
            match (self.is_sign_negative(), other.is_sign_negative()) {
                (false, false) => a <= b,
                (true, true) => b <= a,
                (true, false) => true,
                (false, true) => a == 0 && b == 0,
            }
        }
    }

    /// `self < other` as numbers.
    #[verifier::when_used_as_spec(spec_lt)]
    pub fn lt(self, other: Scalar) -> (r: bool)
        ensures
            r == self.spec_lt(other),
    {
        if self.is_nan() || other.is_nan() {
            false
        } else {
            let a: u32 = self.abs().bits;
            let b: u32 = other.abs().bits;
            match (self.is_sign_negative(), other.is_sign_negative()) {
                (false, false) => a < b,
                (true, true) => b < a,
                (true, false) => a != 0 || b != 0,
                (false, true) => false,
            }
        }
    }

    /// Holds `self` to the range from `min` to `max`. A NaN passes through
    /// unchanged; so does `-0.0` against a bound of `+0.0`, which it equals.
    #[verifier::when_used_as_spec(spec_clamp)]
    pub fn clamp(self, min: Scalar, max: Scalar) -> (r: Scalar)
        requires
            min.spec_le(max),
        ensures
            r == self.spec_clamp(min, max),
            self.spec_is_nan() ==> r == self,
            !self.spec_is_nan() ==> min.spec_le(r) && r.spec_le(max),
    {
        if self.lt(min) {
            min
        } else if max.lt(self) {
            max
        } else {
            self
        }
    }
}

impl Scalar {
    /// The size of a finite number, counted in units of `2^-149`, the smallest
    /// positive number the format holds: the fraction alone for a subnormal,
    /// and `(2^23 + fraction) * 2^(exponent - 1)` for a normal number.
    pub open spec fn size_in_units(self) -> nat {
        if self.exponent() == 0 {
            self.fraction()
        } else {
            (FRACTION_SPAN as nat + self.fraction()) * pow2((self.exponent() - 1) as nat)
        }
    }

    /// The number that a finite pattern stands for, in units of `2^-149`.
    pub open spec fn value_in_units(self) -> int {
        if self.spec_is_sign_negative() {
            -(self.size_in_units() as int)
        } else {
            self.size_in_units() as int
        }
    }

    /// Among finite numbers a larger magnitude pattern stands for a larger
    /// size.
    proof fn lemma_size_increases(self, other: Scalar)
        requires
            self.spec_is_finite(),
            other.spec_is_finite(),
            self.magnitude() < other.magnitude(),
        ensures
            self.size_in_units() < other.size_in_units(),
    {
        let span = FRACTION_SPAN as nat;
        let (ea, fa) = (self.exponent(), self.fraction());
        let (eb, fb) = (other.exponent(), other.fraction());
        assert(ea <= eb);
        if ea == eb {
            assert(fa < fb);
            if ea != 0 {
                let p = pow2((ea - 1) as nat);
                lemma_pow2_pos((ea - 1) as nat);
                assert((span + fa) * p < (span + fb) * p) by (nonlinear_arith)
                    requires
                        fa < fb,
                        p > 0,
                ;
            }
        } else {
            let q = pow2((eb - 1) as nat);
            lemma_pow2_pos((eb - 1) as nat);
            assert(span * q <= (span + fb) * q) by (nonlinear_arith)
                requires
                    q > 0,
            ;
            if ea == 0 {
                assert(span * 1 <= span * q) by (nonlinear_arith)
                    requires
                        q >= 1,
                ;
            } else {
                let p = pow2((ea - 1) as nat);
                lemma_pow2_pos((ea - 1) as nat);
                lemma_pow2_unfold(ea);
                if ea < eb - 1 {
                    lemma_pow2_strictly_increases(ea, (eb - 1) as nat);
                }
                assert(pow2(ea) <= q);
                assert((span + fa) * p < span * (2 * p)) by (nonlinear_arith)
                    requires
                        fa < span,
                        p > 0,
                ;
                assert(span * pow2(ea) <= span * q) by (nonlinear_arith)
                    requires
                        pow2(ea) <= q,
                ;
            }
        }
    }

    /// The order key and the value agree on finite numbers: comparing keys is
    /// comparing the numbers that the patterns stand for.
    pub proof fn lemma_key_orders_values(self, other: Scalar)
        requires
            self.spec_is_finite(),
            other.spec_is_finite(),
        ensures
            self.key() < other.key() <==> self.value_in_units() < other.value_in_units(),
            self.key() == other.key() <==> self.value_in_units() == other.value_in_units(),
            self.spec_le(other) <==> self.value_in_units() <= other.value_in_units(),
            self.spec_lt(other) <==> self.value_in_units() < other.value_in_units(),
            self.spec_is_zero() <==> self.value_in_units() == 0,
    {
        let zero = Scalar { bits: 0 };
        assert(zero.size_in_units() == 0);
        if self.magnitude() < other.magnitude() {
            self.lemma_size_increases(other);
        }
        if other.magnitude() < self.magnitude() {
            other.lemma_size_increases(self);
        }
        if 0 < self.magnitude() {
            zero.lemma_size_increases(self);
        }
        if 0 < other.magnitude() {
            zero.lemma_size_increases(other);
        }
    }

    /// Every finite number lies strictly between the two infinities, and no
    /// NaN is ordered against anything.
    pub proof fn lemma_order_at_the_ends(self, other: Scalar)
        requires
            other.spec_is_infinite(),
        ensures
            self.spec_is_finite() && !other.spec_is_sign_negative() ==> self.spec_lt(other),
            self.spec_is_finite() && other.spec_is_sign_negative() ==> other.spec_lt(self),
            self.spec_is_nan() ==> !self.spec_le(other) && !other.spec_le(self) && !self.spec_le(self),
    {
    }

    /// `1.0` stands for `2^149` units of `2^-149`, and the machine epsilon for
    /// `2^126` of them, which is `2^-23`.
    pub proof fn lemma_named_values()
        ensures
            Scalar::spec_zero().value_in_units() == 0,
            Scalar::spec_one().value_in_units() == pow2(149),
            Scalar::spec_epsilon().value_in_units() == pow2(126),
            Scalar::spec_one().spec_neg().value_in_units() == -(pow2(149) as int),
    {
        vstd::arithmetic::power2::lemma2_to64();
        vstd::arithmetic::power2::lemma_pow2_adds(23, 126);
        vstd::arithmetic::power2::lemma_pow2_adds(23, 103);
        let one = Scalar::spec_one();
        assert(one.exponent() == 127 && one.fraction() == 0);
        let eps = Scalar::spec_epsilon();
        assert(eps.exponent() == 104 && eps.fraction() == 0);
        let minus_one = one.spec_neg();
        assert(minus_one.bits == 0xbf80_0000);
        assert(minus_one.exponent() == 127 && minus_one.fraction() == 0);
    }
}

} // verus!
