//! Real numbers in IEEE-754 binary32 encoding, held as their bit pattern.

use vstd::prelude::*;

verus! {

/// Number of fraction bits in a binary32 pattern.
pub const FRACTION_BITS: u32 = 23;

/// Pattern of positive infinity; every finite positive number lies below it.
pub const POSITIVE_INFINITY_BITS: u32 = 0x7f80_0000;

/// Pattern of the number one.
pub const ONE_BITS: u32 = 0x3f80_0000;

/// Pattern of the number one half.
pub const HALF_BITS: u32 = 0x3f00_0000;

/// Pattern of negative zero.
pub const NEGATIVE_ZERO_BITS: u32 = 0x8000_0000;

/// Pattern of negative infinity; every number below zero lies above negative
/// zero and up to here.
pub const NEGATIVE_INFINITY_BITS: u32 = 0xff80_0000;

/// The pattern that stands in for every NaN where numbers are compared.
pub const CANONICAL_NAN_BITS: u32 = 0x7fc0_0000;

/// The number that a pattern stands for: the pattern itself, except that
/// every NaN is one and the same.  Two patterns stand for the same number
/// exactly when they agree here.
pub open spec fn as_number(bits: u32) -> u32 {
    if (Scalar { bits }).is_nan() {
        CANONICAL_NAN_BITS
    } else {
        bits
    }
}

/// The numbers that a sequence of patterns stands for.
pub open spec fn numbers(bits: Seq<u32>) -> Seq<u32> {
    bits.map_values(|b: u32| as_number(b))
}

/// A binary32 number: one sign bit, eight exponent bits, twenty-three
/// fraction bits, from the most significant bit down.
#[derive(Debug, Clone, Copy, PartialEq, Eq, Structural)]
pub struct Scalar {
    pub bits: u32,
}

impl Scalar {
    /// Whether the sign bit is set.
    pub open spec fn sign(self) -> bool {
        self.bits as int / 0x8000_0000 == 1
    }

    /// The biased exponent field, from 0 to 255.
    pub open spec fn exponent(self) -> int {
        (self.bits as int / 0x80_0000) % 0x100
    }

    /// The fraction field, below two to the twenty-third.
    pub open spec fn fraction(self) -> int {
        self.bits as int % 0x80_0000
    }

    /// Neither an infinity nor a NaN.
    pub open spec fn is_finite(self) -> bool {
        self.exponent() < 0xff
    }

    /// Not a number.
    pub open spec fn is_nan(self) -> bool {
        self.exponent() == 0xff && self.fraction() != 0
    }

    /// Zero of either sign.
    pub open spec fn is_zero(self) -> bool {
        self.exponent() == 0 && self.fraction() == 0
    }

    /// A number strictly below zero, negative infinity included.
    pub open spec fn is_negative(self) -> bool {
        self.sign() && !self.is_nan() && !self.is_zero()
    }

    /// A finite number strictly above zero.
    pub open spec fn is_positive_finite(self) -> bool {
        !self.sign() && self.is_finite() && !self.is_zero()
    }

    /// A number in the closed interval from zero to one.  With the sign bit
    /// clear, a number is at most one when its exponent is below the bias of
    /// 127, or equals it with an empty fraction.
    pub open spec fn is_probability(self) -> bool {
        self.is_zero() || (!self.sign() && (self.exponent() < 127 || (self.exponent() == 127
            && self.fraction() == 0)))
    }

    /// The significand: the fraction field, with the leading one that a
    /// normal number leaves unwritten.
    pub open spec fn significand(self) -> nat {
        if self.exponent() == 0 {
            self.fraction() as nat
        } else {
            (self.fraction() + 0x80_0000) as nat
        }
    }

    /// The power of two that scales the significand, counted from the
    /// smallest one that the encoding reaches, two to the minus 149.
    pub open spec fn shift(self) -> nat {
        if self.exponent() == 0 {
            0
        } else {
            (self.exponent() - 1) as nat
        }
    }

    /// The absolute value of a finite number, in units of two to the minus
    /// 149: the number itself is `magnitude() / 2^149`, negated when the sign
    /// bit is set.
    pub open spec fn magnitude(self) -> nat {
        self.significand() * vstd::arithmetic::power2::pow2(self.shift())
    }

    /// Wraps a bit pattern.
    pub fn from_bits(bits: u32) -> (r: Scalar)
        ensures
            r.bits == bits,
    {
        Scalar { bits }
    }

    /// The bit pattern.
    pub fn to_bits(self) -> (r: u32)
        ensures
            r == self.bits,
    {
        self.bits
    }

    /// Decides `is_positive_finite`: the patterns of the finite positive
    /// numbers are exactly those strictly between zero and positive infinity.
    pub fn check_positive_finite(self) -> (r: bool)
        ensures
            r == self.is_positive_finite(),
    {
        0 < self.bits && self.bits < POSITIVE_INFINITY_BITS
    }

    /// Decides `is_probability`: the patterns from zero up to that of one,
    /// and negative zero.
    pub fn check_probability(self) -> (r: bool)
        ensures
            r == self.is_probability(),
    {
        self.bits <= ONE_BITS || self.bits == NEGATIVE_ZERO_BITS
    }
}

/// The magnitude of the number one: two to the 149th unit.
pub open spec fn unit_magnitude() -> nat {
    vstd::arithmetic::power2::pow2(149)
}

/// The magnitude of a finite number lies between its leading one and the
/// next power of two, or, for a subnormal number, is its bare fraction.
pub proof fn lemma_magnitude_bounds(s: Scalar)
    requires
        s.is_finite(),
    ensures
        s.exponent() == 0 ==> s.magnitude() == s.fraction() && s.magnitude() < 0x80_0000,
        s.exponent() >= 1 ==> 0x80_0000 * vstd::arithmetic::power2::pow2(s.shift())
            <= s.magnitude() < 0x100_0000 * vstd::arithmetic::power2::pow2(s.shift()),
{
    let p = vstd::arithmetic::power2::pow2(s.shift());
    vstd::arithmetic::power2::lemma_pow2_pos(s.shift());
    if s.exponent() == 0 {
        vstd::arithmetic::power2::lemma2_to64();
    } else {
        let sig = s.significand() as int;
        vstd::arithmetic::mul::lemma_mul_inequality(0x80_0000, sig, p as int);
        vstd::arithmetic::mul::lemma_mul_strict_inequality(sig, 0x100_0000, p as int);
    }
}

/// Among finite numbers without a sign bit, the order of the bit patterns is
/// the order of the numbers.
pub proof fn lemma_patterns_order_as_numbers(a: Scalar, b: Scalar)
    requires
        a.is_finite(),
        b.is_finite(),
        !a.sign(),
        !b.sign(),
    ensures
        a.bits <= b.bits <==> a.magnitude() <= b.magnitude(),
        a.bits == b.bits <==> a.magnitude() == b.magnitude(),
{
    if a.exponent() < b.exponent() {
        lemma_below_the_next_exponent(a, b);
    } else if b.exponent() < a.exponent() {
        lemma_below_the_next_exponent(b, a);
    } else {
        let p = vstd::arithmetic::power2::pow2(a.shift());
        vstd::arithmetic::power2::lemma_pow2_pos(a.shift());
        let x = a.significand() as int;
        let y = b.significand() as int;
        if x < y {
            vstd::arithmetic::mul::lemma_mul_strict_inequality(x, y, p as int);
        } else if y < x {
            vstd::arithmetic::mul::lemma_mul_strict_inequality(y, x, p as int);
        }
    }
}

/// A finite number with the smaller exponent field is the smaller number.
proof fn lemma_below_the_next_exponent(a: Scalar, b: Scalar)
    requires
        a.is_finite(),
        b.is_finite(),
        !a.sign(),
        !b.sign(),
        a.exponent() < b.exponent(),
    ensures
        a.bits < b.bits,
        a.magnitude() < b.magnitude(),
{
    lemma_magnitude_bounds(a);
    lemma_magnitude_bounds(b);
    let pb = vstd::arithmetic::power2::pow2(b.shift());
    vstd::arithmetic::power2::lemma_pow2_pos(b.shift());
    if a.exponent() == 0 {
        vstd::arithmetic::mul::lemma_mul_inequality(1, pb as int, 0x80_0000);
    } else {
        let pa = vstd::arithmetic::power2::pow2(a.shift());
        let next = vstd::arithmetic::power2::pow2(a.shift() + 1);
        vstd::arithmetic::power2::lemma_pow2_unfold(a.shift() + 1);
        assert(next == 2 * pa);
        if a.shift() + 1 < b.shift() {
            vstd::arithmetic::power2::lemma_pow2_strictly_increases(a.shift() + 1, b.shift());
        }
        assert(next <= pb);
        vstd::arithmetic::mul::lemma_mul_inequality(next as int, pb as int, 0x80_0000);
        assert(0x100_0000 * pa == 0x80_0000 * next) by (nonlinear_arith)
            requires
                next == 2 * pa,
        ;
        assert(next * 0x80_0000 == 0x80_0000 * next) by (nonlinear_arith);
        assert(pb * 0x80_0000 == 0x80_0000 * pb) by (nonlinear_arith);
    }
}

/// The number one has the magnitude of the unit.
pub proof fn lemma_one_is_the_unit()
    ensures
        (Scalar { bits: ONE_BITS }).is_finite(),
        !(Scalar { bits: ONE_BITS }).sign(),
        (Scalar { bits: ONE_BITS }).magnitude() == unit_magnitude(),
        (Scalar { bits: HALF_BITS }).magnitude() * 2 == unit_magnitude(),
{
    vstd::arithmetic::power2::lemma_pow2_adds(23, 126);
    vstd::arithmetic::power2::lemma_pow2_adds(23, 125);
    vstd::arithmetic::power2::lemma_pow2_unfold(149);
    vstd::arithmetic::power2::lemma_pow2_adds(1, 148);
    vstd::arithmetic::power2::lemma2_to64();
    let one = Scalar { bits: ONE_BITS };
    let half = Scalar { bits: HALF_BITS };
    assert(one.exponent() == 127 && one.fraction() == 0);
    assert(half.exponent() == 126 && half.fraction() == 0);
    assert(vstd::arithmetic::power2::pow2(23) == 0x80_0000);
}

/// A pattern stands for a probability exactly when it stands for a finite
/// number that is zero, or is positive and at most one.
pub proof fn lemma_probability_is_the_unit_interval(s: Scalar)
    ensures
        s.is_probability() <==> s.is_finite() && (s.magnitude() == 0 || (!s.sign()
            && s.magnitude() <= unit_magnitude())),
{
    if s.is_finite() {
        lemma_magnitude_bounds(s);
        vstd::arithmetic::power2::lemma_pow2_pos(s.shift());
        assert(s.is_zero() <==> s.magnitude() == 0) by {
            if s.exponent() >= 1 {
                assert(s.magnitude() >= 0x80_0000 * vstd::arithmetic::power2::pow2(s.shift()));
                assert(0x80_0000 * vstd::arithmetic::power2::pow2(s.shift()) > 0)
                    by (nonlinear_arith)
                    requires
                        vstd::arithmetic::power2::pow2(s.shift()) > 0,
                ;
            }
        }
        if !s.sign() {
            let one = Scalar { bits: ONE_BITS };
            lemma_one_is_the_unit();
            lemma_patterns_order_as_numbers(s, one);
            assert(s.bits <= ONE_BITS <==> (s.exponent() < 127 || (s.exponent() == 127
                && s.fraction() == 0)));
        }
    }
}

/// A pattern stands for a finite positive number exactly when it is finite,
/// has no sign bit and a magnitude above zero.
pub proof fn lemma_positive_finite_is_above_zero(s: Scalar)
    ensures
        s.is_positive_finite() <==> s.is_finite() && !s.sign() && s.magnitude() > 0,
{
    if s.is_finite() {
        lemma_magnitude_bounds(s);
        vstd::arithmetic::power2::lemma_pow2_pos(s.shift());
        if s.exponent() >= 1 {
            assert(0x80_0000 * vstd::arithmetic::power2::pow2(s.shift()) > 0) by (nonlinear_arith)
                requires
                    vstd::arithmetic::power2::pow2(s.shift()) > 0,
            ;
        }
    }
}

/// A pattern stands for a number below zero exactly when it has the sign
/// bit, is not a NaN, and is either negative infinity or of a magnitude
/// above zero.
pub proof fn lemma_negative_is_below_zero(s: Scalar)
    ensures
        s.is_negative() <==> s.sign() && !s.is_nan() && (!s.is_finite() || s.magnitude() > 0),
{
    if s.is_finite() {
        lemma_magnitude_bounds(s);
        vstd::arithmetic::power2::lemma_pow2_pos(s.shift());
        if s.exponent() >= 1 {
            assert(0x80_0000 * vstd::arithmetic::power2::pow2(s.shift()) > 0) by (nonlinear_arith)
                requires
                    vstd::arithmetic::power2::pow2(s.shift()) > 0,
            ;
        }
    }
}

} // verus!
