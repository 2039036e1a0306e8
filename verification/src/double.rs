//! Real numbers in IEEE-754 binary64 encoding, held as their bit pattern.
//! The dropout probability is such a number.

use vstd::prelude::*;

verus! {

/// Pattern of the binary64 number one.
pub const DOUBLE_ONE_BITS: u64 = 0x3ff0_0000_0000_0000;

/// Pattern of binary64 negative zero.
pub const DOUBLE_NEGATIVE_ZERO_BITS: u64 = 0x8000_0000_0000_0000;

/// A binary64 number: one sign bit, eleven exponent bits, fifty-two fraction
/// bits, from the most significant bit down.
#[derive(Debug, Clone, Copy, PartialEq, Eq, Structural)]
pub struct Double {
    pub bits: u64,
}

impl Double {
    /// Whether the sign bit is set.
    pub open spec fn sign(self) -> bool {
        self.bits as int / 0x8000_0000_0000_0000 == 1
    }

    /// The biased exponent field, from 0 to 2047.
    pub open spec fn exponent(self) -> int {
        (self.bits as int / 0x10_0000_0000_0000) % 0x800
    }

    /// The fraction field, below two to the fifty-second.
    pub open spec fn fraction(self) -> int {
        self.bits as int % 0x10_0000_0000_0000
    }

    /// Neither an infinity nor a NaN.
    pub open spec fn is_finite(self) -> bool {
        self.exponent() < 0x7ff
    }

    /// Not a number.
    pub open spec fn is_nan(self) -> bool {
        self.exponent() == 0x7ff && self.fraction() != 0
    }

    /// Zero of either sign.
    pub open spec fn is_zero(self) -> bool {
        self.exponent() == 0 && self.fraction() == 0
    }

    /// A number in the closed interval from zero to one.  With the sign bit
    /// clear, a number is at most one when its exponent is below the bias of
    /// 1023, or equals it with an empty fraction.
    pub open spec fn is_probability(self) -> bool {
        self.is_zero() || (!self.sign() && (self.exponent() < 1023 || (self.exponent() == 1023
            && self.fraction() == 0)))
    }

    /// The significand: the fraction field, with the leading one that a
    /// normal number leaves unwritten.
    pub open spec fn significand(self) -> nat {
        if self.exponent() == 0 {
            self.fraction() as nat
        } else {
            (self.fraction() + 0x10_0000_0000_0000) as nat
        }
    }

    /// The power of two that scales the significand, counted from the
    /// smallest one that the encoding reaches, two to the minus 1074.
    pub open spec fn shift(self) -> nat {
        if self.exponent() == 0 {
            0
        } else {
            (self.exponent() - 1) as nat
        }
    }

    /// The absolute value of a finite number, in units of two to the minus
    /// 1074: the number itself is `magnitude() / 2^1074`, negated when the
    /// sign bit is set.
    pub open spec fn magnitude(self) -> nat {
        self.significand() * vstd::arithmetic::power2::pow2(self.shift())
    }

    /// Wraps a bit pattern.
    pub fn from_bits(bits: u64) -> (r: Double)
        ensures
            r.bits == bits,
    {
        Double { bits }
    }

    /// The bit pattern.
    pub fn to_bits(self) -> (r: u64)
        ensures
            r == self.bits,
    {
        self.bits
    }

    /// Decides `is_probability`: the patterns from zero up to that of one,
    /// and negative zero.
    pub fn check_probability(self) -> (r: bool)
        ensures
            r == self.is_probability(),
    {
        self.bits <= DOUBLE_ONE_BITS || self.bits == DOUBLE_NEGATIVE_ZERO_BITS
    }
}

/// The magnitude of the binary64 number one: two to the 1074th unit.
pub open spec fn double_unit_magnitude() -> nat {
    vstd::arithmetic::power2::pow2(1074)
}

/// The magnitude of a finite number lies between its leading one and the
/// next power of two, or, for a subnormal number, is its bare fraction.
pub proof fn lemma_double_magnitude_bounds(s: Double)
    requires
        s.is_finite(),
    ensures
        s.exponent() == 0 ==> s.magnitude() == s.fraction() && s.magnitude()
            < 0x10_0000_0000_0000,
        s.exponent() >= 1 ==> 0x10_0000_0000_0000 * vstd::arithmetic::power2::pow2(s.shift())
            <= s.magnitude() < 0x20_0000_0000_0000 * vstd::arithmetic::power2::pow2(s.shift()),
{
    let p = vstd::arithmetic::power2::pow2(s.shift());
    vstd::arithmetic::power2::lemma_pow2_pos(s.shift());
    if s.exponent() == 0 {
        vstd::arithmetic::power2::lemma2_to64();
    } else {
        let sig = s.significand() as int;
        vstd::arithmetic::mul::lemma_mul_inequality(0x10_0000_0000_0000, sig, p as int);
        vstd::arithmetic::mul::lemma_mul_strict_inequality(sig, 0x20_0000_0000_0000, p as int);
    }
}

/// Among finite numbers without a sign bit, the order of the bit patterns is
/// the order of the numbers.
pub proof fn lemma_double_patterns_order_as_numbers(a: Double, b: Double)
    requires
        a.is_finite(),
        b.is_finite(),
        !a.sign(),
        !b.sign(),
    ensures
        a.bits <= b.bits <==> a.magnitude() <= b.magnitude(),
        a.bits == b.bits <==> a.magnitude() == b.magnitude(),
{
    if a.exponent() < b.exponent() {
        lemma_double_below_the_next_exponent(a, b);
    } else if b.exponent() < a.exponent() {
        lemma_double_below_the_next_exponent(b, a);
    } else {
        let p = vstd::arithmetic::power2::pow2(a.shift());
        vstd::arithmetic::power2::lemma_pow2_pos(a.shift());
        let x = a.significand() as int;
        let y = b.significand() as int;
        if x < y {
            vstd::arithmetic::mul::lemma_mul_strict_inequality(x, y, p as int);
        } else if y < x {
            vstd::arithmetic::mul::lemma_mul_strict_inequality(y, x, p as int);
        }
    }
}

/// A finite number with the smaller exponent field is the smaller number.
proof fn lemma_double_below_the_next_exponent(a: Double, b: Double)
    requires
        a.is_finite(),
        b.is_finite(),
        !a.sign(),
        !b.sign(),
        a.exponent() < b.exponent(),
    ensures
        a.bits < b.bits,
        a.magnitude() < b.magnitude(),
{
    lemma_double_magnitude_bounds(a);
    lemma_double_magnitude_bounds(b);
    let pb = vstd::arithmetic::power2::pow2(b.shift());
    vstd::arithmetic::power2::lemma_pow2_pos(b.shift());
    if a.exponent() == 0 {
        vstd::arithmetic::mul::lemma_mul_inequality(1, pb as int, 0x10_0000_0000_0000);
    } else {
        let pa = vstd::arithmetic::power2::pow2(a.shift());
        let next = vstd::arithmetic::power2::pow2(a.shift() + 1);
        vstd::arithmetic::power2::lemma_pow2_unfold(a.shift() + 1);
        assert(next == 2 * pa);
        if a.shift() + 1 < b.shift() {
            vstd::arithmetic::power2::lemma_pow2_strictly_increases(a.shift() + 1, b.shift());
        }
        assert(next <= pb);
        vstd::arithmetic::mul::lemma_mul_inequality(next as int, pb as int, 0x10_0000_0000_0000);
        assert(0x20_0000_0000_0000 * pa == 0x10_0000_0000_0000 * next) by (nonlinear_arith)
            requires
                next == 2 * pa,
        ;
        assert(next * 0x10_0000_0000_0000 == 0x10_0000_0000_0000 * next) by (nonlinear_arith);
        assert(pb * 0x10_0000_0000_0000 == 0x10_0000_0000_0000 * pb) by (nonlinear_arith);
    }
}

/// The binary64 number one has the magnitude of the unit.
pub proof fn lemma_double_one_is_the_unit()
    ensures
        (Double { bits: DOUBLE_ONE_BITS }).is_finite(),
        !(Double { bits: DOUBLE_ONE_BITS }).sign(),
        (Double { bits: DOUBLE_ONE_BITS }).magnitude() == double_unit_magnitude(),
{
    vstd::arithmetic::power2::lemma_pow2_adds(52, 1022);
    vstd::arithmetic::power2::lemma2_to64_rest();
    let one = Double { bits: DOUBLE_ONE_BITS };
    assert(one.exponent() == 1023 && one.fraction() == 0);
    assert(vstd::arithmetic::power2::pow2(52) == 0x10_0000_0000_0000);
}

/// A pattern stands for a probability exactly when it stands for a finite
/// number that is zero, or is positive and at most one.
pub proof fn lemma_double_probability_is_the_unit_interval(s: Double)
    ensures
        s.is_probability() <==> s.is_finite() && (s.magnitude() == 0 || (!s.sign()
            && s.magnitude() <= double_unit_magnitude())),
{
    if s.is_finite() {
        lemma_double_magnitude_bounds(s);
        vstd::arithmetic::power2::lemma_pow2_pos(s.shift());
        assert(s.is_zero() <==> s.magnitude() == 0) by {
            if s.exponent() >= 1 {
                assert(0x10_0000_0000_0000 * vstd::arithmetic::power2::pow2(s.shift()) > 0)
                    by (nonlinear_arith)
                    requires
                        vstd::arithmetic::power2::pow2(s.shift()) > 0,
                ;
            }
        }
        if !s.sign() {
            let one = Double { bits: DOUBLE_ONE_BITS };
            lemma_double_one_is_the_unit();
            lemma_double_patterns_order_as_numbers(s, one);
            assert(s.bits <= DOUBLE_ONE_BITS <==> (s.exponent() < 1023 || (s.exponent() == 1023
                && s.fraction() == 0)));
        }
    }
}

} // verus!
