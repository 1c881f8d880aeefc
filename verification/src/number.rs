//! Binary floating-point values, carried by their bit patterns.
//!
//! The library never does floating-point arithmetic: sums, products, roots and
//! tangents are the caller's business. What it does with a value is to order
//! it against another and to quantise a colour channel, and both are exact
//! integer work on the IEEE-754 encoding.

use vstd::prelude::*;
use vstd::arithmetic::power2::{
    lemma2_to64, lemma2_to64_rest, lemma_pow2_pos, lemma_pow2_strictly_increases, lemma_pow2_unfold, pow2,
};

verus! {

/// The sign bit of a double-precision pattern.
pub const DOUBLE_SIGN: u64 = 0x8000_0000_0000_0000;

/// The pattern of positive infinity in double precision. Larger magnitudes
/// are NaNs.
pub const DOUBLE_INFINITY: u64 = 0x7FF0_0000_0000_0000;

/// An IEEE-754 double-precision value, held as its 64-bit pattern.
///
/// `==` on this type compares patterns: it tells the two zeros apart and finds
/// a NaN equal to itself. The comparisons of IEEE-754 are `lt`, `gt` and `ge`.
#[derive(Clone, Copy, Debug, PartialEq, Eq, Structural)]
pub struct Double {
    pub bits: u64,
}

impl Double {
    /// The pattern with the sign bit cleared. Among values that are not NaN,
    /// a larger magnitude is a larger absolute value.
    pub open spec fn magnitude(self) -> int {
        if self.bits >= DOUBLE_SIGN {
            self.bits - DOUBLE_SIGN
        } else {
            self.bits as int
        }
    }

    /// Whether the sign bit is set.
    pub open spec fn is_negative(self) -> bool {
        self.bits >= DOUBLE_SIGN
    }

    /// Whether the value is a NaN.
    pub open spec fn is_nan(self) -> bool {
        self.magnitude() > DOUBLE_INFINITY
    }

    /// The place of the value on the number line: for values that are not NaN,
    /// `a` is below `b` exactly when `a.key() < b.key()`. Both zeros have
    /// key 0.
    pub open spec fn key(self) -> int {
        if self.is_negative() {
            -self.magnitude()
        } else {
            self.magnitude()
        }
    }

    /// IEEE `<`: false as soon as either side is NaN.
    pub open spec fn spec_lt(self, other: Double) -> bool {
        !self.is_nan() && !other.is_nan() && self.key() < other.key()
    }

    /// IEEE `>`: false as soon as either side is NaN.
    pub open spec fn spec_gt(self, other: Double) -> bool {
        other.spec_lt(self)
    }

    /// IEEE `>=`: false as soon as either side is NaN.
    pub open spec fn spec_ge(self, other: Double) -> bool {
        !self.is_nan() && !other.is_nan() && self.key() >= other.key()
    }

    /// A total ranking that agrees with `<` on numbers and puts every NaN
    /// behind positive infinity.
    pub open spec fn rank(self) -> int {
        if self.is_nan() {
            DOUBLE_SIGN as int
        } else {
            self.key()
        }
    }

    /// Positive zero.
    pub open spec fn spec_zero() -> Double {
        Double { bits: 0 }
    }

    /// Positive zero.
    #[verifier::when_used_as_spec(spec_zero)]
    pub fn zero() -> (z: Double)
        ensures
            z == Double::spec_zero(),
    {
        Double { bits: 0 }
    }

    /// Whether the value is a NaN.
    pub fn nan(&self) -> (r: bool)
        ensures
            r == self.is_nan(),
    {
        if self.bits >= DOUBLE_SIGN {
            self.bits - DOUBLE_SIGN > DOUBLE_INFINITY
        } else {
            self.bits > DOUBLE_INFINITY
        }
    }

    /// The key of a value, as a machine integer.
    pub fn ordinal(&self) -> (k: i64)
        ensures
            k == self.key(),
    {
        if self.bits >= DOUBLE_SIGN {
            let m: u64 = self.bits - DOUBLE_SIGN;
            -(m as i64)
        } else {
            self.bits as i64
        }
    }

    /// `self < other`, as IEEE-754 compares.
    pub fn lt(&self, other: &Double) -> (r: bool)
        ensures
            r == self.spec_lt(*other),
    {
        !self.nan() && !other.nan() && self.ordinal() < other.ordinal()
    }

    /// `self > other`, as IEEE-754 compares.
    pub fn gt(&self, other: &Double) -> (r: bool)
        ensures
            r == self.spec_gt(*other),
    {
        other.lt(self)
    }

    /// `self >= other`, as IEEE-754 compares.
    pub fn ge(&self, other: &Double) -> (r: bool)
        ensures
            r == self.spec_ge(*other),
    {
        !self.nan() && !other.nan() && self.ordinal() >= other.ordinal()
    }

    /// Whether `self` ranks strictly before `other`.
    pub fn nearer(&self, other: &Double) -> (r: bool)
        ensures
            r == (self.rank() < other.rank()),
    {
        if self.nan() {
            false
        } else if other.nan() {
            true
        } else {
            self.ordinal() < other.ordinal()
        }
    }
}

/// The pattern of 1.0 in single precision.
pub const SINGLE_ONE: u32 = 0x3F80_0000;

/// The pattern of positive infinity in single precision. Larger patterns
/// below the sign bit are NaNs.
pub const SINGLE_INFINITY: u32 = 0x7F80_0000;

/// The sign bit of a single-precision pattern.
pub const SINGLE_SIGN: u32 = 0x8000_0000;

/// The weight of the lowest exponent bit of a single-precision pattern: the
/// fraction field lies below it.
pub const SINGLE_FRACTION: u32 = 0x80_0000;

/// An IEEE-754 single-precision value, held as its 32-bit pattern.
#[derive(Clone, Copy, Debug, PartialEq, Eq, Structural)]
pub struct Single {
    pub bits: u32,
}

impl Single {
    /// The exponent field of a pattern whose sign bit is clear.
    pub open spec fn exponent(self) -> int {
        (self.bits / SINGLE_FRACTION) as int
    }

    /// The numerator of a value that is not negative and lies below one: the
    /// value is `significand() / 2^scale()`.
    pub open spec fn significand(self) -> int {
        if self.exponent() == 0 {
            (self.bits % SINGLE_FRACTION) as int
        } else {
            SINGLE_FRACTION + self.bits % SINGLE_FRACTION
        }
    }

    /// The binary logarithm of the denominator of a value that is not
    /// negative and lies below one.
    pub open spec fn scale(self) -> nat {
        if self.exponent() == 0 {
            149
        } else {
            (150 - self.exponent()) as nat
        }
    }

    /// The channel as one of 256 levels: the integer nearest to 255 times the
    /// value, the value first being brought into the range from 0 to 1, and a
    /// half rounding up. NaN counts as 0.
    pub open spec fn level(self) -> int {
        if self.bits >= SINGLE_SIGN || self.bits > SINGLE_INFINITY {
            0
        } else if self.bits >= SINGLE_ONE {
            255
        } else {
            round_half_up(255 * self.significand(), self.scale())
        }
    }

    /// The channel as one of 256 levels.
    pub fn to_level(&self) -> (l: u8)
        ensures
            l == self.level(),
    {
        if self.bits >= SINGLE_SIGN || self.bits > SINGLE_INFINITY {
            return 0;
        }
        if self.bits >= SINGLE_ONE {
            return 255;
        }
        let e: u32 = self.bits / SINGLE_FRACTION;
        let f: u32 = self.bits % SINGLE_FRACTION;
        if e < 117 {
            proof {
                lemma_level_vanishes(self.significand(), self.scale());
            }
            return 0;
        }
        let m: u64 = (SINGLE_FRACTION + f) as u64;
        let s: u32 = 150 - e;
        let half: u64 = power_of_two(s);
        proof {
            lemma_level_fits(m as int, s as nat);
            lemma_pow2_strictly_increases(s as nat, 34);
            lemma_pow2_pos(s as nat);
            lemma2_to64_rest();
        }
        let l: u64 = (510 * m + half) / (2 * half);
        l as u8
    }
}

/// Every level is one of 256.
pub proof fn lemma_level_is_a_byte(c: Single)
    ensures
        0 <= c.level() <= 255,
{
    if c.bits < SINGLE_ONE {
        if c.scale() > 33 {
            lemma_level_vanishes(c.significand(), c.scale());
        } else {
            lemma_level_fits(c.significand(), c.scale());
        }
    }
}

/// The integer nearest to `n / 2^s`, a half rounding up.
pub open spec fn round_half_up(n: int, s: nat) -> int {
    (2 * n + pow2(s) as int) / (2 * (pow2(s) as int))
}

/// 2 to the power `e`, for an exponent that leaves the result in 64 bits.
fn power_of_two(e: u32) -> (p: u64)
    requires
        e < 64,
    ensures
        p == pow2(e as nat),
{
    let mut p: u64 = 1;
    let mut i: u32 = 0;
    proof {
        lemma2_to64();
    }
    while i < e
        invariant
            i <= e,
            e < 64,
            p == pow2(i as nat),
        decreases e - i,
    {
        proof {
            lemma_pow2_unfold((i + 1) as nat);
            lemma_pow2_strictly_increases((i + 1) as nat, 64);
            lemma2_to64();
        }
        p = 2 * p;
        i = i + 1;
    }
    p
}

/// A numerator below 2^33 over a denominator of 2^34 or more rounds to 0.
proof fn lemma_level_vanishes(m: int, s: nat)
    requires
        0 <= m < 0x100_0000,
        s > 33,
    ensures
        round_half_up(255 * m, s) == 0,
{
    lemma2_to64();
    lemma_pow2_unfold(33);
    lemma_pow2_strictly_increases(33, s);
    let n: int = 2 * (255 * m) + pow2(s) as int;
    let d: int = 2 * (pow2(s) as int);
    assert(pow2(33) == 0x2_0000_0000);
    assert(0 <= n < d);
    vstd::arithmetic::div_mod::lemma_basic_div(n, d);
}

/// A value below one rounds to a level of at most 255.
proof fn lemma_level_fits(m: int, s: nat)
    requires
        0 <= m < 0x100_0000,
        24 <= s,
    ensures
        0 <= round_half_up(255 * m, s) <= 255,
{
    lemma2_to64();
    if s > 24 {
        lemma_pow2_strictly_increases(24, s);
    }
    let h: int = pow2(s) as int;
    assert(h >= 0x100_0000);
    let n: int = 2 * (255 * m) + h;
    assert(0 <= n < 256 * (2 * h));
    vstd::arithmetic::div_mod::lemma_div_pos_is_pos(n, 2 * h);
    vstd::arithmetic::div_mod::lemma_div_is_ordered(n, 256 * (2 * h) - 1, 2 * h);
    assert((256 * (2 * h) - 1) / (2 * h) == 255) by (nonlinear_arith)
        requires
            h > 0,
    ;
}

} // verus!
