//! Binary numbers of double precision, held by their 64-bit pattern (IEEE 754,
//! format binary64): a sign, eleven bits of exponent, 52 bits of fraction.
//!
//! Comparing, clamping and rounding such numbers to integers is exact on the
//! pattern. Sums and quotients are not formed here.

use vstd::arithmetic::power2;
use vstd::prelude::*;

verus! {

/// The pattern of the sign bit alone.
pub const SIGN: u64 = 0x8000_0000_0000_0000;

/// The pattern of positive infinity; a greater magnitude is no number.
pub const INFINITE: u64 = 0x7ff0_0000_0000_0000;

/// Two to the 52nd: where the exponent begins.
pub const FRACTION: u64 = 0x0010_0000_0000_0000;

/// A number of double precision.
#[derive(Clone, Copy, Debug, PartialEq, Eq)]
pub struct Double {
    pub bits: u64,
}

/// The pattern of zero.
pub const ZERO: u64 = 0;

/// The pattern of two.
pub const TWO: u64 = 0x4000_0000_0000_0000;

/// The pattern of fifteen.
pub const FIFTEEN: u64 = 0x402e_0000_0000_0000;

/// The pattern of thirty.
pub const THIRTY: u64 = 0x403e_0000_0000_0000;

/// The pattern of one hundred.
pub const HUNDRED: u64 = 0x4059_0000_0000_0000;

impl Double {
    /// The pattern without its sign.
    pub open spec fn magnitude(self) -> nat {
        if self.bits >= SIGN {
            (self.bits - SIGN) as nat
        } else {
            self.bits as nat
        }
    }

    /// Whether the sign bit is set.
    pub open spec fn negative(self) -> bool {
        self.bits >= SIGN
    }

    /// Whether the pattern stands for no number.
    pub open spec fn nan(self) -> bool {
        self.magnitude() > INFINITE
    }

    /// Whether the pattern stands for a finite number.
    pub open spec fn finite(self) -> bool {
        self.magnitude() < INFINITE
    }

    /// The place of a number in the order of numbers. The two zeros share one.
    pub open spec fn place(self) -> int {
        if self.negative() {
            -(self.magnitude() as int)
        } else {
            self.magnitude() as int
        }
    }

    /// Whether one number is less than another; false where either is none.
    pub open spec fn below(self, other: Double) -> bool {
        !self.nan() && !other.nan() && self.place() < other.place()
    }

    /// The significand: the fraction, behind a leading one unless the exponent
    /// is zero.
    pub open spec fn significand(self) -> nat {
        if self.magnitude() < FRACTION {
            self.magnitude()
        } else {
            self.magnitude() % (FRACTION as nat) + FRACTION as nat
        }
    }

    /// The power of two that scales the significand.
    pub open spec fn scale(self) -> int {
        if self.magnitude() < FRACTION {
            -1074
        } else {
            self.magnitude() / (FRACTION as nat) - 1075
        }
    }

    /// The absolute value, rounded down to an integer.
    pub open spec fn whole(self) -> nat {
        if self.scale() >= 0 {
            self.significand() * power2::pow2(self.scale() as nat)
        } else {
            self.significand() / power2::pow2((-self.scale()) as nat)
        }
    }

    /// The absolute value, rounded to the nearest integer, halves up.
    pub open spec fn nearest(self) -> nat {
        if self.scale() >= 0 {
            self.significand() * power2::pow2(self.scale() as nat)
        } else {
            (2 * self.significand() + power2::pow2((-self.scale()) as nat)) / (2 * power2::pow2(
                (-self.scale()) as nat,
            ))
        }
    }

    /// The number cut towards zero, held within 64 bits; zero where it is none.
    pub open spec fn cut(self) -> int {
        if self.nan() {
            0
        } else {
            within_i64(self.negative(), self.whole())
        }
    }

    /// The nearest integer, halves away from zero, held within 64 bits; zero where
    /// it is none.
    pub open spec fn round(self) -> int {
        if self.nan() {
            0
        } else {
            within_i64(self.negative(), self.nearest())
        }
    }

    /// The number with the other sign.
    pub open spec fn opposite(self) -> Double {
        if self.bits >= SIGN {
            Double { bits: (self.bits - SIGN) as u64 }
        } else {
            Double { bits: (self.bits + SIGN) as u64 }
        }
    }

    /// The number, or zero where it is below zero or no number.
    pub open spec fn from_zero(self) -> Double {
        if self.nan() || self.below(Double { bits: ZERO }) {
            Double { bits: ZERO }
        } else {
            self
        }
    }

    /// The number held between `low` and `high`; one that is none stays as it is.
    pub open spec fn held_between(self, low: Double, high: Double) -> Double {
        if self.below(low) {
            low
        } else if high.below(self) {
            high
        } else {
            self
        }
    }
}

/// A signed magnitude, held within 64 bits.
pub open spec fn within_i64(negative: bool, magnitude: nat) -> int {
    if negative {
        if magnitude >= 0x8000_0000_0000_0000 {
            i64::MIN as int
        } else {
            -(magnitude as int)
        }
    } else {
        if magnitude >= 0x8000_0000_0000_0000 {
            i64::MAX as int
        } else {
            magnitude as int
        }
    }
}

fn power_of_two(k: u32) -> (r: u64)
    requires
        k < 63,
    ensures
        r == power2::pow2(k as nat),
{
    proof {
        power2::lemma2_to64();
        vstd::bits::lemma_u64_pow2_no_overflow(k as nat);
        vstd::bits::lemma_u64_shl_is_mul(1, k as u64);
    }
    1u64 << (k as u64)
}

fn signed(negative: bool, magnitude: u64) -> (r: i64)
    ensures
        r == within_i64(negative, magnitude as nat),
{
    if negative {
        if magnitude >= 0x8000_0000_0000_0000 {
            i64::MIN
        } else {
            -(magnitude as i64)
        }
    } else {
        if magnitude >= 0x8000_0000_0000_0000 {
            i64::MAX
        } else {
            magnitude as i64
        }
    }
}

proof fn lemma_scaled_up(s: nat, e: nat)
    requires
        e >= 11,
        s >= 0x0010_0000_0000_0000,
    ensures
        s * power2::pow2(e) >= 0x8000_0000_0000_0000,
{
    power2::lemma2_to64();
    if e > 11 {
        power2::lemma_pow2_strictly_increases(11, e);
    }
    let p = power2::pow2(e);
    assert(s * p >= 0x0010_0000_0000_0000 * 2048) by (nonlinear_arith)
        requires
            s >= 0x0010_0000_0000_0000,
            p >= 2048,
    ;
}

proof fn lemma_scaled_within(s: nat, e: nat)
    requires
        e <= 10,
        s < 0x0020_0000_0000_0000,
    ensures
        s * power2::pow2(e) < 0x8000_0000_0000_0000,
{
    power2::lemma2_to64();
    power2::lemma_pow2_pos(e);
    if e < 10 {
        power2::lemma_pow2_strictly_increases(e, 10);
    }
    let p = power2::pow2(e);
    assert(s * p <= 0x001f_ffff_ffff_ffff * 1024) by (nonlinear_arith)
        requires
            s <= 0x001f_ffff_ffff_ffff,
            p <= 1024,
    ;
}

proof fn lemma_scaled_away(s: nat, k: nat)
    requires
        k >= 54,
        s < 0x0020_0000_0000_0000,
    ensures
        s / power2::pow2(k) == 0,
        (2 * s + power2::pow2(k)) / (2 * power2::pow2(k)) == 0,
{
    power2::lemma2_to64_rest();
    if k > 54 {
        power2::lemma_pow2_strictly_increases(54, k);
    }
    let p = power2::pow2(k);
    assert(s / p == 0) by (nonlinear_arith)
        requires
            s < p,
    ;
    assert((2 * s + p) / (2 * p) == 0) by (nonlinear_arith)
        requires
            2 * s < p,
    ;
}

impl Double {
    fn unsigned_pattern(self) -> (r: u64)
        ensures
            r == self.magnitude(),
    {
        if self.bits >= SIGN {
            self.bits - SIGN
        } else {
            self.bits
        }
    }

    /// Whether the pattern stands for no number.
    pub fn is_nan(self) -> (r: bool)
        ensures
            r == self.nan(),
    {
        self.unsigned_pattern() > INFINITE
    }

    /// Whether the pattern stands for a finite number.
    pub fn is_finite(self) -> (r: bool)
        ensures
            r == self.finite(),
    {
        self.unsigned_pattern() < INFINITE
    }

    /// Whether this number is less than `other`.
    pub fn is_below(self, other: Double) -> (r: bool)
        ensures
            r == self.below(other),
    {
        if self.is_nan() || other.is_nan() {
            return false;
        }
        let a: u64 = self.unsigned_pattern();
        let b: u64 = other.unsigned_pattern();
        if self.bits >= SIGN {
            if other.bits >= SIGN {
                a > b
            } else {
                a > 0 || b > 0
            }
        } else {
            if other.bits >= SIGN {
                false
            } else {
                a < b
            }
        }
    }

    /// Holds a number between `low` and `high`.
    pub fn clamp(self, low: Double, high: Double) -> (r: Double)
        ensures
            r == self.held_between(low, high),
    {
        if self.is_below(low) {
            low
        } else if high.is_below(self) {
            high
        } else {
            self
        }
    }

    /// The nearest integer, halves away from zero.
    pub fn rounded(self) -> (r: i64)
        ensures
            r == self.round(),
    {
        self.to_integer(true)
    }

    /// The number cut towards zero.
    pub fn truncated(self) -> (r: i64)
        ensures
            r == self.cut(),
    {
        self.to_integer(false)
    }

    fn to_integer(self, to_nearest: bool) -> (r: i64)
        ensures
            r == if to_nearest {
                self.round()
            } else {
                self.cut()
            },
    {
        if self.is_nan() {
            return 0;
        }
        let negative: bool = self.bits >= SIGN;
        let magnitude: u64 = self.unsigned_pattern();
        proof {
            power2::lemma2_to64_rest();
            if self.scale() < -53 {
                lemma_scaled_away(self.significand(), (-self.scale()) as nat);
            }
        }
        if magnitude < FRACTION {
            return 0;
        }
        let significand: u64 = magnitude % FRACTION + FRACTION;
        let exponent: u64 = magnitude / FRACTION;
        if exponent < 1022 {
            return 0;
        }
        if exponent >= 1086 {
            proof {
                lemma_scaled_up(self.significand(), self.scale() as nat);
            }
            return signed(negative, 0x8000_0000_0000_0000);
        }
        if exponent >= 1075 {
            proof {
                lemma_scaled_within(self.significand(), self.scale() as nat);
            }
            return signed(negative, significand * power_of_two((exponent - 1075) as u32));
        }
        let power: u64 = power_of_two((1075 - exponent) as u32);
        proof {
            let k = (-self.scale()) as nat;
            if k < 53 {
                power2::lemma_pow2_strictly_increases(k, 53);
            }
            power2::lemma_pow2_pos(k);
        }
        if to_nearest {
            signed(negative, (2 * significand + power) / (2 * power))
        } else {
            signed(negative, significand / power)
        }
    }

    /// The number cut towards zero, held within 32 bits.
    pub fn truncated_i32(self) -> (r: i32)
        ensures
            r as int == if self.cut() < i32::MIN {
                i32::MIN as int
            } else if self.cut() > i32::MAX {
                i32::MAX as int
            } else {
                self.cut()
            },
    {
        let n: i64 = self.truncated();
        if n < i32::MIN as i64 {
            i32::MIN
        } else if n > i32::MAX as i64 {
            i32::MAX
        } else {
            n as i32
        }
    }

    /// The number with the other sign.
    pub fn negated(self) -> (r: Double)
        ensures
            r == self.opposite(),
    {
        if self.bits >= SIGN {
            Double { bits: self.bits - SIGN }
        } else {
            Double { bits: self.bits + SIGN }
        }
    }

    /// The number, or zero where it is below zero or no number.
    pub fn not_negative(self) -> (r: Double)
        ensures
            r == self.from_zero(),
    {
        if self.is_nan() || self.is_below(Double { bits: ZERO }) {
            Double { bits: ZERO }
        } else {
            self
        }
    }
}

/// A number that is not below zero is not below it when cut, either.
pub proof fn lemma_cut_not_negative(number: Double)
    requires
        !number.below(Double { bits: ZERO }),
    ensures
        number.cut() >= 0,
{
    if number.negative() && !number.nan() {
        let p = power2::pow2((-number.scale()) as nat);
        power2::lemma_pow2_pos((-number.scale()) as nat);
        assert(0nat / p == 0) by (nonlinear_arith)
            requires
                p > 0,
        ;
    }
}

} // verus!
