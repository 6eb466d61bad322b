//! GameMaker reals. The game keeps its numbers as IEEE-754 binary64 values; the
//! library carries each one by its bit pattern and compares them as IEEE-754 does.
//!
//! For every value that is not a NaN, IEEE-754 comparison agrees with the order of
//! the signed magnitude `key`: the bit pattern without its sign bit, negated when
//! the sign bit is set. Both zeros have key 0 and compare equal; a NaN compares
//! unequal and unordered with everything, itself included.

use vstd::prelude::*;

verus! {

/// The sign bit of a binary64 bit pattern.
pub const SIGN_BIT: u64 = 0x8000_0000_0000_0000;

/// The bit pattern of positive infinity; larger magnitudes are NaNs.
pub const INFINITY_BITS: u64 = 0x7FF0_0000_0000_0000;

/// Bit patterns of the integral reals that the game's rules are written against.

/// The bit pattern of `0.0`.
pub const R_0: u64 = 0x0;

/// The bit pattern of `1.0`.
pub const R_1: u64 = 0x3ff0000000000000;

/// The bit pattern of `2.0`.
pub const R_2: u64 = 0x4000000000000000;

/// The bit pattern of `3.0`.
pub const R_3: u64 = 0x4008000000000000;

/// The bit pattern of `4.0`.
pub const R_4: u64 = 0x4010000000000000;

/// The bit pattern of `5.0`.
pub const R_5: u64 = 0x4014000000000000;

/// The bit pattern of `6.0`.
pub const R_6: u64 = 0x4018000000000000;

/// The bit pattern of `7.0`.
pub const R_7: u64 = 0x401c000000000000;

/// The bit pattern of `9.0`.
pub const R_9: u64 = 0x4022000000000000;

/// The bit pattern of `10.0`.
pub const R_10: u64 = 0x4024000000000000;

/// The bit pattern of `13.0`.
pub const R_13: u64 = 0x402a000000000000;

/// The bit pattern of `18.0`.
pub const R_18: u64 = 0x4032000000000000;

/// The bit pattern of `21.0`.
pub const R_21: u64 = 0x4035000000000000;

/// The bit pattern of `30.0`.
pub const R_30: u64 = 0x403e000000000000;

/// The bit pattern of `32.0`.
pub const R_32: u64 = 0x4040000000000000;

/// The bit pattern of `60.0`.
pub const R_60: u64 = 0x404e000000000000;

/// The bit pattern of `74.0`.
pub const R_74: u64 = 0x4052800000000000;

/// The bit pattern of `75.0`.
pub const R_75: u64 = 0x4052c00000000000;

/// The bit pattern of `76.0`.
pub const R_76: u64 = 0x4053000000000000;

/// The bit pattern of `95.0`.
pub const R_95: u64 = 0x4057c00000000000;

/// The bit pattern of `108.0`.
pub const R_108: u64 = 0x405b000000000000;

/// The bit pattern of `110.0`.
pub const R_110: u64 = 0x405b800000000000;

/// The bit pattern of `120.0`.
pub const R_120: u64 = 0x405e000000000000;

/// The bit pattern of `140.0`.
pub const R_140: u64 = 0x4061800000000000;

/// The bit pattern of `145.0`.
pub const R_145: u64 = 0x4062200000000000;

/// The bit pattern of `150.0`.
pub const R_150: u64 = 0x4062c00000000000;

/// The bit pattern of `154.0`.
pub const R_154: u64 = 0x4063400000000000;

/// The bit pattern of `156.0`.
pub const R_156: u64 = 0x4063800000000000;

/// The bit pattern of `250.0`.
pub const R_250: u64 = 0x406f400000000000;

/// The bit pattern of `398.0`.
pub const R_398: u64 = 0x4078e00000000000;

/// The bit pattern of `440.0`.
pub const R_440: u64 = 0x407b800000000000;

/// The bit pattern of `560.0`.
pub const R_560: u64 = 0x4081800000000000;

/// The bit pattern of `601.0`.
pub const R_601: u64 = 0x4082c80000000000;

/// The bit pattern of `1173.0`.
pub const R_1173: u64 = 0x4092540000000000;

/// The bit pattern of `-1.0`.
pub const R_MINUS_1: u64 = 0xbff0000000000000;

/// A binary64 value, given by its bit pattern.
#[derive(Clone, Copy, PartialEq, Eq, Structural, Debug)]
pub struct GameNum {
    pub bits: u64,
}

/// The magnitude of a bit pattern: the pattern without its sign bit.
pub open spec fn spec_magnitude(bits: u64) -> int {
    if bits >= SIGN_BIT {
        bits - SIGN_BIT
    } else {
        bits as int
    }
}

/// Whether a bit pattern encodes a NaN.
pub open spec fn spec_is_nan(bits: u64) -> bool {
    spec_magnitude(bits) > INFINITY_BITS
}

/// The ordering key of a bit pattern: its magnitude, negated when the sign bit is set.
pub open spec fn spec_key(bits: u64) -> int {
    if bits >= SIGN_BIT {
        -spec_magnitude(bits)
    } else {
        spec_magnitude(bits)
    }
}

/// IEEE-754 `a == b`.
pub open spec fn num_eq(a: GameNum, b: GameNum) -> bool {
    !spec_is_nan(a.bits) && !spec_is_nan(b.bits) && spec_key(a.bits) == spec_key(b.bits)
}

/// IEEE-754 `a < b`.
pub open spec fn num_lt(a: GameNum, b: GameNum) -> bool {
    !spec_is_nan(a.bits) && !spec_is_nan(b.bits) && spec_key(a.bits) < spec_key(b.bits)
}

/// IEEE-754 `a <= b`.
pub open spec fn num_le(a: GameNum, b: GameNum) -> bool {
    !spec_is_nan(a.bits) && !spec_is_nan(b.bits) && spec_key(a.bits) <= spec_key(b.bits)
}

/// IEEE-754 `v == c`, for `c` given by its bit pattern.
pub open spec fn eqc(v: GameNum, c: u64) -> bool {
    num_eq(v, GameNum { bits: c })
}

/// IEEE-754 `v >= c`, for `c` given by its bit pattern.
pub open spec fn gec(v: GameNum, c: u64) -> bool {
    num_le(GameNum { bits: c }, v)
}

/// IEEE-754 `v > c`, for `c` given by its bit pattern.
pub open spec fn gtc(v: GameNum, c: u64) -> bool {
    num_lt(GameNum { bits: c }, v)
}

/// IEEE-754 `v <= c`, for `c` given by its bit pattern.
pub open spec fn lec(v: GameNum, c: u64) -> bool {
    num_le(v, GameNum { bits: c })
}

/// IEEE-754 `v < c`, for `c` given by its bit pattern.
pub open spec fn ltc(v: GameNum, c: u64) -> bool {
    num_lt(v, GameNum { bits: c })
}

impl GameNum {
    /// The value with the given bit pattern.
    pub fn from_bits(bits: u64) -> (r: GameNum)
        ensures
            r.bits == bits,
    {
        GameNum { bits }
    }

    /// Positive zero, the value that a failed read leaves behind.
    pub fn zero() -> (r: GameNum)
        ensures
            r.bits == 0,
    {
        GameNum { bits: 0 }
    }

    fn magnitude(&self) -> (m: u64)
        ensures
            m == spec_magnitude(self.bits),
    {
        if self.bits >= SIGN_BIT {
            self.bits - SIGN_BIT
        } else {
            self.bits
        }
    }

    fn key(&self) -> (k: i128)
        ensures
            k == spec_key(self.bits),
    {
        let m = self.magnitude();
        if self.bits >= SIGN_BIT {
            -(m as i128)
        } else {
            m as i128
        }
    }

    /// Whether the value is a NaN.
    pub fn is_nan(&self) -> (r: bool)
        ensures
            r == spec_is_nan(self.bits),
    {
        self.magnitude() > INFINITY_BITS
    }

    /// IEEE-754 `self == other`.
    pub fn eq(&self, other: GameNum) -> (r: bool)
        ensures
            r == num_eq(*self, other),
    {
        !self.is_nan() && !other.is_nan() && self.key() == other.key()
    }

    /// IEEE-754 `self != other`.
    pub fn ne(&self, other: GameNum) -> (r: bool)
        ensures
            r == !num_eq(*self, other),
    {
        !self.eq(other)
    }

    /// IEEE-754 `self < other`.
    pub fn lt(&self, other: GameNum) -> (r: bool)
        ensures
            r == num_lt(*self, other),
    {
        !self.is_nan() && !other.is_nan() && self.key() < other.key()
    }

    /// IEEE-754 `self <= other`.
    pub fn le(&self, other: GameNum) -> (r: bool)
        ensures
            r == num_le(*self, other),
    {
        !self.is_nan() && !other.is_nan() && self.key() <= other.key()
    }

    /// IEEE-754 `self > other`.
    pub fn gt(&self, other: GameNum) -> (r: bool)
        ensures
            r == num_lt(other, *self),
    {
        other.lt(*self)
    }

    /// IEEE-754 `self >= other`.
    pub fn ge(&self, other: GameNum) -> (r: bool)
        ensures
            r == num_le(other, *self),
    {
        other.le(*self)
    }

    /// Whether the two bit patterns are identical (a byte-wise comparison).
    pub fn same_bits(&self, other: GameNum) -> (r: bool)
        ensures
            r == (self.bits == other.bits),
    {
        self.bits == other.bits
    }

    /// IEEE-754 `self == c`, for `c` given by its bit pattern.
    pub fn eq_c(&self, c: u64) -> (r: bool)
        ensures
            r == eqc(*self, c),
    {
        self.eq(GameNum { bits: c })
    }

    /// IEEE-754 `self >= c`, for `c` given by its bit pattern.
    pub fn ge_c(&self, c: u64) -> (r: bool)
        ensures
            r == gec(*self, c),
    {
        self.ge(GameNum { bits: c })
    }

    /// IEEE-754 `self > c`, for `c` given by its bit pattern.
    pub fn gt_c(&self, c: u64) -> (r: bool)
        ensures
            r == gtc(*self, c),
    {
        self.gt(GameNum { bits: c })
    }

    /// IEEE-754 `self <= c`, for `c` given by its bit pattern.
    pub fn le_c(&self, c: u64) -> (r: bool)
        ensures
            r == lec(*self, c),
    {
        self.le(GameNum { bits: c })
    }

    /// IEEE-754 `self < c`, for `c` given by its bit pattern.
    pub fn lt_c(&self, c: u64) -> (r: bool)
        ensures
            r == ltc(*self, c),
    {
        self.lt(GameNum { bits: c })
    }
}

/// The sign bit of a bit pattern (1 for a negative value).
pub open spec fn spec_sign(bits: u64) -> int {
    if bits >= SIGN_BIT {
        1
    } else {
        0
    }
}

/// The biased exponent field of a bit pattern.
pub open spec fn spec_exponent(bits: u64) -> int {
    spec_magnitude(bits) / 0x10_0000_0000_0000
}

/// The fraction field of a bit pattern.
pub open spec fn spec_fraction(bits: u64) -> int {
    spec_magnitude(bits) % 0x10_0000_0000_0000
}

/// Each named constant is the bit pattern of the integer its name gives: `0.0` is all
/// zeros, and a nonzero integer n is (1 + fraction / 2^52) * 2^(exponent - 1023) with the
/// sign bit set only for -1.
pub proof fn law_constants_encode_their_integers()
    ensures
        R_0 == 0,
        spec_sign(R_1) == 0 && spec_exponent(R_1) == 1023 && (0x10_0000_0000_0000 + spec_fraction(R_1)) * 1 == 1 * 0x10_0000_0000_0000,
        spec_sign(R_2) == 0 && spec_exponent(R_2) == 1024 && (0x10_0000_0000_0000 + spec_fraction(R_2)) * 2 == 2 * 0x10_0000_0000_0000,
        spec_sign(R_3) == 0 && spec_exponent(R_3) == 1024 && (0x10_0000_0000_0000 + spec_fraction(R_3)) * 2 == 3 * 0x10_0000_0000_0000,
        spec_sign(R_4) == 0 && spec_exponent(R_4) == 1025 && (0x10_0000_0000_0000 + spec_fraction(R_4)) * 4 == 4 * 0x10_0000_0000_0000,
        spec_sign(R_5) == 0 && spec_exponent(R_5) == 1025 && (0x10_0000_0000_0000 + spec_fraction(R_5)) * 4 == 5 * 0x10_0000_0000_0000,
        spec_sign(R_6) == 0 && spec_exponent(R_6) == 1025 && (0x10_0000_0000_0000 + spec_fraction(R_6)) * 4 == 6 * 0x10_0000_0000_0000,
        spec_sign(R_7) == 0 && spec_exponent(R_7) == 1025 && (0x10_0000_0000_0000 + spec_fraction(R_7)) * 4 == 7 * 0x10_0000_0000_0000,
        spec_sign(R_9) == 0 && spec_exponent(R_9) == 1026 && (0x10_0000_0000_0000 + spec_fraction(R_9)) * 8 == 9 * 0x10_0000_0000_0000,
        spec_sign(R_10) == 0 && spec_exponent(R_10) == 1026 && (0x10_0000_0000_0000 + spec_fraction(R_10)) * 8 == 10 * 0x10_0000_0000_0000,
        spec_sign(R_13) == 0 && spec_exponent(R_13) == 1026 && (0x10_0000_0000_0000 + spec_fraction(R_13)) * 8 == 13 * 0x10_0000_0000_0000,
        spec_sign(R_18) == 0 && spec_exponent(R_18) == 1027 && (0x10_0000_0000_0000 + spec_fraction(R_18)) * 16 == 18 * 0x10_0000_0000_0000,
        spec_sign(R_21) == 0 && spec_exponent(R_21) == 1027 && (0x10_0000_0000_0000 + spec_fraction(R_21)) * 16 == 21 * 0x10_0000_0000_0000,
        spec_sign(R_30) == 0 && spec_exponent(R_30) == 1027 && (0x10_0000_0000_0000 + spec_fraction(R_30)) * 16 == 30 * 0x10_0000_0000_0000,
        spec_sign(R_32) == 0 && spec_exponent(R_32) == 1028 && (0x10_0000_0000_0000 + spec_fraction(R_32)) * 32 == 32 * 0x10_0000_0000_0000,
        spec_sign(R_60) == 0 && spec_exponent(R_60) == 1028 && (0x10_0000_0000_0000 + spec_fraction(R_60)) * 32 == 60 * 0x10_0000_0000_0000,
        spec_sign(R_74) == 0 && spec_exponent(R_74) == 1029 && (0x10_0000_0000_0000 + spec_fraction(R_74)) * 64 == 74 * 0x10_0000_0000_0000,
        spec_sign(R_75) == 0 && spec_exponent(R_75) == 1029 && (0x10_0000_0000_0000 + spec_fraction(R_75)) * 64 == 75 * 0x10_0000_0000_0000,
        spec_sign(R_76) == 0 && spec_exponent(R_76) == 1029 && (0x10_0000_0000_0000 + spec_fraction(R_76)) * 64 == 76 * 0x10_0000_0000_0000,
        spec_sign(R_95) == 0 && spec_exponent(R_95) == 1029 && (0x10_0000_0000_0000 + spec_fraction(R_95)) * 64 == 95 * 0x10_0000_0000_0000,
        spec_sign(R_108) == 0 && spec_exponent(R_108) == 1029 && (0x10_0000_0000_0000 + spec_fraction(R_108)) * 64 == 108 * 0x10_0000_0000_0000,
        spec_sign(R_110) == 0 && spec_exponent(R_110) == 1029 && (0x10_0000_0000_0000 + spec_fraction(R_110)) * 64 == 110 * 0x10_0000_0000_0000,
        spec_sign(R_120) == 0 && spec_exponent(R_120) == 1029 && (0x10_0000_0000_0000 + spec_fraction(R_120)) * 64 == 120 * 0x10_0000_0000_0000,
        spec_sign(R_140) == 0 && spec_exponent(R_140) == 1030 && (0x10_0000_0000_0000 + spec_fraction(R_140)) * 128 == 140 * 0x10_0000_0000_0000,
        spec_sign(R_145) == 0 && spec_exponent(R_145) == 1030 && (0x10_0000_0000_0000 + spec_fraction(R_145)) * 128 == 145 * 0x10_0000_0000_0000,
        spec_sign(R_150) == 0 && spec_exponent(R_150) == 1030 && (0x10_0000_0000_0000 + spec_fraction(R_150)) * 128 == 150 * 0x10_0000_0000_0000,
        spec_sign(R_154) == 0 && spec_exponent(R_154) == 1030 && (0x10_0000_0000_0000 + spec_fraction(R_154)) * 128 == 154 * 0x10_0000_0000_0000,
        spec_sign(R_156) == 0 && spec_exponent(R_156) == 1030 && (0x10_0000_0000_0000 + spec_fraction(R_156)) * 128 == 156 * 0x10_0000_0000_0000,
        spec_sign(R_250) == 0 && spec_exponent(R_250) == 1030 && (0x10_0000_0000_0000 + spec_fraction(R_250)) * 128 == 250 * 0x10_0000_0000_0000,
        spec_sign(R_398) == 0 && spec_exponent(R_398) == 1031 && (0x10_0000_0000_0000 + spec_fraction(R_398)) * 256 == 398 * 0x10_0000_0000_0000,
        spec_sign(R_440) == 0 && spec_exponent(R_440) == 1031 && (0x10_0000_0000_0000 + spec_fraction(R_440)) * 256 == 440 * 0x10_0000_0000_0000,
        spec_sign(R_560) == 0 && spec_exponent(R_560) == 1032 && (0x10_0000_0000_0000 + spec_fraction(R_560)) * 512 == 560 * 0x10_0000_0000_0000,
        spec_sign(R_601) == 0 && spec_exponent(R_601) == 1032 && (0x10_0000_0000_0000 + spec_fraction(R_601)) * 512 == 601 * 0x10_0000_0000_0000,
        spec_sign(R_1173) == 0 && spec_exponent(R_1173) == 1033 && (0x10_0000_0000_0000 + spec_fraction(R_1173)) * 1024 == 1173 * 0x10_0000_0000_0000,
        spec_sign(R_MINUS_1) == 1 && spec_exponent(R_MINUS_1) == 1023 && (0x10_0000_0000_0000 + spec_fraction(R_MINUS_1)) * 1 == 1 * 0x10_0000_0000_0000,
{
}

/// Every value that is not a NaN is equal to, less than or greater than any other
/// such value, and exactly one of the three holds.
pub proof fn lemma_trichotomy(a: GameNum, b: GameNum)
    requires
        !spec_is_nan(a.bits),
        !spec_is_nan(b.bits),
    ensures
        num_lt(a, b) || num_eq(a, b) || num_lt(b, a),
        !(num_lt(a, b) && num_eq(a, b)),
        !(num_lt(a, b) && num_lt(b, a)),
        !(num_eq(a, b) && num_lt(b, a)),
{
}

/// A NaN is neither equal to nor ordered with any value, itself included.
pub proof fn lemma_nan_unordered(a: GameNum, b: GameNum)
    requires
        spec_is_nan(a.bits),
    ensures
        !num_eq(a, b),
        !num_eq(b, a),
        !num_lt(a, b),
        !num_lt(b, a),
        !num_le(a, b),
        !num_le(b, a),
{
}

/// `<=` is `<` or `==`.
pub proof fn lemma_le_is_lt_or_eq(a: GameNum, b: GameNum)
    ensures
        num_le(a, b) == (num_lt(a, b) || num_eq(a, b)),
{
}

/// Positive and negative zero compare equal although their bit patterns differ.
pub proof fn lemma_zeros_equal()
    ensures
        num_eq(GameNum { bits: 0 }, GameNum { bits: SIGN_BIT }),
{
}

/// Equal bit patterns give equal values unless the pattern is a NaN.
pub proof fn lemma_same_bits_equal(a: GameNum, b: GameNum)
    requires
        a.bits == b.bits,
        !spec_is_nan(a.bits),
    ensures
        num_eq(a, b),
{
}

/// A negative value is below every positive one, and the two zeros sit between them.
pub proof fn law_negatives_below_positives(a: GameNum, b: GameNum)
    requires
        !spec_is_nan(a.bits),
        !spec_is_nan(b.bits),
        a.bits >= SIGN_BIT,
        b.bits < SIGN_BIT,
    ensures
        num_le(a, b),
        num_lt(a, b) || (spec_magnitude(a.bits) == 0 && b.bits == 0),
{
}

/// The named constants are ordered as the integers they stand for: -1 < 0 < 1 < 2 < ... < 1173.
pub proof fn law_constants_ordered()
    ensures
        num_lt(GameNum { bits: R_MINUS_1 }, GameNum { bits: R_0 }),
        num_lt(GameNum { bits: R_0 }, GameNum { bits: R_1 }),
        num_lt(GameNum { bits: R_1 }, GameNum { bits: R_2 }),
        num_lt(GameNum { bits: R_2 }, GameNum { bits: R_3 }),
        num_lt(GameNum { bits: R_3 }, GameNum { bits: R_4 }),
        num_lt(GameNum { bits: R_4 }, GameNum { bits: R_5 }),
        num_lt(GameNum { bits: R_5 }, GameNum { bits: R_6 }),
        num_lt(GameNum { bits: R_6 }, GameNum { bits: R_7 }),
        num_lt(GameNum { bits: R_7 }, GameNum { bits: R_9 }),
        num_lt(GameNum { bits: R_9 }, GameNum { bits: R_10 }),
        num_lt(GameNum { bits: R_10 }, GameNum { bits: R_13 }),
        num_lt(GameNum { bits: R_13 }, GameNum { bits: R_18 }),
        num_lt(GameNum { bits: R_18 }, GameNum { bits: R_21 }),
        num_lt(GameNum { bits: R_21 }, GameNum { bits: R_30 }),
        num_lt(GameNum { bits: R_30 }, GameNum { bits: R_32 }),
        num_lt(GameNum { bits: R_32 }, GameNum { bits: R_60 }),
        num_lt(GameNum { bits: R_60 }, GameNum { bits: R_74 }),
        num_lt(GameNum { bits: R_74 }, GameNum { bits: R_75 }),
        num_lt(GameNum { bits: R_75 }, GameNum { bits: R_76 }),
        num_lt(GameNum { bits: R_76 }, GameNum { bits: R_95 }),
        num_lt(GameNum { bits: R_95 }, GameNum { bits: R_108 }),
        num_lt(GameNum { bits: R_108 }, GameNum { bits: R_110 }),
        num_lt(GameNum { bits: R_110 }, GameNum { bits: R_120 }),
        num_lt(GameNum { bits: R_120 }, GameNum { bits: R_140 }),
        num_lt(GameNum { bits: R_140 }, GameNum { bits: R_145 }),
        num_lt(GameNum { bits: R_145 }, GameNum { bits: R_150 }),
        num_lt(GameNum { bits: R_150 }, GameNum { bits: R_154 }),
        num_lt(GameNum { bits: R_154 }, GameNum { bits: R_156 }),
        num_lt(GameNum { bits: R_156 }, GameNum { bits: R_250 }),
        num_lt(GameNum { bits: R_250 }, GameNum { bits: R_398 }),
        num_lt(GameNum { bits: R_398 }, GameNum { bits: R_440 }),
        num_lt(GameNum { bits: R_440 }, GameNum { bits: R_560 }),
        num_lt(GameNum { bits: R_560 }, GameNum { bits: R_601 }),
        num_lt(GameNum { bits: R_601 }, GameNum { bits: R_1173 }),
{
}

} // verus!
