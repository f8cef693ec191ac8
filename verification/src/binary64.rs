//! Numbers with a fraction, held by their bit pattern.
//!
//! An amount of money travels through the engine untouched: it is read from a
//! record, stored, and written to a record again. The engine therefore keeps
//! the sixty-four bits of its IEEE 754 binary64 form and never computes on it.

use vstd::prelude::*;
use vstd::arithmetic::power2::{lemma2_to64, lemma2_to64_rest, lemma_pow2_unfold, pow2};

verus! {

/// The number of binary digits of `m`: 0 for 0, 1 for 1, 2 for 2 and 3.
pub open spec fn bit_length(m: nat) -> nat
    decreases m,
{
    if m == 0 {
        0
    } else {
        1 + bit_length(m / 2)
    }
}

/// The fifty-three leading binary digits of a positive `m`, as a number from
/// 2^52 to 2^53. A shorter `m` is filled up with zeros, which is exact. A
/// longer one is rounded to the nearest such number and, half way between
/// two, to the even one.
pub open spec fn nearest_significand(m: nat) -> nat {
    let n = bit_length(m);
    if n <= 53 {
        m * pow2((53 - n) as nat)
    } else {
        let d = pow2((n - 53) as nat);
        let q = m / d;
        let r = m % d;
        if 2 * r > d || (2 * r == d && q % 2 == 1) {
            q + 1
        } else {
            q
        }
    }
}

/// The bits of the binary64 number nearest to the integer `value`.
///
/// Zero is all zeros. Otherwise the sign bit tells a negative number, the
/// exponent field holds 1022 and the number of binary digits of the
/// magnitude, and the fraction is the significand without its leading one. A
/// significand rounded up to 2^53 carries into the exponent field.
pub open spec fn bits_of_integer(value: int) -> int {
    if value == 0 {
        0
    } else {
        let m = (if value < 0 { -value } else { value }) as nat;
        (if value < 0 { pow2(63) as int } else { 0 })
            + (1022 + bit_length(m)) * pow2(52) + nearest_significand(m) - pow2(52)
    }
}

/// A positive number between 2^(n-1) and 2^n has n binary digits.
pub proof fn lemma_bit_length(m: nat, n: nat)
    requires
        n >= 1,
        pow2((n - 1) as nat) <= m < pow2(n),
    ensures
        bit_length(m) == n,
    decreases n,
{
    lemma2_to64();
    if n == 1 {
        assert(m == 1);
        assert(bit_length(1) == 1 + bit_length(0));
    } else {
        lemma_pow2_unfold(n);
        lemma_pow2_unfold((n - 1) as nat);
        lemma_bit_length(m / 2, (n - 1) as nat);
    }
}

/// A binary64 number by its bits: one sign bit, eleven exponent bits and
/// fifty-two bits of fraction, from the highest bit down.
#[derive(Clone, Copy, Debug, PartialEq, Eq, Structural)]
pub struct Binary64 {
    pub bits: u64,
}

impl Binary64 {
    /// The exponent field of the number, between 0 and 2047.
    pub open spec fn exponent_field(self) -> u64 {
        (self.bits >> 52) & 0x7ff
    }

    /// Whether the number is neither an infinity nor a NaN: those two have
    /// every bit of the exponent field set.
    pub open spec fn finite(self) -> bool {
        self.exponent_field() != 0x7ff
    }

    /// Whether the number is a NaN: every bit of the exponent field is set,
    /// and some bit of the fraction.
    pub open spec fn nan(self) -> bool {
        self.exponent_field() == 0x7ff && self.bits & 0x000f_ffff_ffff_ffff != 0
    }

    /// Whether the number is less than zero: its sign bit is set, and it is
    /// neither a zero nor a NaN.
    pub open spec fn below_zero(self) -> bool {
        self.bits >> 63 == 1 && self.bits & 0x7fff_ffff_ffff_ffff != 0 && !self.nan()
    }

    /// The number without its sign.
    pub open spec fn magnitude(self) -> Binary64 {
        Binary64 { bits: self.bits & 0x7fff_ffff_ffff_ffff }
    }

    /// The number with these bits.
    pub fn from_bits(bits: u64) -> (number: Binary64)
        ensures
            number.bits == bits,
    {
        Binary64 { bits }
    }

    /// The bits of the number.
    pub fn to_bits(&self) -> (bits: u64)
        ensures
            bits == self.bits,
    {
        self.bits
    }

    /// Positive zero.
    pub fn zero() -> (number: Binary64)
        ensures
            number.bits == 0,
    {
        Binary64 { bits: 0 }
    }

    /// The binary64 number nearest to an integer.
    pub fn from_integer(value: i64) -> (number: Binary64)
        ensures
            number.bits == bits_of_integer(value as int),
    {
        if value == 0 {
            return Binary64 { bits: 0 };
        }
        let negative = value < 0;
        let m: u64 = if !negative {
            value as u64
        } else if value == i64::MIN {
            0x8000_0000_0000_0000
        } else {
            (-value) as u64
        };
        proof {
            lemma2_to64();
            lemma2_to64_rest();
        }
        // the number of binary digits of the magnitude, and the power of two
        // just below or at it
        let mut n: u64 = 1;
        let mut p: u64 = 1;
        while m / 2 >= p
            invariant
                1 <= n <= 64,
                p == pow2((n - 1) as nat),
                1 <= p <= m,
                m <= 0x8000_0000_0000_0000,
            decreases m - p,
        {
            proof {
                lemma2_to64_rest();
                lemma_pow2_unfold(n as nat);
            }
            p = p * 2;
            n = n + 1;
        }
        proof {
            lemma_pow2_unfold(n as nat);
            lemma_bit_length(m as nat, n as nat);
        }
        let significand: u64 = if n <= 53 {
            proof {
                lemma2_to64();
                lemma2_to64_rest();
                lemma_pow2_strictly_below((n - 1) as nat, 53);
                assert(pow2((n - n) as nat) == 1);
                assert(m * pow2((n - n) as nat) == m);
            }
            let mut k: u64 = n;
            let mut top: u64 = p;
            let mut scaled: u64 = m;
            while k < 53
                invariant
                    1 <= n <= k <= 53,
                    top == pow2((k - 1) as nat),
                    top <= scaled < 2 * top,
                    scaled == m * pow2((k - n) as nat),
                    top <= 0x10_0000_0000_0000,
                decreases 53 - k,
            {
                proof {
                    lemma2_to64_rest();
                    lemma_pow2_unfold(k as nat);
                    lemma_pow2_unfold((k + 1 - n) as nat);
                    lemma_pow2_strictly_below(k as nat, 53);
                    assert(m * (2 * pow2((k - n) as nat)) == 2 * (m * pow2((k - n) as nat)))
                        by (nonlinear_arith);
                }
                top = top * 2;
                scaled = scaled * 2;
                k = k + 1;
            }
            scaled
        } else {
            proof {
                lemma2_to64();
            }
            let mut j: u64 = 0;
            let mut d: u64 = 1;
            while j < n - 53
                invariant
                    53 < n <= 64,
                    j <= n - 53,
                    d == pow2(j as nat),
                    d <= 0x800,
                decreases n - 53 - j,
            {
                proof {
                    lemma2_to64();
                    lemma_pow2_unfold((j + 1) as nat);
                    lemma_pow2_strictly_below((j + 1) as nat, 12);
                }
                d = d * 2;
                j = j + 1;
            }
            let q = m / d;
            let r = m % d;
            proof {
                lemma2_to64_rest();
                lemma_pow2_unfold(n as nat);
                lemma_pow2_split((n - 53) as nat, 52);
                lemma_pow2_split((n - 53) as nat, 53);
                assert(0x10_0000_0000_0000 <= q < 0x20_0000_0000_0000) by (nonlinear_arith)
                    requires
                        d * 0x10_0000_0000_0000 <= m < d * 0x20_0000_0000_0000,
                        d > 0,
                        q == m / d,
                ;
            }
            if 2 * r > d || (2 * r == d && q % 2 == 1) {
                q + 1
            } else {
                q
            }
        };
        proof {
            lemma2_to64_rest();
        }
        assert(0x10_0000_0000_0000 <= significand <= 0x20_0000_0000_0000);
        assert(significand == nearest_significand(m as nat));
        let sign: u64 = if negative {
            0x8000_0000_0000_0000
        } else {
            0
        };
        let bits = sign + (1022 + n) * 0x10_0000_0000_0000 + (significand - 0x10_0000_0000_0000);
        Binary64 { bits }
    }

    /// Whether the number is less than zero. Neither zero is, and no NaN.
    pub fn is_negative(&self) -> (negative: bool)
        ensures
            negative == self.below_zero(),
    {
        let exponent = (self.bits >> 52) & 0x7ff;
        let fraction = self.bits & 0x000f_ffff_ffff_ffff;
        self.bits >> 63 == 1 && self.bits & 0x7fff_ffff_ffff_ffff != 0 && !(exponent == 0x7ff
            && fraction != 0)
    }

    /// The number without its sign.
    pub fn abs(&self) -> (magnitude: Binary64)
        ensures
            magnitude == self.magnitude(),
    {
        Binary64 { bits: self.bits & 0x7fff_ffff_ffff_ffff }
    }

    /// Whether the number is neither an infinity nor a NaN.
    pub fn is_finite(&self) -> (finite: bool)
        ensures
            finite == self.finite(),
    {
        (self.bits >> 52) & 0x7ff != 0x7ff
    }
}

/// 2^a is below 2^b where a is below b, and at most 2^(b-1).
proof fn lemma_pow2_strictly_below(a: nat, b: nat)
    requires
        a < b,
    ensures
        2 * pow2(a) <= pow2(b),
    decreases b,
{
    lemma_pow2_unfold(b);
    if a + 1 < b {
        lemma_pow2_strictly_below(a, (b - 1) as nat);
    }
}

/// 2^(a+b) is 2^a times 2^b.
proof fn lemma_pow2_split(a: nat, b: nat)
    ensures
        pow2(a + b) == pow2(a) * pow2(b),
{
    vstd::arithmetic::power2::lemma_pow2_adds(a, b);
}

} // verus!
