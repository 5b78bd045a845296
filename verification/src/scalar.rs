//! Single-precision binary numbers, read exactly.
//!
//! Window sizes and scale factors reach the library as the 32-bit patterns of
//! single-precision numbers. A [`Scalar`] keeps such a pattern and reads it as
//! what it denotes: a sign, a significand and a power of two. All arithmetic
//! on it is integer arithmetic, so a quotient is rounded once, downwards, and
//! nowhere else.

use vstd::arithmetic::div_mod::lemma_fundamental_div_mod;
use vstd::arithmetic::div_mod::lemma_fundamental_div_mod_converse_div;
use vstd::arithmetic::mul::lemma_mul_is_commutative;
use vstd::arithmetic::power2::lemma2_to64;
use vstd::arithmetic::power2::lemma2_to64_rest;
use vstd::arithmetic::power2::lemma_pow2_pos;
use vstd::arithmetic::power2::lemma_pow2_strictly_increases;
use vstd::arithmetic::power2::pow2;
use vstd::bits::lemma_u64_shl_is_mul;
use vstd::prelude::*;

verus! {

/// Number of values that the fraction field of a pattern can take: 2^23.
pub const FRACTION_SPAN: u32 = 0x80_0000;

/// Number of values that the exponent field of a pattern can take: 2^8.
pub const EXPONENT_SPAN: u32 = 0x100;

/// The exponent field of infinities and of patterns that denote no number.
pub const EXPONENT_SPECIAL: u32 = 0xff;

/// The lowest pattern whose sign bit is set: 2^31.
pub const SIGN_BIT: u32 = 0x8000_0000;

/// The pattern of the number one.
pub const ONE_BITS: u32 = 0x3f80_0000;

/// A single-precision binary number, held by its bit pattern.
///
/// From the top, a pattern is one sign bit, eight exponent bits and
/// twenty-three fraction bits. With the exponent field below its maximum it
/// denotes the finite number `significand × 2^exponent`, negated where the
/// sign bit is set; with the field at its maximum it denotes an infinity
/// (fraction zero) or no number at all.
#[derive(Clone, Copy, Debug, PartialEq, Eq, Structural)]
pub struct Scalar {
    pub bits: u32,
}

impl Scalar {
    /// Whether the sign bit is set.
    pub open spec fn negative(self) -> bool {
        self.bits >= SIGN_BIT
    }

    /// The exponent field, in `0..=255`.
    pub open spec fn field(self) -> nat {
        ((self.bits as nat) / (FRACTION_SPAN as nat)) % (EXPONENT_SPAN as nat)
    }

    /// The fraction field, below 2^23.
    pub open spec fn fraction(self) -> nat {
        (self.bits as nat) % (FRACTION_SPAN as nat)
    }

    /// Whether the pattern denotes no number.
    pub open spec fn nan(self) -> bool {
        self.field() == EXPONENT_SPECIAL && self.fraction() != 0
    }

    /// Whether the pattern denotes an infinity.
    pub open spec fn infinite(self) -> bool {
        self.field() == EXPONENT_SPECIAL && self.fraction() == 0
    }

    /// Whether the pattern denotes a finite number.
    pub open spec fn finite(self) -> bool {
        self.field() < EXPONENT_SPECIAL
    }

    /// The significand, below 2^24: the fraction, with the implicit leading
    /// bit wherever the exponent field is not zero. It counts for a finite
    /// number only.
    pub open spec fn significand(self) -> nat {
        if self.field() == 0 {
            self.fraction()
        } else {
            self.fraction() + FRACTION_SPAN as nat
        }
    }

    /// The power of two that scales the significand: in `-149..=104` for a
    /// finite number, and 105 for any other pattern.
    pub open spec fn exponent(self) -> int {
        if self.field() == 0 {
            -149
        } else {
            self.field() - 150
        }
    }

    /// Whether the pattern denotes zero, of either sign.
    pub open spec fn zero(self) -> bool {
        self.finite() && self.significand() == 0
    }

    /// The number one.
    pub open spec fn one() -> Scalar {
        Scalar { bits: ONE_BITS }
    }

    /// Takes a bit pattern as the number it denotes.
    pub fn from_bits(bits: u32) -> (s: Scalar)
        ensures
            s.bits == bits,
    {
        Scalar { bits }
    }

    /// The bit pattern of the number.
    pub fn to_bits(self) -> (bits: u32)
        ensures
            bits == self.bits,
    {
        self.bits
    }

    /// Whether the sign bit is set.
    pub fn is_negative(self) -> (b: bool)
        ensures
            b == self.negative(),
    {
        self.bits >= SIGN_BIT
    }

    /// Whether the pattern denotes no number.
    pub fn is_nan(self) -> (b: bool)
        ensures
            b == self.nan(),
    {
        self.raw_field() == EXPONENT_SPECIAL && self.raw_fraction() != 0
    }

    /// Whether the pattern denotes an infinity.
    pub fn is_infinite(self) -> (b: bool)
        ensures
            b == self.infinite(),
    {
        self.raw_field() == EXPONENT_SPECIAL && self.raw_fraction() == 0
    }

    /// Whether the pattern denotes a finite number.
    pub fn is_finite(self) -> (b: bool)
        ensures
            b == self.finite(),
    {
        self.raw_field() < EXPONENT_SPECIAL
    }

    /// Whether the pattern denotes zero, of either sign.
    pub fn is_zero(self) -> (b: bool)
        ensures
            b == self.zero(),
    {
        self.raw_field() == 0 && self.raw_fraction() == 0
    }

    fn raw_field(self) -> (e: u32)
        ensures
            e == self.field(),
            e < EXPONENT_SPAN,
    {
        (self.bits / FRACTION_SPAN) % EXPONENT_SPAN
    }

    fn raw_fraction(self) -> (f: u32)
        ensures
            f == self.fraction(),
            f < FRACTION_SPAN,
    {
        self.bits % FRACTION_SPAN
    }

    /// The significand of the pattern.
    pub fn get_significand(self) -> (m: u32)
        ensures
            m == self.significand(),
            m < 2 * FRACTION_SPAN,
    {
        if self.raw_field() == 0 {
            self.raw_fraction()
        } else {
            self.raw_fraction() + FRACTION_SPAN
        }
    }

    /// The power of two that scales the significand.
    pub fn get_exponent(self) -> (e: i32)
        ensures
            e == self.exponent(),
            -149 <= e <= 105,
            self.finite() ==> e <= 104,
    {
        let field: u32 = self.raw_field();
        if field == 0 {
            -149
        } else {
            field as i32 - 150
        }
    }
}

/// Two to the power `k`, for `k` below 56.
fn power_of_two(k: u32) -> (p: u64)
    requires
        k < 56,
    ensures
        p == pow2(k as nat),
        p < 0x100_0000_0000_0000,
{
    proof {
        lemma2_to64_rest();
        lemma_pow2_strictly_increases(k as nat, 56);
        lemma_u64_shl_is_mul(1, k as u64);
    }
    1u64 << (k as u64)
}

/// The whole part of `m × 2^e / (n × 2^f)`, for a positive divisor.
///
/// Both numbers are scaled by the lower of the two powers, which leaves a
/// quotient of two naturals.
pub open spec fn scaled_floor(m: nat, e: int, n: nat, f: int) -> nat {
    if e >= f {
        (m * pow2((e - f) as nat)) / n
    } else {
        m / (n * pow2((f - e) as nat))
    }
}

/// The lower of a natural and the largest `u32`.
pub open spec fn saturated(q: nat) -> nat {
    if q > u32::MAX {
        u32::MAX as nat
    } else {
        q
    }
}

/// Computes [`scaled_floor`], cut off at the largest `u32`.
fn scaled_floor_saturating(m: u32, e: i32, n: u32, f: i32) -> (q: u32)
    requires
        m < 2 * FRACTION_SPAN,
        0 < n < 2 * FRACTION_SPAN,
        -149 <= e <= 104,
        -149 <= f <= 104,
    ensures
        q == saturated(scaled_floor(m as nat, e as int, n as nat, f as int)),
{
    proof {
        lemma2_to64();
        lemma2_to64_rest();
    }
    if e >= f {
        let k: u32 = (e - f) as u32;
        let ghost scale: nat = pow2(k as nat);
        if m == 0 {
            assert((m as nat * scale) / (n as nat) == 0) by (nonlinear_arith)
                requires
                    m == 0,
                    n > 0,
            ;
            0
        } else if k >= 56 {
            proof {
                if k > 56 {
                    lemma_pow2_strictly_increases(56, k as nat);
                }
                assert((m as nat * scale) / (n as nat) >= 0x1_0000_0000) by (nonlinear_arith)
                    requires
                        m >= 1,
                        scale >= 0x100_0000_0000_0000,
                        0 < n < 0x100_0000,
                ;
            }
            u32::MAX
        } else {
            let p: u64 = power_of_two(k);
            assert(m as nat * (p as nat) < 0x1_0000_0000_0000_0000_0000) by (nonlinear_arith)
                requires
                    m < 0x100_0000,
                    p < 0x100_0000_0000_0000,
            ;
            let numerator: u128 = (m as u128) * (p as u128);
            let whole: u128 = numerator / (n as u128);
            if whole > u32::MAX as u128 {
                u32::MAX
            } else {
                whole as u32
            }
        }
    } else {
        let j: u32 = (f - e) as u32;
        let ghost scale: nat = pow2(j as nat);
        if j >= 24 {
            proof {
                if j > 24 {
                    lemma_pow2_strictly_increases(24, j as nat);
                }
                assert(m as nat / (n as nat * scale) == 0) by (nonlinear_arith)
                    requires
                        m < 0x100_0000,
                        scale >= 0x100_0000,
                        n >= 1,
                ;
            }
            0
        } else {
            let p: u64 = power_of_two(j);
            proof {
                lemma_pow2_strictly_increases(j as nat, 24);
                lemma_pow2_pos(j as nat);
            }
            assert(0 < n as nat * (p as nat) < 0x1_0000_0000_0000) by (nonlinear_arith)
                requires
                    0 < n < 0x100_0000,
                    0 < p < 0x100_0000,
            ;
            let denominator: u64 = (n as u64) * p;
            let whole: u64 = (m as u64) / denominator;
            whole as u32
        }
    }
}

impl Scalar {
    /// Whether the quotient of `self` by `divisor` is no number: one of the
    /// two is none, or both are infinite, or both are zero.
    pub open spec fn quotient_undefined(self, divisor: Scalar) -> bool {
        ||| self.nan()
        ||| divisor.nan()
        ||| self.infinite() && divisor.infinite()
        ||| self.zero() && divisor.zero()
    }

    /// Whether the pattern denotes a finite number above zero.
    pub open spec fn positive(self) -> bool {
        self.finite() && !self.negative() && self.significand() > 0
    }

    /// The whole part of the quotient of two finite magnitudes, the second
    /// other than zero.
    pub open spec fn ratio_floor(self, divisor: Scalar) -> nat {
        scaled_floor(
            self.significand(),
            self.exponent(),
            divisor.significand(),
            divisor.exponent(),
        )
    }

    /// Whether `q × divisor <= self < (q + 1) × divisor`, taken of the two
    /// magnitudes, both scaled by the lower of their powers of two.
    pub open spec fn has_whole_part(self, divisor: Scalar, q: nat) -> bool {
        let m = self.significand();
        let n = divisor.significand();
        if self.exponent() >= divisor.exponent() {
            let k = (self.exponent() - divisor.exponent()) as nat;
            q * n <= m * pow2(k) < (q + 1) * n
        } else {
            let k = (divisor.exponent() - self.exponent()) as nat;
            q * (n * pow2(k)) <= m < (q + 1) * (n * pow2(k))
        }
    }

    /// The whole part of `self / divisor` as an unsigned 32-bit count.
    ///
    /// For two finite numbers of one sign and a divisor other than zero this
    /// is the exact quotient rounded down, cut off at the largest `u32`. A
    /// quotient that is no number, or not above zero, counts as 0; one that
    /// is unbounded above counts as the largest `u32`.
    pub open spec fn floor_quotient(self, divisor: Scalar) -> nat {
        if self.quotient_undefined(divisor) {
            0
        } else if self.negative() != divisor.negative() {
            0
        } else if self.infinite() || divisor.zero() {
            u32::MAX as nat
        } else if divisor.infinite() {
            0
        } else {
            saturated(self.ratio_floor(divisor))
        }
    }

    /// Divides `self` by `divisor` and rounds down to a whole count.
    pub fn div_floor(self, divisor: Scalar) -> (q: u32)
        ensures
            q == self.floor_quotient(divisor),
    {
        if self.is_nan() || divisor.is_nan() {
            return 0;
        }
        if self.is_infinite() && divisor.is_infinite() {
            return 0;
        }
        if self.is_zero() && divisor.is_zero() {
            return 0;
        }
        if self.is_negative() != divisor.is_negative() {
            return 0;
        }
        if self.is_infinite() || divisor.is_zero() {
            return u32::MAX;
        }
        if divisor.is_infinite() {
            return 0;
        }
        scaled_floor_saturating(
            self.get_significand(),
            self.get_exponent(),
            divisor.get_significand(),
            divisor.get_exponent(),
        )
    }
}

/// The whole part of a quotient is the one natural `q` with
/// `q × divisor <= dividend < (q + 1) × divisor`, both sides scaled by the
/// lower of the two powers of two.
pub proof fn lemma_scaled_floor_bounds(m: nat, e: int, n: nat, f: int)
    requires
        n > 0,
    ensures
        e >= f ==> ({
            let q = scaled_floor(m, e, n, f);
            let w = m * pow2((e - f) as nat);
            q * n <= w < (q + 1) * n
        }),
        e < f ==> ({
            let q = scaled_floor(m, e, n, f);
            let s = n * pow2((f - e) as nat);
            q * s <= m < (q + 1) * s
        }),
{
    if e >= f {
        let w = (m * pow2((e - f) as nat)) as int;
        lemma_floor_bounds(w, n as int);
    } else {
        let k = (f - e) as nat;
        lemma_pow2_pos(k);
        assert(n * pow2(k) > 0) by (nonlinear_arith)
            requires
                n > 0,
                pow2(k) > 0,
        ;
        lemma_floor_bounds(m as int, (n * pow2(k)) as int);
    }
}

/// A natural quotient times its divisor is the last multiple not above the
/// dividend.
proof fn lemma_floor_bounds(x: int, d: int)
    requires
        x >= 0,
        d > 0,
    ensures
        (x / d) * d <= x < (x / d + 1) * d,
        x / d >= 0,
{
    lemma_fundamental_div_mod(x, d);
    lemma_mul_is_commutative(d, x / d);
    assert(0 <= x % d < d);
    assert((x / d + 1) * d == (x / d) * d + d) by (nonlinear_arith);
    assert(x / d >= 0) by (nonlinear_arith)
        requires
            x >= 0,
            d > 0,
    ;
}

/// Any natural `q` with `q × n <= w < (q + 1) × n` is the whole part of
/// `w / n`: the bounds of [`lemma_scaled_floor_bounds`] hold of one number
/// only.
pub proof fn lemma_floor_unique(w: nat, n: nat, q: nat)
    requires
        n > 0,
        q * n <= w < (q + 1) * n,
    ensures
        q == w / n,
{
    let r = w - q * n;
    assert((q + 1) * n == q * n + n) by (nonlinear_arith);
    assert(0 <= r < n);
    assert(w == q * n + r);
    lemma_fundamental_div_mod_converse_div(w as int, n as int, q as int, r as int);
}

/// Of two numbers above zero, the quotient rounded down is the one natural
/// `q` with `q × divisor <= dividend < (q + 1) × divisor`, and
/// [`Scalar::floor_quotient`] is that natural wherever it fits in a `u32`.
pub proof fn lemma_floor_quotient_exact(dividend: Scalar, divisor: Scalar)
    requires
        dividend.positive(),
        divisor.positive(),
    ensures
        dividend.has_whole_part(divisor, dividend.ratio_floor(divisor)),
        forall|q: nat| #[trigger]
            dividend.has_whole_part(divisor, q) ==> q == dividend.ratio_floor(divisor),
        dividend.floor_quotient(divisor) == saturated(dividend.ratio_floor(divisor)),
        dividend.ratio_floor(divisor) <= u32::MAX ==> dividend.floor_quotient(divisor)
            == dividend.ratio_floor(divisor),
{
    let m = dividend.significand();
    let e = dividend.exponent();
    let n = divisor.significand();
    let f = divisor.exponent();
    lemma_scaled_floor_bounds(m, e, n, f);
    assert forall|q: nat| #[trigger] dividend.has_whole_part(divisor, q) implies q
        == dividend.ratio_floor(divisor) by {
        if e >= f {
            lemma_floor_unique(m * pow2((e - f) as nat), n, q);
        } else {
            let k = (f - e) as nat;
            lemma_pow2_pos(k);
            assert(n * pow2(k) > 0) by (nonlinear_arith)
                requires
                    n > 0,
                    pow2(k) > 0,
            ;
            lemma_floor_unique(m, n * pow2(k), q);
        }
    }
}

} // verus!
