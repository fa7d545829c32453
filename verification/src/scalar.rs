//! Double-precision scalars held as IEEE 754 binary64 bit patterns.
//!
//! Classification, sign handling and ordering are decided on the bit pattern
//! itself and are verified. Rounded arithmetic is delegated to software
//! implementations of IEEE 754 and enters the proofs through named results.

use const_soft_float::soft_f64::SoftF64;
use rustc_apfloat::ieee::Double;
use rustc_apfloat::Float;
use rustc_apfloat::Round;
use vstd::arithmetic::power2::{
    lemma2_to64,
    lemma2_to64_rest,
    lemma_pow2_strictly_increases,
    lemma_pow2_unfold,
    pow2,
};
use vstd::prelude::*;
use vstd::string::StrSliceExecFns;

verus! {

/// Bit pattern of the sign bit alone (negative zero).
pub const SIGN_BIT: u64 = 0x8000_0000_0000_0000;

/// Bit pattern of positive infinity; every larger magnitude is a NaN.
pub const INFINITY_BITS: u64 = 0x7ff0_0000_0000_0000;

/// Bit pattern of `1.0`.
pub const ONE_BITS: u64 = 0x3ff0_0000_0000_0000;

/// Bit pattern of `0.5`.
pub const HALF_BITS: u64 = 0x3fe0_0000_0000_0000;

/// Bit pattern of `2.0`.
pub const TWO_BITS: u64 = 0x4000_0000_0000_0000;

/// Bit pattern of negative infinity.
pub const NEGATIVE_INFINITY_BITS: u64 = 0xfff0_0000_0000_0000;

/// Bit pattern of the smallest positive normal value, two to the power of
/// -1022. Every smaller positive bit pattern is a subnormal value, whose
/// bit pattern is its significand.
pub const MIN_NORMAL_BITS: u64 = 0x0010_0000_0000_0000;

/// Bit pattern of two to the power of -54.
pub const TWO_TO_MINUS_54_BITS: u64 = 0x3c90_0000_0000_0000;

/// A positive significand doubled until it holds its leading bit where a
/// normal value holds it, with the number of doublings added to `count`.
pub open spec fn doubled_to_normal(m: int, count: int) -> (int, int)
    decreases 2 * MIN_NORMAL_BITS - m,
{
    if m <= 0 || m >= MIN_NORMAL_BITS {
        (m, count)
    } else {
        doubled_to_normal(2 * m, count + 1)
    }
}

/// The number of zeros up to which a value is written without an exponent:
/// as many as the smallest positive value has after its decimal point.
pub const MAX_LEADING_ZEROS: usize = 324;

/// Whether a decimal text holds an exponent, which follows an `E`.
pub open spec fn has_exponent(text: Seq<char>) -> bool {
    text.contains('E')
}

/// Whether a decimal text holds an exponent.
fn text_has_exponent(text: &str) -> (r: bool)
    ensures
        r == has_exponent(text@),
{
    let n: usize = text.unicode_len();
    let mut i: usize = 0;
    while i < n
        invariant
            n == text@.len(),
            i <= n,
            forall|j: int| 0 <= j < i ==> text@[j] != 'E',
        decreases n - i,
    {
        if text.get_char(i) == 'E' {
            return true;
        }
        i += 1;
    }
    false
}

/// The binary64 sum of two bit patterns, rounded to nearest, ties to even.
pub uninterp spec fn binary64_sum(a: u64, b: u64) -> u64;

/// The binary64 difference of two bit patterns, rounded to nearest, ties to even.
pub uninterp spec fn binary64_difference(a: u64, b: u64) -> u64;

/// The binary64 product of two bit patterns, rounded to nearest, ties to even.
pub uninterp spec fn binary64_product(a: u64, b: u64) -> u64;

/// The binary64 quotient of two bit patterns, rounded to nearest, ties to even.
pub uninterp spec fn binary64_quotient(a: u64, b: u64) -> u64;

/// The binary64 square root of a bit pattern that is not that of a positive
/// subnormal value, correctly rounded.
pub uninterp spec fn binary64_square_root(a: u64) -> u64;

/// The binary64 power of a bit pattern with an integer exponent, by repeated
/// squaring and rounded multiplication.
pub uninterp spec fn binary64_power(a: u64, n: i32) -> u64;

/// The largest integral binary64 value that is not above the given one.
pub uninterp spec fn binary64_floor(a: u64) -> u64;

/// The binary64 value nearest to an unsigned integer, ties to even.
pub uninterp spec fn binary64_from_count(n: u64) -> u64;

/// The unsigned 64-bit integer obtained from a binary64 value by dropping its
/// fraction: zero for NaN and for negative values, the largest integer for
/// values that are too large.
pub uninterp spec fn binary64_to_count(a: u64) -> u64;

/// The decimal text of a binary64 value with at most the given number of
/// significant digits, written without an exponent where that takes no more
/// than `padding` zeros and no more digits than asked for.
pub uninterp spec fn binary64_decimal(a: u64, digits: usize, padding: usize) -> Seq<char>;

/// The binary64 value nearest to the number that a decimal text spells, or
/// nothing where the text spells no number.
pub uninterp spec fn binary64_parsed(text: Seq<char>) -> Option<u64>;

/// Formats a `rustc_apfloat::ieee::Double` through its `Display` impl, with
/// the precision set to `digits` and the width to `padding`; that impl reads
/// the width as the number of zeros up to which it writes no exponent. Both
/// are kept small, as the formatting machinery asks. The text is a function
/// of the bit pattern, the precision and the width alone; the contract gives
/// it a name and claims nothing else.
#[verifier::external_body]
fn decimal_of_bits(a: u64, digits: usize, padding: usize) -> (r: String)
    requires
        1 <= digits <= 17,
        padding <= 1000,
    ensures
        r@ == binary64_decimal(a, digits, padding),
{
    format!("{:1$.2$}", Double::from_bits(a as u128), padding, digits)
}

/// Calls `FromStr::from_str` of `rustc_apfloat::ieee::Double`, which is
/// `from_str_r` with `Round::NearestTiesToEven`. The outcome is a function of
/// the text alone; the contract gives it a name and claims nothing else.
#[verifier::external_body]
fn bits_of_decimal(text: &str) -> (r: Option<u64>)
    ensures
        r == binary64_parsed(text@),
{
    match text.parse::<Double>() {
        Ok(value) => Some(value.to_bits() as u64),
        Err(_) => None,
    }
}

/// Whether `b` is the bit pattern of the negation of the finite value with
/// the bit pattern `a`.
pub open spec fn is_negation_of_finite(a: u64, b: u64) -> bool {
    (Scalar { bits: a }).spec_is_finite() && b == (Scalar { bits: a }).spec_neg().bits
}

/// Calls `Add::add` of `rustc_apfloat::ieee::Double`, which is `add_r` with
/// `Round::NearestTiesToEven`. The result is a function of the two bit
/// patterns alone, and the contract gives it a name. Beside the name it
/// states one law that `add_r` shows: a finite value and its negation add to
/// positive zero. There the significands are equal and of opposite sign, so
/// their difference is set to zero without loss, and a sum that is exactly
/// zero is made positive unless the rounding is toward negative; zeros of
/// opposite sign take the same last step.
#[verifier::external_body]
fn sum_of_bits(a: u64, b: u64) -> (r: u64)
    ensures
        r == binary64_sum(a, b),
        is_negation_of_finite(a, b) ==> r == 0,
{
    (Double::from_bits(a as u128) + Double::from_bits(b as u128)).value.to_bits() as u64
}

/// Calls `Sub::sub` of `rustc_apfloat::ieee::Double`, which is `sub_r` with
/// `Round::NearestTiesToEven`. The result is a function of the two bit
/// patterns alone; the contract gives it a name and claims nothing else.
#[verifier::external_body]
fn difference_of_bits(a: u64, b: u64) -> (r: u64)
    ensures
        r == binary64_difference(a, b),
{
    (Double::from_bits(a as u128) - Double::from_bits(b as u128)).value.to_bits() as u64
}

/// Calls `Mul::mul` of `rustc_apfloat::ieee::Double`, which is `mul_r` with
/// `Round::NearestTiesToEven`. The result is a function of the two bit
/// patterns alone; the contract gives it a name and claims nothing else.
#[verifier::external_body]
fn product_of_bits(a: u64, b: u64) -> (r: u64)
    ensures
        r == binary64_product(a, b),
{
    (Double::from_bits(a as u128) * Double::from_bits(b as u128)).value.to_bits() as u64
}

/// Calls `Div::div` of `rustc_apfloat::ieee::Double`, which is `div_r` with
/// `Round::NearestTiesToEven`. Division by zero returns an infinity or a NaN
/// and does not panic. The result is a function of the two bit patterns
/// alone; the contract gives it a name and claims nothing else.
#[verifier::external_body]
fn quotient_of_bits(a: u64, b: u64) -> (r: u64)
    ensures
        r == binary64_quotient(a, b),
{
    (Double::from_bits(a as u128) / Double::from_bits(b as u128)).value.to_bits() as u64
}

/// Calls `SoftF64::sqrt` of `const_soft_float`, the bit-by-bit square root on
/// integer arithmetic. Positive subnormal values are left out: for them the
/// routine shifts a `usize` by up to 32 bits, which a target whose `usize`
/// has 32 bits does not allow. On every other bit pattern the routine works
/// on 32-bit words alone, and the result is a function of the bit pattern;
/// the contract gives it a name and claims nothing else.
#[verifier::external_body]
fn square_root_of_bits(a: u64) -> (r: u64)
    requires
        a == 0 || a >= MIN_NORMAL_BITS,
    ensures
        r == binary64_square_root(a),
{
    SoftF64::from_bits(a).sqrt().to_bits()
}

/// Calls `SoftF64::powi` of `const_soft_float`, which multiplies by repeated
/// squaring and takes the reciprocal for a negative exponent. The result is a
/// function of the bit pattern and the exponent alone; the contract gives it
/// a name and claims nothing else.
#[verifier::external_body]
fn power_of_bits(a: u64, n: i32) -> (r: u64)
    ensures
        r == binary64_power(a, n),
{
    SoftF64::from_bits(a).powi(n).to_bits()
}

/// Calls `Float::round_to_integral` of `rustc_apfloat::ieee::Double` with
/// `Round::TowardNegative`. The result is a function of the bit pattern
/// alone; the contract gives it a name and claims nothing else.
#[verifier::external_body]
fn floor_of_bits(a: u64) -> (r: u64)
    ensures
        r == binary64_floor(a),
{
    Double::from_bits(a as u128).round_to_integral(Round::TowardNegative).value.to_bits() as u64
}

/// Calls `Float::from_u128` of `rustc_apfloat::ieee::Double`, which rounds to
/// nearest, ties to even. The result is a function of the integer alone; the
/// contract gives it a name and claims nothing else.
#[verifier::external_body]
fn bits_from_count(n: u64) -> (r: u64)
    ensures
        r == binary64_from_count(n),
{
    Double::from_u128(n as u128).value.to_bits() as u64
}

/// Calls `Float::to_u128` of `rustc_apfloat::ieee::Double` with a width of 64
/// bits, which rounds toward zero and returns zero for NaN and the nearest
/// bound for values out of range. The result is a function of the bit pattern
/// alone; the contract gives it a name and claims nothing else.
#[verifier::external_body]
fn count_from_bits(a: u64) -> (r: u64)
    ensures
        r == binary64_to_count(a),
{
    Double::from_bits(a as u128).to_u128(64).value as u64
}

/// A double-precision number, held as its IEEE 754 binary64 bit pattern.
#[derive(Clone, Copy, Debug)]
pub struct Scalar {
    pub bits: u64,
}

impl Scalar {
    /// The bit pattern without its sign bit.
    pub open spec fn magnitude(self) -> u64 {
        if self.bits >= SIGN_BIT {
            (self.bits - SIGN_BIT) as u64
        } else {
            self.bits
        }
    }

    /// Whether the sign bit is set (true of negative zero and of some NaNs).
    pub open spec fn spec_is_negative(self) -> bool {
        self.bits >= SIGN_BIT
    }

    /// Whether the value is a NaN.
    pub open spec fn spec_is_nan(self) -> bool {
        self.magnitude() > INFINITY_BITS
    }

    /// Whether the value is neither a NaN nor an infinity.
    pub open spec fn spec_is_finite(self) -> bool {
        self.magnitude() < INFINITY_BITS
    }

    /// The place of a value that is not a NaN in the numeric order: an integer
    /// that grows with the value, the two zeros sharing place 0.
    pub open spec fn rank(self) -> int {
        if self.bits >= SIGN_BIT {
            -(self.magnitude() as int)
        } else {
            self.magnitude() as int
        }
    }

    /// The value that holds place `r` in the numeric order, zero being the
    /// positive zero.
    pub open spec fn from_rank(r: int) -> Scalar {
        if r < 0 {
            Scalar { bits: (SIGN_BIT + (-r)) as u64 }
        } else {
            Scalar { bits: r as u64 }
        }
    }

    /// IEEE 754 `<`: false whenever a NaN is involved.
    pub open spec fn spec_lt(self, other: Scalar) -> bool {
        !self.spec_is_nan() && !other.spec_is_nan() && self.rank() < other.rank()
    }

    /// IEEE 754 `<=`: false whenever a NaN is involved.
    pub open spec fn spec_le(self, other: Scalar) -> bool {
        !self.spec_is_nan() && !other.spec_is_nan() && self.rank() <= other.rank()
    }

    /// IEEE 754 `>`: false whenever a NaN is involved.
    pub open spec fn spec_gt(self, other: Scalar) -> bool {
        other.spec_lt(self)
    }

    /// IEEE 754 `>=`: false whenever a NaN is involved.
    pub open spec fn spec_ge(self, other: Scalar) -> bool {
        other.spec_le(self)
    }

    /// The value with its sign bit cleared.
    pub open spec fn spec_abs(self) -> Scalar {
        Scalar { bits: self.magnitude() }
    }

    /// The value with its sign bit flipped.
    pub open spec fn spec_neg(self) -> Scalar {
        if self.bits >= SIGN_BIT {
            Scalar { bits: (self.bits - SIGN_BIT) as u64 }
        } else {
            Scalar { bits: (self.bits + SIGN_BIT) as u64 }
        }
    }

    /// The larger of two values; a NaN loses against anything else, and of
    /// two equal values the first is kept.
    pub open spec fn spec_max(self, other: Scalar) -> Scalar {
        if self.spec_is_nan() {
            other
        } else if self.spec_lt(other) {
            other
        } else {
            self
        }
    }

    /// The smaller of two values; a NaN loses against anything else, and of
    /// two equal values the first is kept.
    pub open spec fn spec_min(self, other: Scalar) -> Scalar {
        if self.spec_is_nan() {
            other
        } else if other.spec_lt(self) {
            other
        } else {
            self
        }
    }

    /// The value moved into `[low, high]`; a NaN stays as it is.
    pub open spec fn spec_clamp(self, low: Scalar, high: Scalar) -> Scalar {
        if self.spec_lt(low) {
            low
        } else if self.spec_gt(high) {
            high
        } else {
            self
        }
    }

    /// The sum, rounded to nearest.
    pub open spec fn spec_add(self, other: Scalar) -> Scalar {
        Scalar { bits: binary64_sum(self.bits, other.bits) }
    }

    /// The difference, rounded to nearest.
    pub open spec fn spec_sub(self, other: Scalar) -> Scalar {
        Scalar { bits: binary64_difference(self.bits, other.bits) }
    }

    /// The product, rounded to nearest.
    pub open spec fn spec_mul(self, other: Scalar) -> Scalar {
        Scalar { bits: binary64_product(self.bits, other.bits) }
    }

    /// The quotient, rounded to nearest.
    pub open spec fn spec_div(self, other: Scalar) -> Scalar {
        Scalar { bits: binary64_quotient(self.bits, other.bits) }
    }

    /// Whether the value is positive and subnormal: under the smallest
    /// positive normal value.
    pub open spec fn is_positive_subnormal(self) -> bool {
        0 < self.bits < MIN_NORMAL_BITS
    }

    /// A positive subnormal value times two to the power of 108, which is a
    /// normal value. Doubling a subnormal value doubles its bit pattern,
    /// until the leading bit reaches the place that makes the value normal;
    /// each doubling after that adds one to the exponent above it.
    pub open spec fn scaled_up(self) -> Scalar {
        let (m, count) = doubled_to_normal(self.bits as int, 0);
        Scalar { bits: (m + (108 - count) * MIN_NORMAL_BITS) as u64 }
    }

    /// The square root, rounded to nearest. That of a positive subnormal
    /// value is the root of the value times two to the power of 108, times
    /// two to the power of -54; both scalings are exact.
    pub open spec fn spec_sqrt(self) -> Scalar {
        if self.is_positive_subnormal() {
            (Scalar { bits: binary64_square_root(self.scaled_up().bits) }).spec_mul(
                Scalar { bits: TWO_TO_MINUS_54_BITS },
            )
        } else {
            Scalar { bits: binary64_square_root(self.bits) }
        }
    }

    /// The power with an integer exponent.
    pub open spec fn spec_powi(self, n: i32) -> Scalar {
        Scalar { bits: binary64_power(self.bits, n) }
    }

    /// The largest integral value that is not above this one.
    pub open spec fn spec_floor(self) -> Scalar {
        Scalar { bits: binary64_floor(self.bits) }
    }

    /// The smallest integral value that is not below this one, obtained as
    /// the negated floor of the negated value.
    pub open spec fn spec_ceil(self) -> Scalar {
        self.spec_neg().spec_floor().spec_neg()
    }

    /// The value nearest to a count.
    pub open spec fn spec_from_count(n: usize) -> Scalar {
        Scalar { bits: binary64_from_count(n as u64) }
    }

    /// The value as a count, saturating at the bounds of `usize`.
    pub open spec fn spec_to_count(self) -> usize {
        let wide = binary64_to_count(self.bits);
        if wide > usize::MAX {
            usize::MAX
        } else {
            wide as usize
        }
    }

    /// The decimal text of the value with at most `digits` significant
    /// digits.
    pub open spec fn decimal(self, digits: usize) -> Seq<char> {
        binary64_decimal(self.bits, digits, MAX_LEADING_ZEROS)
    }

    /// Whether the decimal text with at most `digits` significant digits
    /// reads back as this very value.
    pub open spec fn reads_back(self, digits: usize) -> bool {
        binary64_parsed(self.decimal(digits)) == Some(self.bits)
    }

    /// The least number of significant digits, from `from` up to 17, whose
    /// decimal text reads back as this very value and has no exponent;
    /// nothing where there is none.
    pub open spec fn plain_digits(self, from: usize) -> Option<usize>
        decreases 18 - from,
    {
        if from > 17 {
            None
        } else if self.reads_back(from) && !has_exponent(self.decimal(from)) {
            Some(from)
        } else {
            self.plain_digits((from + 1) as usize)
        }
    }

    /// The least number of significant digits, from `from` up to 17, whose
    /// decimal text reads back as this very value; 17 where none does.
    pub open spec fn shortest_digits(self, from: usize) -> usize
        decreases 17 - from,
    {
        if from >= 17 {
            17
        } else if self.reads_back(from) {
            from
        } else {
            self.shortest_digits((from + 1) as usize)
        }
    }

    /// The value in decimal: `NaN`, `inf` or `-inf` for a value that is not
    /// finite; else the text with the fewest digits that reads back as the
    /// value and has no exponent; else, for a value too large to be written
    /// so in 17 digits, the text with the fewest digits that reads back as
    /// the value, with an exponent after an `E`.
    pub open spec fn spec_text(self) -> Seq<char> {
        if self.spec_is_nan() {
            "NaN"@
        } else if !self.spec_is_finite() {
            if self.spec_is_negative() {
                "-inf"@
            } else {
                "inf"@
            }
        } else {
            match self.plain_digits(1) {
                Some(digits) => self.decimal(digits),
                None => self.decimal(self.shortest_digits(1)),
            }
        }
    }

    /// Positive zero.
    pub open spec fn spec_zero() -> Scalar {
        Scalar { bits: 0 }
    }

    /// One.
    pub open spec fn spec_one() -> Scalar {
        Scalar { bits: ONE_BITS }
    }

    /// One half.
    pub open spec fn spec_half() -> Scalar {
        Scalar { bits: HALF_BITS }
    }

    /// The value with the given bit pattern.
    pub fn from_bits(bits: u64) -> (r: Scalar)
        ensures
            r.bits == bits,
    {
        Scalar { bits }
    }

    /// The bit pattern of the value.
    pub fn to_bits(self) -> (r: u64)
        ensures
            r == self.bits,
    {
        self.bits
    }

    /// Positive zero.
    #[verifier::when_used_as_spec(spec_zero)]
    pub fn zero() -> (r: Scalar)
        ensures
            r == Scalar::spec_zero(),
    {
        Scalar { bits: 0 }
    }

    /// One.
    #[verifier::when_used_as_spec(spec_one)]
    pub fn one() -> (r: Scalar)
        ensures
            r == Scalar::spec_one(),
    {
        Scalar { bits: ONE_BITS }
    }

    /// One half.
    #[verifier::when_used_as_spec(spec_half)]
    pub fn half() -> (r: Scalar)
        ensures
            r == Scalar::spec_half(),
    {
        Scalar { bits: HALF_BITS }
    }

    fn magnitude_bits(self) -> (r: u64)
        ensures
            r == self.magnitude(),
    {
        if self.bits >= SIGN_BIT {
            self.bits - SIGN_BIT
        } else {
            self.bits
        }
    }

    /// Whether the sign bit is set.
    #[verifier::when_used_as_spec(spec_is_negative)]
    pub fn is_negative(self) -> (r: bool)
        ensures
            r == self.spec_is_negative(),
    {
        self.bits >= SIGN_BIT
    }

    /// Whether the value is a NaN.
    #[verifier::when_used_as_spec(spec_is_nan)]
    pub fn is_nan(self) -> (r: bool)
        ensures
            r == self.spec_is_nan(),
    {
        self.magnitude_bits() > INFINITY_BITS
    }

    /// Whether the value is neither a NaN nor an infinity.
    #[verifier::when_used_as_spec(spec_is_finite)]
    pub fn is_finite(self) -> (r: bool)
        ensures
            r == self.spec_is_finite(),
    {
        self.magnitude_bits() < INFINITY_BITS
    }

    /// The place of a finite value in the numeric order.
    pub fn finite_rank(self) -> (r: i64)
        requires
            self.spec_is_finite(),
        ensures
            r == self.rank(),
            -INFINITY_BITS < r < INFINITY_BITS,
    {
        let magnitude: u64 = self.magnitude_bits();
        if self.bits >= SIGN_BIT {
            -(magnitude as i64)
        } else {
            magnitude as i64
        }
    }

    /// The finite value that holds place `r` in the numeric order.
    pub fn from_finite_rank(r: i64) -> (x: Scalar)
        requires
            -INFINITY_BITS < r < INFINITY_BITS,
        ensures
            x == Scalar::from_rank(r as int),
            x.spec_is_finite(),
            x.rank() == r,
    {
        if r < 0 {
            Scalar { bits: SIGN_BIT + ((-r) as u64) }
        } else {
            Scalar { bits: r as u64 }
        }
    }

    /// Whether this value is less than the other; false where either is a NaN.
    #[verifier::when_used_as_spec(spec_lt)]
    pub fn lt(self, other: Scalar) -> (r: bool)
        ensures
            r == self.spec_lt(other),
    {
        if self.is_nan() || other.is_nan() {
            return false;
        }
        let a: u64 = self.magnitude_bits();
        let b: u64 = other.magnitude_bits();
        if self.is_negative() {
            if other.is_negative() {
                b < a
            } else {
                a > 0 || b > 0
            }
        } else {
            if other.is_negative() {
                false
            } else {
                a < b
            }
        }
    }

    /// Whether this value is at most the other; false where either is a NaN.
    #[verifier::when_used_as_spec(spec_le)]
    pub fn le(self, other: Scalar) -> (r: bool)
        ensures
            r == self.spec_le(other),
    {
        if self.is_nan() || other.is_nan() {
            return false;
        }
        let a: u64 = self.magnitude_bits();
        let b: u64 = other.magnitude_bits();
        if self.is_negative() {
            if other.is_negative() {
                b <= a
            } else {
                true
            }
        } else {
            if other.is_negative() {
                a == 0 && b == 0
            } else {
                a <= b
            }
        }
    }

    /// Whether this value is greater than the other; false where either is a NaN.
    #[verifier::when_used_as_spec(spec_gt)]
    pub fn gt(self, other: Scalar) -> (r: bool)
        ensures
            r == self.spec_gt(other),
    {
        other.lt(self)
    }

    /// Whether this value is at least the other; false where either is a NaN.
    #[verifier::when_used_as_spec(spec_ge)]
    pub fn ge(self, other: Scalar) -> (r: bool)
        ensures
            r == self.spec_ge(other),
    {
        other.le(self)
    }

    /// The value with its sign bit cleared.
    #[verifier::when_used_as_spec(spec_abs)]
    pub fn abs(self) -> (r: Scalar)
        ensures
            r == self.spec_abs(),
    {
        Scalar { bits: self.magnitude_bits() }
    }

    /// The value with its sign bit flipped.
    #[verifier::when_used_as_spec(spec_neg)]
    pub fn neg(self) -> (r: Scalar)
        ensures
            r == self.spec_neg(),
    {
        if self.bits >= SIGN_BIT {
            Scalar { bits: self.bits - SIGN_BIT }
        } else {
            Scalar { bits: self.bits + SIGN_BIT }
        }
    }

    /// The larger of two values, a NaN losing against anything else.
    #[verifier::when_used_as_spec(spec_max)]
    pub fn max(self, other: Scalar) -> (r: Scalar)
        ensures
            r == self.spec_max(other),
    {
        if self.is_nan() {
            other
        } else if self.lt(other) {
            other
        } else {
            self
        }
    }

    /// The smaller of two values, a NaN losing against anything else.
    #[verifier::when_used_as_spec(spec_min)]
    pub fn min(self, other: Scalar) -> (r: Scalar)
        ensures
            r == self.spec_min(other),
    {
        if self.is_nan() {
            other
        } else if other.lt(self) {
            other
        } else {
            self
        }
    }

    /// The value moved into `[low, high]`; a NaN stays as it is.
    #[verifier::when_used_as_spec(spec_clamp)]
    pub fn clamp(self, low: Scalar, high: Scalar) -> (r: Scalar)
        requires
            low.spec_le(high),
        ensures
            r == self.spec_clamp(low, high),
    {
        if self.lt(low) {
            low
        } else if self.gt(high) {
            high
        } else {
            self
        }
    }

    /// The sum, rounded to nearest. A finite value and its negation add to
    /// positive zero.
    #[verifier::when_used_as_spec(spec_add)]
    pub fn add(self, other: Scalar) -> (r: Scalar)
        ensures
            r == self.spec_add(other),
            self.spec_is_finite() && other == self.spec_neg() ==> r == Scalar::spec_zero(),
    {
        Scalar { bits: sum_of_bits(self.bits, other.bits) }
    }

    /// The difference, rounded to nearest.
    #[verifier::when_used_as_spec(spec_sub)]
    pub fn sub(self, other: Scalar) -> (r: Scalar)
        ensures
            r == self.spec_sub(other),
    {
        Scalar { bits: difference_of_bits(self.bits, other.bits) }
    }

    /// The product, rounded to nearest.
    #[verifier::when_used_as_spec(spec_mul)]
    pub fn mul(self, other: Scalar) -> (r: Scalar)
        ensures
            r == self.spec_mul(other),
    {
        Scalar { bits: product_of_bits(self.bits, other.bits) }
    }

    /// The quotient, rounded to nearest. Dividing by zero gives an infinity or a NaN.
    #[verifier::when_used_as_spec(spec_div)]
    pub fn div(self, other: Scalar) -> (r: Scalar)
        ensures
            r == self.spec_div(other),
    {
        Scalar { bits: quotient_of_bits(self.bits, other.bits) }
    }

    /// The square root, rounded to nearest; a NaN for a negative value.
    #[verifier::when_used_as_spec(spec_sqrt)]
    pub fn sqrt(self) -> (r: Scalar)
        ensures
            r == self.spec_sqrt(),
    {
        if 0 < self.bits && self.bits < MIN_NORMAL_BITS {
            let scaled: Scalar = self.scale_up();
            let root: Scalar = Scalar { bits: square_root_of_bits(scaled.bits) };
            root.mul(Scalar { bits: TWO_TO_MINUS_54_BITS })
        } else {
            Scalar { bits: square_root_of_bits(self.bits) }
        }
    }

    /// A positive subnormal value times two to the power of 108.
    fn scale_up(self) -> (r: Scalar)
        requires
            self.is_positive_subnormal(),
        ensures
            r == self.scaled_up(),
            MIN_NORMAL_BITS <= r.bits < INFINITY_BITS,
    {
        let mut m: u64 = self.bits;
        let mut count: u64 = 0;
        proof {
            lemma2_to64();
        }
        while m < MIN_NORMAL_BITS
            invariant
                0 < m < 2 * MIN_NORMAL_BITS,
                count <= 52,
                m >= pow2(count as nat),
                doubled_to_normal(self.bits as int, 0) == doubled_to_normal(m as int, count as int),
            decreases 2 * MIN_NORMAL_BITS - m,
        {
            proof {
                lemma2_to64_rest();
                if count >= 52 {
                    if count > 52 {
                        lemma_pow2_strictly_increases(52, count as nat);
                    }
                    assert(false);
                }
                lemma_pow2_unfold((count + 1) as nat);
            }
            m = m * 2;
            count = count + 1;
        }
        Scalar { bits: m + (108 - count) * MIN_NORMAL_BITS }
    }

    /// The power with an integer exponent.
    #[verifier::when_used_as_spec(spec_powi)]
    pub fn powi(self, n: i32) -> (r: Scalar)
        ensures
            r == self.spec_powi(n),
    {
        Scalar { bits: power_of_bits(self.bits, n) }
    }

    /// The largest integral value that is not above this one.
    #[verifier::when_used_as_spec(spec_floor)]
    pub fn floor(self) -> (r: Scalar)
        ensures
            r == self.spec_floor(),
    {
        Scalar { bits: floor_of_bits(self.bits) }
    }

    /// The smallest integral value that is not below this one.
    #[verifier::when_used_as_spec(spec_ceil)]
    pub fn ceil(self) -> (r: Scalar)
        ensures
            r == self.spec_ceil(),
    {
        self.neg().floor().neg()
    }

    /// The value nearest to a count.
    #[verifier::when_used_as_spec(spec_from_count)]
    pub fn from_count(n: usize) -> (r: Scalar)
        ensures
            r == Scalar::spec_from_count(n),
    {
        Scalar { bits: bits_from_count(n as u64) }
    }

    /// Writes the value in decimal with as few digits as read back exactly:
    /// without an exponent where 17 digits allow it, as in `100` or
    /// `0.0001`, and with one otherwise, as in `1.0E+22`. A value that is not
    /// finite is written `NaN`, `inf` or `-inf`.
    pub fn to_string(self) -> (r: String)
        ensures
            r@ == self.spec_text(),
    {
        if self.is_nan() {
            return "NaN".to_string();
        }
        if !self.is_finite() {
            if self.is_negative() {
                return "-inf".to_string();
            }
            return "inf".to_string();
        }
        let mut digits: usize = 1;
        while digits <= 17
            invariant
                1 <= digits <= 18,
                self.spec_is_finite(),
                self.plain_digits(1) == self.plain_digits(digits),
            decreases 18 - digits,
        {
            let text = decimal_of_bits(self.bits, digits, MAX_LEADING_ZEROS);
            match bits_of_decimal(text.as_str()) {
                Some(back) => {
                    if back == self.bits && !text_has_exponent(text.as_str()) {
                        return text;
                    }
                },
                None => {},
            }
            digits += 1;
        }
        digits = 1;
        while digits < 17
            invariant
                1 <= digits <= 17,
                self.spec_is_finite(),
                self.plain_digits(1) is None,
                self.shortest_digits(1) == self.shortest_digits(digits),
            decreases 17 - digits,
        {
            let text = decimal_of_bits(self.bits, digits, MAX_LEADING_ZEROS);
            match bits_of_decimal(text.as_str()) {
                Some(back) => {
                    if back == self.bits {
                        return text;
                    }
                },
                None => {},
            }
            digits += 1;
        }
        decimal_of_bits(self.bits, digits, MAX_LEADING_ZEROS)
    }

    /// The value as a count: its fraction dropped, zero for a NaN or a negative
    /// value, the largest count for a value too large.
    #[verifier::when_used_as_spec(spec_to_count)]
    pub fn to_count(self) -> (r: usize)
        ensures
            r == self.spec_to_count(),
    {
        let wide: u64 = count_from_bits(self.bits);
        if wide > usize::MAX as u64 {
            usize::MAX
        } else {
            wide as usize
        }
    }
}

/// A copy of `values`.
pub fn copy_of(values: &Vec<Scalar>) -> (out: Vec<Scalar>)
    ensures
        out@ == values@,
{
    let mut out: Vec<Scalar> = Vec::new();
    let mut i: usize = 0;
    while i < values.len()
        invariant
            i <= values@.len(),
            out@ == values@.take(i as int),
        decreases values@.len() - i,
    {
        out.push(values[i]);
        assert(values@.take(i + 1) =~= values@.take(i as int).push(values@[i as int]));
        i += 1;
    }
    assert(values@.take(i as int) =~= values@);
    out
}

} // verus!
