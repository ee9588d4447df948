//! IEEE-754 double-precision arithmetic on bit patterns.
//!
//! The evaluator stores a floating-point value as the 64 bits of its IEEE
//! double representation. Every operation on such bits is delegated to an
//! outside soft-float or math library through a trusted wrapper; each
//! wrapper's result is a pure function of its argument bits, named by an
//! uninterpreted spec function.

use vstd::prelude::*;

verus! {

/// Bit mask of the sign bit of an IEEE double.
pub const SIGN_MASK: u64 = 0x8000_0000_0000_0000;

/// Bit pattern of positive infinity; every bit pattern strictly above it,
/// with the sign bit cleared, is a NaN.
pub const INF_BITS: u64 = 0x7FF0_0000_0000_0000;

/// Bit pattern of the IEEE double `pi`.
pub const PI_BITS: u64 = 0x400921FB54442D18;

/// The bit pattern with the sign bit cleared: the absolute value.
pub open spec fn spec_abs_bits(x: u64) -> u64 {
    x & !SIGN_MASK
}

/// Whether the bit pattern encodes a NaN.
pub open spec fn spec_is_nan_bits(x: u64) -> bool {
    spec_abs_bits(x) > INF_BITS
}

/// The bit pattern with the sign bit flipped: IEEE negation.
pub open spec fn spec_neg_bits(x: u64) -> u64 {
    x ^ SIGN_MASK
}

/// IEEE negation is a sign-bit flip; no outside call is needed.
pub fn neg_bits(x: u64) -> (r: u64)
    ensures
        r == spec_neg_bits(x),
{
    x ^ SIGN_MASK
}

/// IEEE absolute value clears the sign bit; no outside call is needed.
pub fn abs_bits(x: u64) -> (r: u64)
    ensures
        r == spec_abs_bits(x),
{
    x & !SIGN_MASK
}

/// Whether the bits encode a NaN, decided on the bits themselves.
pub fn is_nan_bits(x: u64) -> (r: bool)
    ensures
        r == spec_is_nan_bits(x),
{
    (x & !SIGN_MASK) > INF_BITS
}

pub uninterp spec fn add_bits(a: u64, b: u64) -> u64;

/// Relies on rustc_apfloat's IEEE double addition, applied to bit patterns;
/// the result is a pure function of the argument bits.
#[verifier::external_body]
pub fn float_add(a: u64, b: u64) -> (r: u64)
    ensures
        r == add_bits(a, b),
{
    let x: rustc_apfloat::ieee::Double = rustc_apfloat::Float::from_bits(a as u128);
    let y: rustc_apfloat::ieee::Double = rustc_apfloat::Float::from_bits(b as u128);
    rustc_apfloat::Float::to_bits((x + y).value) as u64
}

pub uninterp spec fn sub_bits(a: u64, b: u64) -> u64;

/// Relies on rustc_apfloat's IEEE double subtraction on bit patterns.
#[verifier::external_body]
pub fn float_sub(a: u64, b: u64) -> (r: u64)
    ensures
        r == sub_bits(a, b),
{
    let x: rustc_apfloat::ieee::Double = rustc_apfloat::Float::from_bits(a as u128);
    let y: rustc_apfloat::ieee::Double = rustc_apfloat::Float::from_bits(b as u128);
    rustc_apfloat::Float::to_bits((x - y).value) as u64
}

pub uninterp spec fn mul_bits(a: u64, b: u64) -> u64;

/// Relies on rustc_apfloat's IEEE double multiplication on bit patterns.
#[verifier::external_body]
pub fn float_mul(a: u64, b: u64) -> (r: u64)
    ensures
        r == mul_bits(a, b),
{
    let x: rustc_apfloat::ieee::Double = rustc_apfloat::Float::from_bits(a as u128);
    let y: rustc_apfloat::ieee::Double = rustc_apfloat::Float::from_bits(b as u128);
    rustc_apfloat::Float::to_bits((x * y).value) as u64
}

pub uninterp spec fn div_bits(a: u64, b: u64) -> u64;

/// Relies on rustc_apfloat's IEEE double division on bit patterns.
#[verifier::external_body]
pub fn float_div(a: u64, b: u64) -> (r: u64)
    ensures
        r == div_bits(a, b),
{
    let x: rustc_apfloat::ieee::Double = rustc_apfloat::Float::from_bits(a as u128);
    let y: rustc_apfloat::ieee::Double = rustc_apfloat::Float::from_bits(b as u128);
    rustc_apfloat::Float::to_bits((x / y).value) as u64
}

pub uninterp spec fn rem_bits(a: u64, b: u64) -> u64;

/// Relies on rustc_apfloat's IEEE double remainder on bit patterns.
#[verifier::external_body]
pub fn float_rem(a: u64, b: u64) -> (r: u64)
    ensures
        r == rem_bits(a, b),
{
    let x: rustc_apfloat::ieee::Double = rustc_apfloat::Float::from_bits(a as u128);
    let y: rustc_apfloat::ieee::Double = rustc_apfloat::Float::from_bits(b as u128);
    rustc_apfloat::Float::to_bits((x % y).value) as u64
}

pub uninterp spec fn eq_bits(a: u64, b: u64) -> bool;

/// Relies on rustc_apfloat's IEEE double equality on bit patterns
/// (zeros of either sign are equal, a NaN equals nothing).
#[verifier::external_body]
pub fn float_eq(a: u64, b: u64) -> (r: bool)
    ensures
        r == eq_bits(a, b),
{
    let x: rustc_apfloat::ieee::Double = rustc_apfloat::Float::from_bits(a as u128);
    let y: rustc_apfloat::ieee::Double = rustc_apfloat::Float::from_bits(b as u128);
    x == y
}

pub uninterp spec fn cmp_bits(a: u64, b: u64) -> Option<i8>;

/// Relies on rustc_apfloat's IEEE double comparison on bit patterns; the
/// result is negative-one, zero or one for less, equal, greater, and absent
/// when either operand is a NaN.
#[verifier::external_body]
pub fn float_cmp(a: u64, b: u64) -> (r: Option<i8>)
    ensures
        r == cmp_bits(a, b),
{
    let x: rustc_apfloat::ieee::Double = rustc_apfloat::Float::from_bits(a as u128);
    let y: rustc_apfloat::ieee::Double = rustc_apfloat::Float::from_bits(b as u128);
    match x.partial_cmp(&y) {
        core::option::Option::Some(core::cmp::Ordering::Less) => Some(-1),
        core::option::Option::Some(core::cmp::Ordering::Equal) => Some(0),
        core::option::Option::Some(core::cmp::Ordering::Greater) => Some(1),
        core::option::Option::None => None,
    }
}

pub uninterp spec fn double_of_digits(s: Seq<char>) -> Option<u64>;

/// Relies on rustc_apfloat's decimal parsing of an IEEE double, the same
/// rounding that the host language gives a floating-point literal; absent
/// when the text is not a valid decimal number.
#[verifier::external_body]
pub fn float_from_digits(s: &str) -> (r: Option<u64>)
    ensures
        r == double_of_digits(s@),
{
    let parsed: Result<rustc_apfloat::ieee::Double, rustc_apfloat::ParseError> = s.parse();
    match parsed {
        Ok(d) => Some(rustc_apfloat::Float::to_bits(d) as u64),
        Err(_) => None,
    }
}

pub uninterp spec fn double_of_int(i: i64) -> u64;

/// Relies on rustc_apfloat's integer-to-double conversion, rounding to
/// nearest as the host's integer-to-double cast does.
#[verifier::external_body]
pub fn float_from_int(i: i64) -> (r: u64)
    ensures
        r == double_of_int(i),
{
    let d: rustc_apfloat::StatusAnd<rustc_apfloat::ieee::Double> =
        rustc_apfloat::Float::from_i128(i as i128);
    rustc_apfloat::Float::to_bits(d.value) as u64
}

pub uninterp spec fn trunc_int_of(x: u64) -> i64;

/// Relies on rustc_apfloat's double-to-integer conversion rounding toward
/// zero, saturating at the 64-bit bounds, zero for a NaN.
#[verifier::external_body]
pub fn float_trunc_int(x: u64) -> (r: i64)
    ensures
        r == trunc_int_of(x),
{
    let d: rustc_apfloat::ieee::Double = rustc_apfloat::Float::from_bits(x as u128);
    let mut exact = false;
    rustc_apfloat::Float::to_i128_r(d, 64, rustc_apfloat::Round::TowardZero, &mut exact).value
        as i64
}

pub uninterp spec fn floor_int_of(x: u64) -> i64;

/// Relies on rustc_apfloat's double-to-integer conversion rounding toward
/// negative infinity, saturating at the 64-bit bounds, zero for a NaN.
#[verifier::external_body]
pub fn float_floor_int(x: u64) -> (r: i64)
    ensures
        r == floor_int_of(x),
{
    let d: rustc_apfloat::ieee::Double = rustc_apfloat::Float::from_bits(x as u128);
    let mut exact = false;
    rustc_apfloat::Float::to_i128_r(d, 64, rustc_apfloat::Round::TowardNegative, &mut exact).value
        as i64
}

pub uninterp spec fn ceil_int_of(x: u64) -> i64;

/// Relies on rustc_apfloat's double-to-integer conversion rounding toward
/// positive infinity, saturating at the 64-bit bounds, zero for a NaN.
#[verifier::external_body]
pub fn float_ceil_int(x: u64) -> (r: i64)
    ensures
        r == ceil_int_of(x),
{
    let d: rustc_apfloat::ieee::Double = rustc_apfloat::Float::from_bits(x as u128);
    let mut exact = false;
    rustc_apfloat::Float::to_i128_r(d, 64, rustc_apfloat::Round::TowardPositive, &mut exact).value
        as i64
}

pub uninterp spec fn round_int_of(x: u64) -> i64;

/// Relies on rustc_apfloat's double-to-integer conversion rounding to the
/// nearest integer with ties away from zero, saturating at the 64-bit
/// bounds, zero for a NaN.
#[verifier::external_body]
pub fn float_round_int(x: u64) -> (r: i64)
    ensures
        r == round_int_of(x),
{
    let d: rustc_apfloat::ieee::Double = rustc_apfloat::Float::from_bits(x as u128);
    let mut exact = false;
    rustc_apfloat::Float::to_i128_r(d, 64, rustc_apfloat::Round::NearestTiesToAway, &mut exact)
        .value as i64
}

pub uninterp spec fn float_repr(x: u64) -> Seq<char>;

/// Relies on rustc_apfloat's decimal rendering of an IEEE double.
#[verifier::external_body]
pub fn float_to_string(x: u64) -> (r: String)
    ensures
        r@ == float_repr(x),
{
    let d: rustc_apfloat::ieee::Double = rustc_apfloat::Float::from_bits(x as u128);
    format!("{}", d)
}

} // verus!

verus! {

pub uninterp spec fn sqrt_bits(x: u64) -> u64;

/// Relies on libm::sqrt, applied to the IEEE double with the given bits.
#[verifier::external_body]
pub fn float_sqrt(x: u64) -> (r: u64)
    ensures
        r == sqrt_bits(x),
{
    bytemuck::cast(libm::sqrt(bytemuck::cast(x)))
}

pub uninterp spec fn cbrt_bits(x: u64) -> u64;

/// Relies on libm::cbrt, applied to the IEEE double with the given bits.
#[verifier::external_body]
pub fn float_cbrt(x: u64) -> (r: u64)
    ensures
        r == cbrt_bits(x),
{
    bytemuck::cast(libm::cbrt(bytemuck::cast(x)))
}

pub uninterp spec fn exp_bits(x: u64) -> u64;

/// Relies on libm::exp, applied to the IEEE double with the given bits.
#[verifier::external_body]
pub fn float_exp(x: u64) -> (r: u64)
    ensures
        r == exp_bits(x),
{
    bytemuck::cast(libm::exp(bytemuck::cast(x)))
}

pub uninterp spec fn exp2_bits(x: u64) -> u64;

/// Relies on libm::exp2, applied to the IEEE double with the given bits.
#[verifier::external_body]
pub fn float_exp2(x: u64) -> (r: u64)
    ensures
        r == exp2_bits(x),
{
    bytemuck::cast(libm::exp2(bytemuck::cast(x)))
}

pub uninterp spec fn exp_m1_bits(x: u64) -> u64;

/// Relies on libm::expm1, applied to the IEEE double with the given bits.
#[verifier::external_body]
pub fn float_exp_m1(x: u64) -> (r: u64)
    ensures
        r == exp_m1_bits(x),
{
    bytemuck::cast(libm::expm1(bytemuck::cast(x)))
}

pub uninterp spec fn ln_bits(x: u64) -> u64;

/// Relies on libm::log, the natural logarithm of the IEEE double with the
/// given bits.
#[verifier::external_body]
pub fn float_ln(x: u64) -> (r: u64)
    ensures
        r == ln_bits(x),
{
    bytemuck::cast(libm::log(bytemuck::cast(x)))
}

pub uninterp spec fn ln_1p_bits(x: u64) -> u64;

/// Relies on libm::log1p, applied to the IEEE double with the given bits.
#[verifier::external_body]
pub fn float_ln_1p(x: u64) -> (r: u64)
    ensures
        r == ln_1p_bits(x),
{
    bytemuck::cast(libm::log1p(bytemuck::cast(x)))
}

pub uninterp spec fn log2_bits(x: u64) -> u64;

/// Relies on libm::log2, applied to the IEEE double with the given bits.
#[verifier::external_body]
pub fn float_log2(x: u64) -> (r: u64)
    ensures
        r == log2_bits(x),
{
    bytemuck::cast(libm::log2(bytemuck::cast(x)))
}

pub uninterp spec fn log10_bits(x: u64) -> u64;

/// Relies on libm::log10, applied to the IEEE double with the given bits.
#[verifier::external_body]
pub fn float_log10(x: u64) -> (r: u64)
    ensures
        r == log10_bits(x),
{
    bytemuck::cast(libm::log10(bytemuck::cast(x)))
}

pub uninterp spec fn sin_bits(x: u64) -> u64;

/// Relies on libm::sin, applied to the IEEE double with the given bits.
#[verifier::external_body]
pub fn float_sin(x: u64) -> (r: u64)
    ensures
        r == sin_bits(x),
{
    bytemuck::cast(libm::sin(bytemuck::cast(x)))
}

pub uninterp spec fn cos_bits(x: u64) -> u64;

/// Relies on libm::cos, applied to the IEEE double with the given bits.
#[verifier::external_body]
pub fn float_cos(x: u64) -> (r: u64)
    ensures
        r == cos_bits(x),
{
    bytemuck::cast(libm::cos(bytemuck::cast(x)))
}

pub uninterp spec fn tan_bits(x: u64) -> u64;

/// Relies on libm::tan, applied to the IEEE double with the given bits.
#[verifier::external_body]
pub fn float_tan(x: u64) -> (r: u64)
    ensures
        r == tan_bits(x),
{
    bytemuck::cast(libm::tan(bytemuck::cast(x)))
}

pub uninterp spec fn asin_bits(x: u64) -> u64;

/// Relies on libm::asin, applied to the IEEE double with the given bits.
#[verifier::external_body]
pub fn float_asin(x: u64) -> (r: u64)
    ensures
        r == asin_bits(x),
{
    bytemuck::cast(libm::asin(bytemuck::cast(x)))
}

pub uninterp spec fn acos_bits(x: u64) -> u64;

/// Relies on libm::acos, applied to the IEEE double with the given bits.
#[verifier::external_body]
pub fn float_acos(x: u64) -> (r: u64)
    ensures
        r == acos_bits(x),
{
    bytemuck::cast(libm::acos(bytemuck::cast(x)))
}

pub uninterp spec fn atan_bits(x: u64) -> u64;

/// Relies on libm::atan, applied to the IEEE double with the given bits.
#[verifier::external_body]
pub fn float_atan(x: u64) -> (r: u64)
    ensures
        r == atan_bits(x),
{
    bytemuck::cast(libm::atan(bytemuck::cast(x)))
}

pub uninterp spec fn sinh_bits(x: u64) -> u64;

/// Relies on libm::sinh, applied to the IEEE double with the given bits.
#[verifier::external_body]
pub fn float_sinh(x: u64) -> (r: u64)
    ensures
        r == sinh_bits(x),
{
    bytemuck::cast(libm::sinh(bytemuck::cast(x)))
}

pub uninterp spec fn cosh_bits(x: u64) -> u64;

/// Relies on libm::cosh, applied to the IEEE double with the given bits.
#[verifier::external_body]
pub fn float_cosh(x: u64) -> (r: u64)
    ensures
        r == cosh_bits(x),
{
    bytemuck::cast(libm::cosh(bytemuck::cast(x)))
}

pub uninterp spec fn tanh_bits(x: u64) -> u64;

/// Relies on libm::tanh, applied to the IEEE double with the given bits.
#[verifier::external_body]
pub fn float_tanh(x: u64) -> (r: u64)
    ensures
        r == tanh_bits(x),
{
    bytemuck::cast(libm::tanh(bytemuck::cast(x)))
}

pub uninterp spec fn asinh_bits(x: u64) -> u64;

/// Relies on libm::asinh, applied to the IEEE double with the given bits.
#[verifier::external_body]
pub fn float_asinh(x: u64) -> (r: u64)
    ensures
        r == asinh_bits(x),
{
    bytemuck::cast(libm::asinh(bytemuck::cast(x)))
}

pub uninterp spec fn acosh_bits(x: u64) -> u64;

/// Relies on libm::acosh, applied to the IEEE double with the given bits.
#[verifier::external_body]
pub fn float_acosh(x: u64) -> (r: u64)
    ensures
        r == acosh_bits(x),
{
    bytemuck::cast(libm::acosh(bytemuck::cast(x)))
}

pub uninterp spec fn atanh_bits(x: u64) -> u64;

/// Relies on libm::atanh, applied to the IEEE double with the given bits.
#[verifier::external_body]
pub fn float_atanh(x: u64) -> (r: u64)
    ensures
        r == atanh_bits(x),
{
    bytemuck::cast(libm::atanh(bytemuck::cast(x)))
}

pub uninterp spec fn fract_bits(x: u64) -> u64;

/// Relies on libm::modf, whose first component is the fractional part of
/// the IEEE double with the given bits.
#[verifier::external_body]
pub fn float_fract(x: u64) -> (r: u64)
    ensures
        r == fract_bits(x),
{
    bytemuck::cast(libm::modf(bytemuck::cast(x)).0)
}

pub uninterp spec fn atan2_bits(y: u64, x: u64) -> u64;

/// Relies on libm::atan2 on the IEEE doubles with the given bits.
#[verifier::external_body]
pub fn float_atan2(y: u64, x: u64) -> (r: u64)
    ensures
        r == atan2_bits(y, x),
{
    bytemuck::cast(libm::atan2(bytemuck::cast(y), bytemuck::cast(x)))
}

pub uninterp spec fn hypot_bits(a: u64, b: u64) -> u64;

/// Relies on libm::hypot on the IEEE doubles with the given bits.
#[verifier::external_body]
pub fn float_hypot(a: u64, b: u64) -> (r: u64)
    ensures
        r == hypot_bits(a, b),
{
    bytemuck::cast(libm::hypot(bytemuck::cast(a), bytemuck::cast(b)))
}

pub uninterp spec fn pow_bits(a: u64, b: u64) -> u64;

/// Relies on libm::pow on the IEEE doubles with the given bits.
#[verifier::external_body]
pub fn float_pow(a: u64, b: u64) -> (r: u64)
    ensures
        r == pow_bits(a, b),
{
    bytemuck::cast(libm::pow(bytemuck::cast(a), bytemuck::cast(b)))
}

/// Reciprocal: one divided by the value, through the division wrapper.
pub fn float_recip(x: u64) -> (r: u64)
    ensures
        r == div_bits(double_of_int(1), x),
{
    let one = float_from_int(1);
    float_div(one, x)
}

/// Sign of the value: one with the argument's sign bit for finite and
/// infinite values, the argument itself for a NaN.
pub open spec fn spec_signum_bits(x: u64) -> u64 {
    if spec_is_nan_bits(x) {
        x
    } else if x & SIGN_MASK == SIGN_MASK {
        0xBFF0_0000_0000_0000u64
    } else {
        0x3FF0_0000_0000_0000u64
    }
}

/// IEEE signum is decided on the bits themselves; no outside call.
pub fn float_signum(x: u64) -> (r: u64)
    ensures
        r == spec_signum_bits(x),
{
    if is_nan_bits(x) {
        x
    } else if x & SIGN_MASK == SIGN_MASK {
        0xBFF0_0000_0000_0000u64
    } else {
        0x3FF0_0000_0000_0000u64
    }
}

/// The larger operand under IEEE comparison; the other operand when one is
/// a NaN; the left operand between equal operands.
pub open spec fn spec_max_bits(a: u64, b: u64) -> u64 {
    if spec_is_nan_bits(a) {
        b
    } else if spec_is_nan_bits(b) {
        a
    } else if cmp_bits(a, b) == Some(-1i8) {
        b
    } else {
        a
    }
}

/// Maximum through the comparison wrapper; NaN operands are ignored.
pub fn float_max(a: u64, b: u64) -> (r: u64)
    ensures
        r == spec_max_bits(a, b),
{
    if is_nan_bits(a) {
        b
    } else if is_nan_bits(b) {
        a
    } else {
        match float_cmp(a, b) {
            Some(c) if c == -1i8 => b,
            _ => a,
        }
    }
}

/// The smaller operand under IEEE comparison; the other operand when one is
/// a NaN; the left operand between equal operands.
pub open spec fn spec_min_bits(a: u64, b: u64) -> u64 {
    if spec_is_nan_bits(a) {
        b
    } else if spec_is_nan_bits(b) {
        a
    } else if cmp_bits(a, b) == Some(1i8) {
        b
    } else {
        a
    }
}

/// Minimum through the comparison wrapper; NaN operands are ignored.
pub fn float_min(a: u64, b: u64) -> (r: u64)
    ensures
        r == spec_min_bits(a, b),
{
    if is_nan_bits(a) {
        b
    } else if is_nan_bits(b) {
        a
    } else {
        match float_cmp(a, b) {
            Some(c) if c == 1i8 => b,
            _ => a,
        }
    }
}

/// Logarithm in an arbitrary base: the quotient of natural logarithms.
pub fn float_log(x: u64, base: u64) -> (r: u64)
    ensures
        r == div_bits(ln_bits(x), ln_bits(base)),
{
    let a = float_ln(x);
    let b = float_ln(base);
    float_div(a, b)
}

/// Degrees from radians: multiplication by 180 divided by pi.
pub fn float_to_degrees(x: u64) -> (r: u64)
    ensures
        r == mul_bits(x, div_bits(double_of_int(180), PI_BITS)),
{
    let c = float_div(float_from_int(180), PI_BITS);
    float_mul(x, c)
}

/// Radians from degrees: multiplication by pi divided by 180.
pub fn float_to_radians(x: u64) -> (r: u64)
    ensures
        r == mul_bits(x, div_bits(PI_BITS, double_of_int(180))),
{
    let c = float_div(PI_BITS, float_from_int(180));
    float_mul(x, c)
}

} // verus!
