//! IEEE 754 single-precision scalars as bit patterns.
//!
//! The engine stores every scalar as the `u32` bit pattern of an `f32`.
//! Ordering, sign, absolute value and NaN tests are pure functions of the
//! bit pattern (IEEE 754 is a sign-magnitude format whose non-NaN values
//! order like their bit patterns within one sign), so all of them are
//! implemented and verified here directly; no arithmetic is involved.

use vstd::prelude::*;

verus! {

/// Mask of the sign bit.
pub const SIGN_MASK: u32 = 0x8000_0000;

/// Mask of the exponent and mantissa bits.
pub const MAG_MASK: u32 = 0x7FFF_FFFF;

/// Bit pattern of positive infinity; larger magnitudes are NaNs.
pub const INF_BITS: u32 = 0x7F80_0000;

/// Magnitude (absolute-value bits) of a scalar.
pub open spec fn spec_mag(a: u32) -> u32 {
    a & MAG_MASK
}

/// Whether the bit pattern encodes a NaN.
pub open spec fn spec_is_nan(a: u32) -> bool {
    spec_mag(a) > INF_BITS
}

/// Whether the sign bit is set.
pub open spec fn spec_sign(a: u32) -> bool {
    a >= SIGN_MASK
}

/// Rank of a non-NaN scalar on the real line: negative values rank below
/// positive ones, both zeroes rank equal, and within one sign the rank
/// follows the magnitude bits.
pub open spec fn spec_key(a: u32) -> int {
    if spec_sign(a) {
        -(spec_mag(a) as int)
    } else {
        spec_mag(a) as int
    }
}

/// IEEE `<` on bit patterns: false whenever either side is NaN.
pub open spec fn spec_lt(a: u32, b: u32) -> bool {
    !spec_is_nan(a) && !spec_is_nan(b) && spec_key(a) < spec_key(b)
}

/// IEEE `<=` on bit patterns: false whenever either side is NaN.
pub open spec fn spec_le(a: u32, b: u32) -> bool {
    !spec_is_nan(a) && !spec_is_nan(b) && spec_key(a) <= spec_key(b)
}

/// IEEE `==` on bit patterns: false for NaNs, true for `-0.0 == 0.0`.
pub open spec fn spec_feq(a: u32, b: u32) -> bool {
    !spec_is_nan(a) && !spec_is_nan(b) && spec_key(a) == spec_key(b)
}

/// Absolute value: clearing the sign bit.
pub open spec fn spec_abs(a: u32) -> u32 {
    a & MAG_MASK
}

/// Negation: flipping the sign bit.
pub open spec fn spec_neg(a: u32) -> u32 {
    a ^ SIGN_MASK
}

/// Magnitude (absolute-value bits) of a scalar.
pub fn mag(a: u32) -> (r: u32)
    ensures
        r == spec_mag(a),
{
    a & MAG_MASK
}

/// Whether the bit pattern encodes a NaN.
pub fn is_nan(a: u32) -> (r: bool)
    ensures
        r == spec_is_nan(a),
{
    (a & MAG_MASK) > INF_BITS
}

/// IEEE `<` implemented on bit patterns.
pub fn flt(a: u32, b: u32) -> (r: bool)
    ensures
        r == spec_lt(a, b),
{
    if is_nan(a) || is_nan(b) {
        return false;
    }
    let ka: i64 = key(a);
    let kb: i64 = key(b);
    ka < kb
}

/// IEEE `<=` implemented on bit patterns.
pub fn fle(a: u32, b: u32) -> (r: bool)
    ensures
        r == spec_le(a, b),
{
    if is_nan(a) || is_nan(b) {
        return false;
    }
    let ka: i64 = key(a);
    let kb: i64 = key(b);
    ka <= kb
}

/// IEEE `==` implemented on bit patterns.
pub fn feq(a: u32, b: u32) -> (r: bool)
    ensures
        r == spec_feq(a, b),
{
    if is_nan(a) || is_nan(b) {
        return false;
    }
    let ka: i64 = key(a);
    let kb: i64 = key(b);
    ka == kb
}

/// Signed rank of a non-NaN scalar, as an `i64`.
fn key(a: u32) -> (r: i64)
    ensures
        r as int == spec_key(a),
{
    let m: u32 = a & MAG_MASK;
    if a >= SIGN_MASK {
        -(m as i64)
    } else {
        m as i64
    }
}

/// Absolute value: clearing the sign bit.
pub fn fabs(a: u32) -> (r: u32)
    ensures
        r == spec_abs(a),
{
    a & MAG_MASK
}

/// Negation: flipping the sign bit.
pub fn fneg(a: u32) -> (r: u32)
    ensures
        r == spec_neg(a),
{
    a ^ SIGN_MASK
}

/// Negation undoes itself bit for bit.
pub proof fn lemma_neg_involution(a: u32)
    ensures
        spec_neg(spec_neg(a)) == a,
{
    assert(spec_neg(spec_neg(a)) == a) by (bit_vector);
}

/// Relies on IEEE 754 single-precision addition: the sum's bits depend on
/// the operands' bits alone.
pub uninterp spec fn add_bits(a: u32, b: u32) -> u32;

/// Relies on IEEE 754 single-precision addition (round to nearest even).
/// The operands are packed into a `glam::Vec2` to reinterpret the bit
/// patterns as floats.
#[verifier::external_body]
pub fn fadd(a: u32, b: u32) -> (r: u32)
    ensures
        r == add_bits(a, b),
{
    let v = glam::Vec2::new(bytemuck::cast(a), bytemuck::cast(b));
    (v.x + v.y).to_bits()
}

/// Relies on IEEE 754 single-precision subtraction: the difference's bits
/// depend on the operands' bits alone.
pub uninterp spec fn sub_bits(a: u32, b: u32) -> u32;

/// Relies on IEEE 754 single-precision subtraction.
#[verifier::external_body]
pub fn fsub(a: u32, b: u32) -> (r: u32)
    ensures
        r == sub_bits(a, b),
{
    let v = glam::Vec2::new(bytemuck::cast(a), bytemuck::cast(b));
    (v.x - v.y).to_bits()
}

/// Relies on IEEE 754 single-precision multiplication: the product's bits
/// depend on the operands' bits alone. Multiplying a non-NaN value by one
/// returns it unchanged, as the format makes that product exact.
pub uninterp spec fn mul_bits(a: u32, b: u32) -> u32;

/// Relies on IEEE 754 single-precision multiplication. A non-NaN value
/// times `1.0` is exact, hence returned bit for bit; a finite value times
/// `+0.0` is a zero carrying the value's sign.
#[verifier::external_body]
pub fn fmul(a: u32, b: u32) -> (r: u32)
    ensures
        r == mul_bits(a, b),
        !spec_is_nan(a) && b == 0x3F80_0000 ==> r == a,
        spec_mag(a) < 0x7F80_0000 && b == 0 ==> r == (a & 0x8000_0000),
{
    let v = glam::Vec2::new(bytemuck::cast(a), bytemuck::cast(b));
    (v.x * v.y).to_bits()
}

/// Relies on IEEE 754 single-precision division: the quotient's bits depend
/// on the operands' bits alone.
pub uninterp spec fn div_bits(a: u32, b: u32) -> u32;

/// Relies on IEEE 754 single-precision division.
#[verifier::external_body]
pub fn fdiv(a: u32, b: u32) -> (r: u32)
    ensures
        r == div_bits(a, b),
{
    let v = glam::Vec2::new(bytemuck::cast(a), bytemuck::cast(b));
    (v.x / v.y).to_bits()
}

/// Relies on `floor` of IEEE 754 single precision: rounding toward negative
/// infinity, a function of the argument's bits alone.
pub uninterp spec fn floor_bits(a: u32) -> u32;

/// Relies on `floor` for single-precision floats.
#[verifier::external_body]
pub fn ffloor(a: u32) -> (r: u32)
    ensures
        r == floor_bits(a),
{
    let v = glam::Vec2::new(bytemuck::cast(a), bytemuck::cast(0u32));
    v.x.floor().to_bits()
}

/// Relies on `acos` of IEEE 754 single precision: a function of the
/// argument's bits alone within one build of the standard library.
pub uninterp spec fn acos_bits(a: u32) -> u32;

/// Relies on `acos` for single-precision floats.
#[verifier::external_body]
pub fn facos(a: u32) -> (r: u32)
    ensures
        r == acos_bits(a),
{
    let v = glam::Vec2::new(bytemuck::cast(a), bytemuck::cast(0u32));
    v.x.acos().to_bits()
}

/// Relies on `asin` of IEEE 754 single precision: a function of the
/// argument's bits alone within one build of the standard library.
pub uninterp spec fn asin_bits(a: u32) -> u32;

/// Relies on `asin` for single-precision floats.
#[verifier::external_body]
pub fn fasin(a: u32) -> (r: u32)
    ensures
        r == asin_bits(a),
{
    let v = glam::Vec2::new(bytemuck::cast(a), bytemuck::cast(0u32));
    v.x.asin().to_bits()
}

/// Relies on `atan2` of IEEE 754 single precision: a function of the two
/// arguments' bits alone within one build of the standard library.
pub uninterp spec fn atan2_bits(y: u32, x: u32) -> u32;

/// Relies on `atan2` for single-precision floats (`y.atan2(x)`).
#[verifier::external_body]
pub fn fatan2(y: u32, x: u32) -> (r: u32)
    ensures
        r == atan2_bits(y, x),
{
    let v = glam::Vec2::new(bytemuck::cast(y), bytemuck::cast(x));
    v.x.atan2(v.y).to_bits()
}

/// Relies on the `u32` to single-precision conversion of Rust (`as`):
/// round to nearest even, a function of the integer alone.
pub uninterp spec fn u32_to_float_bits(n: u32) -> u32;

/// Relies on the built-in `u32` to single-precision float conversion.
#[verifier::external_body]
pub fn u32_to_float(n: u32) -> (r: u32)
    ensures
        r == u32_to_float_bits(n),
{
    let v = glam::Vec2::new(n as _, bytemuck::cast(0u32));
    v.x.to_bits()
}

/// Relies on the single-precision to `usize` conversion of Rust (`as`):
/// truncation toward zero, saturating, zero for NaN.
pub uninterp spec fn float_to_usize_val(a: u32) -> usize;

/// Relies on the built-in saturating float to `usize` cast.
#[verifier::external_body]
pub fn float_to_usize(a: u32) -> (r: usize)
    ensures
        r == float_to_usize_val(a),
{
    let v = glam::Vec2::new(bytemuck::cast(a), bytemuck::cast(0u32));
    v.x as usize
}


/// Relies on the `usize` to single-precision conversion of Rust (`as`):
/// round to nearest even, a function of the integer alone.
pub uninterp spec fn usize_to_float_bits(n: usize) -> u32;

/// Relies on the built-in `usize` to single-precision float conversion.
#[verifier::external_body]
pub fn usize_to_float(n: usize) -> (r: u32)
    ensures
        r == usize_to_float_bits(n),
{
    let v = glam::Vec2::new(n as _, bytemuck::cast(0u32));
    v.x.to_bits()
}


/// Relies on IEEE 754 single-precision remainder (Rust `%`): the result's
/// bits depend on the operands' bits alone.
pub uninterp spec fn rem_bits(a: u32, b: u32) -> u32;

/// Relies on the single-precision remainder operator.
#[verifier::external_body]
pub fn frem(a: u32, b: u32) -> (r: u32)
    ensures
        r == rem_bits(a, b),
{
    let v = glam::Vec2::new(bytemuck::cast(a), bytemuck::cast(b));
    (v.x % v.y).to_bits()
}

/// Linear interpolation `a + (b - a) * t` on scalar bit patterns.
pub open spec fn spec_lerp1(a: u32, b: u32, t: u32) -> u32 {
    add_bits(a, mul_bits(sub_bits(b, a), t))
}

/// Linear interpolation between two scalars, `a + (b - a) * t`.
pub fn lerp_f32(a: u32, b: u32, t: u32) -> (r: u32)
    ensures
        r == spec_lerp1(a, b, t),
{
    fadd(a, fmul(fsub(b, a), t))
}

/// Clamp to `[lo, hi]` by IEEE comparisons: NaN passes through, as with
/// `clamp` on floats.
pub open spec fn spec_clamp(a: u32, lo: u32, hi: u32) -> u32 {
    if spec_lt(a, lo) {
        lo
    } else if spec_lt(hi, a) {
        hi
    } else {
        a
    }
}

/// Clamp a scalar to `[lo, hi]`; a NaN input is returned unchanged.
pub fn fclamp(a: u32, lo: u32, hi: u32) -> (r: u32)
    ensures
        r == spec_clamp(a, lo, hi),
{
    if flt(a, lo) {
        lo
    } else if flt(hi, a) {
        hi
    } else {
        a
    }
}

/// The larger of two scalars by IEEE `<`; a NaN first operand is returned
/// unchanged.
pub open spec fn spec_max(a: u32, b: u32) -> u32 {
    if spec_lt(a, b) {
        b
    } else {
        a
    }
}

/// The larger of two scalars by IEEE `<`.
pub fn fmax(a: u32, b: u32) -> (r: u32)
    ensures
        r == spec_max(a, b),
{
    if flt(a, b) {
        b
    } else {
        a
    }
}

} // verus!
