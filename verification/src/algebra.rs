//! Vectors, quaternions and column-major 4x4 matrices over bit-pattern
//! scalars.
//!
//! Componentwise operations are verified compositions of the scalar
//! wrappers; everything with internal rounding structure (dot products,
//! slerp, matrix products, inverses) is delegated to `glam` behind trusted
//! wrappers whose results are named spec functions.

use vstd::prelude::*;

use crate::scalar::{add_bits, fadd, fmul, fneg, fsub, mul_bits, spec_neg, sub_bits};

verus! {

/// A 3-component vector of single-precision bit patterns.
#[derive(Clone, Copy, Debug, PartialEq, Eq, Structural)]
pub struct V3 {
    pub x: u32,
    pub y: u32,
    pub z: u32,
}

/// A quaternion of single-precision bit patterns.
#[derive(Clone, Copy, Debug, PartialEq, Eq, Structural)]
pub struct Q4 {
    pub x: u32,
    pub y: u32,
    pub z: u32,
    pub w: u32,
}

/// A column-major 4x4 matrix of single-precision bit patterns: entry
/// (row `r`, column `c`) sits at index `c * 4 + r`.
#[derive(Clone, Copy, Debug)]
pub struct M4 {
    pub m: [u32; 16],
}

/// The zero vector.
pub open spec fn spec_v3_zero() -> V3 {
    V3 { x: 0, y: 0, z: 0 }
}

/// The zero vector.
pub fn v3_zero() -> (r: V3)
    ensures
        r == spec_v3_zero(),
{
    V3 { x: 0, y: 0, z: 0 }
}

/// The identity quaternion `(0, 0, 0, 1)`.
pub open spec fn spec_q4_identity() -> Q4 {
    Q4 { x: 0, y: 0, z: 0, w: 0x3F80_0000 }
}

/// The identity quaternion.
pub fn q4_identity() -> (r: Q4)
    ensures
        r == spec_q4_identity(),
{
    Q4 { x: 0, y: 0, z: 0, w: 0x3F80_0000 }
}

/// The identity matrix.
pub open spec fn spec_m4_identity() -> M4 {
    M4 {
        m: [
            0x3F80_0000u32, 0, 0, 0,
            0, 0x3F80_0000, 0, 0,
            0, 0, 0x3F80_0000, 0,
            0, 0, 0, 0x3F80_0000,
        ],
    }
}

/// The identity matrix.
pub fn m4_identity() -> (r: M4)
    ensures
        r == spec_m4_identity(),
{
    M4 {
        m: [
            0x3F80_0000u32, 0, 0, 0,
            0, 0x3F80_0000, 0, 0,
            0, 0, 0x3F80_0000, 0,
            0, 0, 0, 0x3F80_0000,
        ],
    }
}

/// Componentwise vector sum.
pub open spec fn spec_v3_add(a: V3, b: V3) -> V3 {
    V3 { x: add_bits(a.x, b.x), y: add_bits(a.y, b.y), z: add_bits(a.z, b.z) }
}

/// Componentwise vector sum.
pub fn v3_add(a: V3, b: V3) -> (r: V3)
    ensures
        r == spec_v3_add(a, b),
{
    V3 { x: fadd(a.x, b.x), y: fadd(a.y, b.y), z: fadd(a.z, b.z) }
}

/// Componentwise vector difference.
pub open spec fn spec_v3_sub(a: V3, b: V3) -> V3 {
    V3 { x: sub_bits(a.x, b.x), y: sub_bits(a.y, b.y), z: sub_bits(a.z, b.z) }
}

/// Componentwise vector difference.
pub fn v3_sub(a: V3, b: V3) -> (r: V3)
    ensures
        r == spec_v3_sub(a, b),
{
    V3 { x: fsub(a.x, b.x), y: fsub(a.y, b.y), z: fsub(a.z, b.z) }
}

/// Vector scaled by a scalar, componentwise.
pub open spec fn spec_v3_scale(a: V3, s: u32) -> V3 {
    V3 { x: mul_bits(a.x, s), y: mul_bits(a.y, s), z: mul_bits(a.z, s) }
}

/// Vector scaled by a scalar, componentwise.
pub fn v3_scale(a: V3, s: u32) -> (r: V3)
    ensures
        r == spec_v3_scale(a, s),
{
    V3 { x: fmul(a.x, s), y: fmul(a.y, s), z: fmul(a.z, s) }
}

/// Componentwise vector negation (a sign-bit flip, exact).
pub open spec fn spec_v3_neg(a: V3) -> V3 {
    V3 { x: spec_neg(a.x), y: spec_neg(a.y), z: spec_neg(a.z) }
}

/// Componentwise vector negation.
pub fn v3_neg(a: V3) -> (r: V3)
    ensures
        r == spec_v3_neg(a),
{
    V3 { x: fneg(a.x), y: fneg(a.y), z: fneg(a.z) }
}

/// Relies on `glam::Vec3::lerp`: the result depends on the operands' bits
/// alone.
pub uninterp spec fn lerp3_of(a: V3, b: V3, s: u32) -> V3;

/// Relies on `glam::Vec3::lerp`, whose source computes
/// `a * (1 - s) + b * s` lane by lane; the second clause states exactly
/// that composition over the scalar names.
#[verifier::external_body]
pub fn v3_lerp(a: V3, b: V3, s: u32) -> (r: V3)
    ensures
        r == lerp3_of(a, b, s),
        r == (V3 {
            x: add_bits(mul_bits(a.x, sub_bits(0x3F80_0000, s)), mul_bits(b.x, s)),
            y: add_bits(mul_bits(a.y, sub_bits(0x3F80_0000, s)), mul_bits(b.y, s)),
            z: add_bits(mul_bits(a.z, sub_bits(0x3F80_0000, s)), mul_bits(b.z, s)),
        }),
{
    let va = glam::Vec3::new(bytemuck::cast(a.x), bytemuck::cast(a.y), bytemuck::cast(a.z));
    let vb = glam::Vec3::new(bytemuck::cast(b.x), bytemuck::cast(b.y), bytemuck::cast(b.z));
    let v = va.lerp(vb, bytemuck::cast(s));
    V3 { x: v.x.to_bits(), y: v.y.to_bits(), z: v.z.to_bits() }
}

/// Relies on `glam::Vec3::dot`: the result depends on the operands' bits
/// alone.
pub uninterp spec fn dot3_of(a: V3, b: V3) -> u32;

/// Relies on `glam::Vec3::dot`.
#[verifier::external_body]
pub fn v3_dot(a: V3, b: V3) -> (r: u32)
    ensures
        r == dot3_of(a, b),
{
    let va = glam::Vec3::new(bytemuck::cast(a.x), bytemuck::cast(a.y), bytemuck::cast(a.z));
    let vb = glam::Vec3::new(bytemuck::cast(b.x), bytemuck::cast(b.y), bytemuck::cast(b.z));
    va.dot(vb).to_bits()
}

/// Relies on `glam::Vec3::cross`: the result depends on the operands' bits
/// alone.
pub uninterp spec fn cross3_of(a: V3, b: V3) -> V3;

/// Relies on `glam::Vec3::cross`.
#[verifier::external_body]
pub fn v3_cross(a: V3, b: V3) -> (r: V3)
    ensures
        r == cross3_of(a, b),
{
    let va = glam::Vec3::new(bytemuck::cast(a.x), bytemuck::cast(a.y), bytemuck::cast(a.z));
    let vb = glam::Vec3::new(bytemuck::cast(b.x), bytemuck::cast(b.y), bytemuck::cast(b.z));
    let v = va.cross(vb);
    V3 { x: v.x.to_bits(), y: v.y.to_bits(), z: v.z.to_bits() }
}

/// Relies on `glam::Vec3::normalize_or_zero`: the result depends on the
/// operand's bits alone; a vector whose length cannot be inverted maps to
/// the zero vector.
pub uninterp spec fn normalize_or_zero3_of(a: V3) -> V3;

/// Relies on `glam::Vec3::normalize_or_zero`.
#[verifier::external_body]
pub fn v3_normalize_or_zero(a: V3) -> (r: V3)
    ensures
        r == normalize_or_zero3_of(a),
{
    let va = glam::Vec3::new(bytemuck::cast(a.x), bytemuck::cast(a.y), bytemuck::cast(a.z));
    let v = va.normalize_or_zero();
    V3 { x: v.x.to_bits(), y: v.y.to_bits(), z: v.z.to_bits() }
}

/// Relies on `glam::Quat` multiplication: the result depends on the
/// operands' bits alone.
pub uninterp spec fn quat_mul_of(a: Q4, b: Q4) -> Q4;

/// Relies on `glam::Quat` multiplication (rotation composition `a * b`).
#[verifier::external_body]
pub fn q_mul(a: Q4, b: Q4) -> (r: Q4)
    ensures
        r == quat_mul_of(a, b),
{
    let qa = glam::Quat::from_xyzw(
        bytemuck::cast(a.x), bytemuck::cast(a.y), bytemuck::cast(a.z), bytemuck::cast(a.w));
    let qb = glam::Quat::from_xyzw(
        bytemuck::cast(b.x), bytemuck::cast(b.y), bytemuck::cast(b.z), bytemuck::cast(b.w));
    let q = (qa * qb).to_array();
    Q4 { x: q[0].to_bits(), y: q[1].to_bits(), z: q[2].to_bits(), w: q[3].to_bits() }
}

/// Relies on `glam::Quat::slerp`: the result depends on the operands' bits
/// alone; the implementation takes the short arc (it flips the sign of the
/// end quaternion when the dot product is negative).
pub uninterp spec fn slerp_of(a: Q4, b: Q4, s: u32) -> Q4;

/// Relies on `glam::Quat::slerp` (short-arc spherical interpolation).
#[verifier::external_body]
pub fn q_slerp(a: Q4, b: Q4, s: u32) -> (r: Q4)
    ensures
        r == slerp_of(a, b, s),
{
    let qa = glam::Quat::from_xyzw(
        bytemuck::cast(a.x), bytemuck::cast(a.y), bytemuck::cast(a.z), bytemuck::cast(a.w));
    let qb = glam::Quat::from_xyzw(
        bytemuck::cast(b.x), bytemuck::cast(b.y), bytemuck::cast(b.z), bytemuck::cast(b.w));
    let q = qa.slerp(qb, bytemuck::cast(s)).to_array();
    Q4 { x: q[0].to_bits(), y: q[1].to_bits(), z: q[2].to_bits(), w: q[3].to_bits() }
}

/// Relies on `glam::Quat::normalize`: the result depends on the operand's
/// bits alone.
pub uninterp spec fn qnorm_of(a: Q4) -> Q4;

/// Relies on `glam::Quat::normalize`.
#[verifier::external_body]
pub fn q_normalize(a: Q4) -> (r: Q4)
    ensures
        r == qnorm_of(a),
{
    let qa = glam::Quat::from_xyzw(
        bytemuck::cast(a.x), bytemuck::cast(a.y), bytemuck::cast(a.z), bytemuck::cast(a.w));
    let q = qa.normalize().to_array();
    Q4 { x: q[0].to_bits(), y: q[1].to_bits(), z: q[2].to_bits(), w: q[3].to_bits() }
}

/// Relies on `glam::Quat::from_axis_angle`: the result depends on the
/// operands' bits alone.
pub uninterp spec fn axis_angle_of(axis: V3, angle: u32) -> Q4;

/// Relies on `glam::Quat::from_axis_angle`.
#[verifier::external_body]
pub fn q_from_axis_angle(axis: V3, angle: u32) -> (r: Q4)
    ensures
        r == axis_angle_of(axis, angle),
{
    let va = glam::Vec3::new(
        bytemuck::cast(axis.x), bytemuck::cast(axis.y), bytemuck::cast(axis.z));
    let q = glam::Quat::from_axis_angle(va, bytemuck::cast(angle)).to_array();
    Q4 { x: q[0].to_bits(), y: q[1].to_bits(), z: q[2].to_bits(), w: q[3].to_bits() }
}

/// Relies on `glam::Quat::from_rotation_x`: the result depends on the
/// angle's bits alone.
pub uninterp spec fn rot_x_of(angle: u32) -> Q4;

/// Relies on `glam::Quat::from_rotation_x`.
#[verifier::external_body]
pub fn q_from_rotation_x(angle: u32) -> (r: Q4)
    ensures
        r == rot_x_of(angle),
{
    let q = glam::Quat::from_rotation_x(bytemuck::cast(angle)).to_array();
    Q4 { x: q[0].to_bits(), y: q[1].to_bits(), z: q[2].to_bits(), w: q[3].to_bits() }
}

/// Relies on `glam::Quat::from_rotation_y`: the result depends on the
/// angle's bits alone.
pub uninterp spec fn rot_y_of(angle: u32) -> Q4;

/// Relies on `glam::Quat::from_rotation_y`.
#[verifier::external_body]
pub fn q_from_rotation_y(angle: u32) -> (r: Q4)
    ensures
        r == rot_y_of(angle),
{
    let q = glam::Quat::from_rotation_y(bytemuck::cast(angle)).to_array();
    Q4 { x: q[0].to_bits(), y: q[1].to_bits(), z: q[2].to_bits(), w: q[3].to_bits() }
}

/// Relies on `glam::Quat::from_rotation_z`: the result depends on the
/// angle's bits alone.
pub uninterp spec fn rot_z_of(angle: u32) -> Q4;

/// Relies on `glam::Quat::from_rotation_z`.
#[verifier::external_body]
pub fn q_from_rotation_z(angle: u32) -> (r: Q4)
    ensures
        r == rot_z_of(angle),
{
    let q = glam::Quat::from_rotation_z(bytemuck::cast(angle)).to_array();
    Q4 { x: q[0].to_bits(), y: q[1].to_bits(), z: q[2].to_bits(), w: q[3].to_bits() }
}

/// Relies on `glam::Quat::from_euler` with the intrinsic Y-X-Z order: the
/// result depends on the three angles' bits alone.
pub uninterp spec fn euler_yxz_of(y: u32, x: u32, z: u32) -> Q4;

/// Relies on `glam::Quat::from_euler(EulerRot::YXZ, ..)`.
#[verifier::external_body]
pub fn q_from_euler_yxz(y: u32, x: u32, z: u32) -> (r: Q4)
    ensures
        r == euler_yxz_of(y, x, z),
{
    let q = glam::Quat::from_euler(
        glam::EulerRot::YXZ, bytemuck::cast(y), bytemuck::cast(x), bytemuck::cast(z))
        .to_array();
    Q4 { x: q[0].to_bits(), y: q[1].to_bits(), z: q[2].to_bits(), w: q[3].to_bits() }
}

/// Relies on `glam::Quat::from_euler` with the intrinsic X-Y-Z order: the
/// result depends on the three angles' bits alone.
pub uninterp spec fn euler_xyz_of(x: u32, y: u32, z: u32) -> Q4;

/// Relies on `glam::Quat::from_euler(EulerRot::XYZ, ..)`.
#[verifier::external_body]
pub fn q_from_euler_xyz(x: u32, y: u32, z: u32) -> (r: Q4)
    ensures
        r == euler_xyz_of(x, y, z),
{
    let q = glam::Quat::from_euler(
        glam::EulerRot::XYZ, bytemuck::cast(x), bytemuck::cast(y), bytemuck::cast(z))
        .to_array();
    Q4 { x: q[0].to_bits(), y: q[1].to_bits(), z: q[2].to_bits(), w: q[3].to_bits() }
}

/// Relies on `glam::Mat4` multiplication: the result depends on the
/// operands' bits alone.
pub uninterp spec fn matmul_of(a: M4, b: M4) -> M4;

/// Relies on `glam::Mat4` multiplication (`a * b`).
#[verifier::external_body]
pub fn m4_mul(a: &M4, b: &M4) -> (r: M4)
    ensures
        r == matmul_of(*a, *b),
{
    let ma = glam::Mat4::from_cols_array(&bytemuck::cast(a.m));
    let mb = glam::Mat4::from_cols_array(&bytemuck::cast(b.m));
    M4 { m: bytemuck::cast((ma * mb).to_cols_array()) }
}

/// Relies on `glam::Mat4::inverse`: the result depends on the operand's
/// bits alone.
pub uninterp spec fn inverse_of(a: M4) -> M4;

/// Relies on `glam::Mat4::inverse`.
#[verifier::external_body]
pub fn m4_inverse(a: &M4) -> (r: M4)
    ensures
        r == inverse_of(*a),
{
    let ma = glam::Mat4::from_cols_array(&bytemuck::cast(a.m));
    M4 { m: bytemuck::cast(ma.inverse().to_cols_array()) }
}

/// Relies on `glam::Mat4::from_quat`: the result depends on the operand's
/// bits alone.
pub uninterp spec fn from_quat_of(q: Q4) -> M4;

/// Relies on `glam::Mat4::from_quat`.
#[verifier::external_body]
pub fn m4_from_quat(q: Q4) -> (r: M4)
    ensures
        r == from_quat_of(q),
{
    let qa = glam::Quat::from_xyzw(
        bytemuck::cast(q.x), bytemuck::cast(q.y), bytemuck::cast(q.z), bytemuck::cast(q.w));
    M4 { m: bytemuck::cast(glam::Mat4::from_quat(qa).to_cols_array()) }
}

/// The translation matrix for `t`: the identity with `t` in the fourth
/// column.
pub open spec fn spec_m4_from_translation(t: V3) -> M4 {
    M4 {
        m: [
            0x3F80_0000u32, 0, 0, 0,
            0, 0x3F80_0000, 0, 0,
            0, 0, 0x3F80_0000, 0,
            t.x, t.y, t.z, 0x3F80_0000,
        ],
    }
}

/// Relies on `glam::Mat4::from_translation`, whose result is exactly the
/// identity matrix with the argument written into the fourth column.
#[verifier::external_body]
pub fn m4_from_translation(t: V3) -> (r: M4)
    ensures
        r == spec_m4_from_translation(t),
{
    let v = glam::Vec3::new(bytemuck::cast(t.x), bytemuck::cast(t.y), bytemuck::cast(t.z));
    M4 { m: bytemuck::cast(glam::Mat4::from_translation(v).to_cols_array()) }
}

/// Relies on `glam::Mat4::from_rotation_translation`: the result depends on
/// the operands' bits alone.
pub uninterp spec fn from_rt_of(q: Q4, t: V3) -> M4;

/// Relies on `glam::Mat4::from_rotation_translation`; its fourth column is
/// exactly the translation with a unit last entry.
#[verifier::external_body]
pub fn m4_from_rotation_translation(q: Q4, t: V3) -> (r: M4)
    ensures
        r == from_rt_of(q, t),
        r.m[12] == t.x && r.m[13] == t.y && r.m[14] == t.z && r.m[15] == 0x3F80_0000u32,
{
    let qa = glam::Quat::from_xyzw(
        bytemuck::cast(q.x), bytemuck::cast(q.y), bytemuck::cast(q.z), bytemuck::cast(q.w));
    let v = glam::Vec3::new(bytemuck::cast(t.x), bytemuck::cast(t.y), bytemuck::cast(t.z));
    M4 { m: bytemuck::cast(glam::Mat4::from_rotation_translation(qa, v).to_cols_array()) }
}

/// Relies on `glam::Mat4::to_scale_rotation_translation`: the extracted
/// scale depends on the matrix's bits alone.
pub uninterp spec fn srt_scale_of(a: M4) -> V3;

/// Relies on `glam::Mat4::to_scale_rotation_translation`: the extracted
/// rotation depends on the matrix's bits alone.
pub uninterp spec fn srt_rotation_of(a: M4) -> Q4;

/// Relies on `glam::Mat4::to_scale_rotation_translation`; the extracted
/// translation is exactly the fourth column.
#[verifier::external_body]
pub fn m4_to_scale_rotation_translation(a: &M4) -> (r: (V3, Q4, V3))
    ensures
        r.0 == srt_scale_of(*a),
        r.1 == srt_rotation_of(*a),
        r.2 == (V3 { x: a.m[12], y: a.m[13], z: a.m[14] }),
{
    let ma = glam::Mat4::from_cols_array(&bytemuck::cast(a.m));
    let (s, q, t) = ma.to_scale_rotation_translation();
    let qa = q.to_array();
    (
        V3 { x: s.x.to_bits(), y: s.y.to_bits(), z: s.z.to_bits() },
        Q4 { x: qa[0].to_bits(), y: qa[1].to_bits(), z: qa[2].to_bits(), w: qa[3].to_bits() },
        V3 { x: t.x.to_bits(), y: t.y.to_bits(), z: t.z.to_bits() },
    )
}


/// Relies on `glam::Quat::inverse`: the result depends on the operand's
/// bits alone (the conjugate for unit quaternions).
pub uninterp spec fn qinv_of(a: Q4) -> Q4;

/// Relies on `glam::Quat::inverse`.
#[verifier::external_body]
pub fn q_inverse(a: Q4) -> (r: Q4)
    ensures
        r == qinv_of(a),
{
    let qa = glam::Quat::from_xyzw(
        bytemuck::cast(a.x), bytemuck::cast(a.y), bytemuck::cast(a.z), bytemuck::cast(a.w));
    let q = qa.inverse().to_array();
    Q4 { x: q[0].to_bits(), y: q[1].to_bits(), z: q[2].to_bits(), w: q[3].to_bits() }
}

/// Relies on `glam::Quat` vector rotation: the result depends on the
/// operands' bits alone.
pub uninterp spec fn rotate3_of(q: Q4, v: V3) -> V3;

/// Relies on `glam::Quat * glam::Vec3` (rotation of a vector).
#[verifier::external_body]
pub fn q_mul_vec3(q: Q4, v: V3) -> (r: V3)
    ensures
        r == rotate3_of(q, v),
{
    let qa = glam::Quat::from_xyzw(
        bytemuck::cast(q.x), bytemuck::cast(q.y), bytemuck::cast(q.z), bytemuck::cast(q.w));
    let va = glam::Vec3::new(bytemuck::cast(v.x), bytemuck::cast(v.y), bytemuck::cast(v.z));
    let o = qa * va;
    V3 { x: o.x.to_bits(), y: o.y.to_bits(), z: o.z.to_bits() }
}

/// Relies on `glam::Quat::to_euler` with the intrinsic X-Y-Z order: the
/// result depends on the operand's bits alone.
pub uninterp spec fn to_euler_xyz_of(q: Q4) -> V3;

/// Relies on `glam::Quat::to_euler(EulerRot::XYZ)`.
#[verifier::external_body]
pub fn q_to_euler_xyz(q: Q4) -> (r: V3)
    ensures
        r == to_euler_xyz_of(q),
{
    let qa = glam::Quat::from_xyzw(
        bytemuck::cast(q.x), bytemuck::cast(q.y), bytemuck::cast(q.z), bytemuck::cast(q.w));
    let (ex, ey, ez) = qa.to_euler(glam::EulerRot::XYZ);
    V3 { x: ex.to_bits(), y: ey.to_bits(), z: ez.to_bits() }
}

/// Relies on `glam::Vec3::length`: the result depends on the operand's
/// bits alone.
pub uninterp spec fn length3_of(v: V3) -> u32;

/// Relies on `glam::Vec3::length`.
#[verifier::external_body]
pub fn v3_length(v: V3) -> (r: u32)
    ensures
        r == length3_of(v),
{
    let va = glam::Vec3::new(bytemuck::cast(v.x), bytemuck::cast(v.y), bytemuck::cast(v.z));
    va.length().to_bits()
}

/// A 2-component vector of single-precision bit patterns.
#[derive(Clone, Copy, Debug, PartialEq, Eq, Structural)]
pub struct V2 {
    pub x: u32,
    pub y: u32,
}

/// A 4-component vector of single-precision bit patterns.
#[derive(Clone, Copy, Debug, PartialEq, Eq, Structural)]
pub struct V4 {
    pub x: u32,
    pub y: u32,
    pub z: u32,
    pub w: u32,
}

/// The zero 2-vector.
pub open spec fn spec_v2_zero() -> V2 {
    V2 { x: 0, y: 0 }
}

/// The zero 2-vector.
pub fn v2_zero() -> (r: V2)
    ensures
        r == spec_v2_zero(),
{
    V2 { x: 0, y: 0 }
}

/// The zero 4-vector.
pub open spec fn spec_v4_zero() -> V4 {
    V4 { x: 0, y: 0, z: 0, w: 0 }
}

/// The zero 4-vector.
pub fn v4_zero() -> (r: V4)
    ensures
        r == spec_v4_zero(),
{
    V4 { x: 0, y: 0, z: 0, w: 0 }
}

/// The all-ones 4-vector.
pub open spec fn spec_v4_one() -> V4 {
    V4 { x: 0x3F80_0000, y: 0x3F80_0000, z: 0x3F80_0000, w: 0x3F80_0000 }
}

/// The all-ones 4-vector.
pub fn v4_one() -> (r: V4)
    ensures
        r == spec_v4_one(),
{
    V4 { x: 0x3F80_0000, y: 0x3F80_0000, z: 0x3F80_0000, w: 0x3F80_0000 }
}

/// The all-ones 3-vector.
pub open spec fn spec_v3_one() -> V3 {
    V3 { x: 0x3F80_0000, y: 0x3F80_0000, z: 0x3F80_0000 }
}

/// The all-ones 3-vector.
pub fn v3_one() -> (r: V3)
    ensures
        r == spec_v3_one(),
{
    V3 { x: 0x3F80_0000, y: 0x3F80_0000, z: 0x3F80_0000 }
}

/// Componentwise 2-vector sum.
pub open spec fn spec_v2_add(a: V2, b: V2) -> V2 {
    V2 { x: add_bits(a.x, b.x), y: add_bits(a.y, b.y) }
}

/// Componentwise 2-vector sum.
pub fn v2_add(a: V2, b: V2) -> (r: V2)
    ensures
        r == spec_v2_add(a, b),
{
    V2 { x: fadd(a.x, b.x), y: fadd(a.y, b.y) }
}

/// 2-vector scaled by a scalar, componentwise.
pub open spec fn spec_v2_scale(a: V2, s: u32) -> V2 {
    V2 { x: mul_bits(a.x, s), y: mul_bits(a.y, s) }
}

/// 2-vector scaled by a scalar, componentwise.
pub fn v2_scale(a: V2, s: u32) -> (r: V2)
    ensures
        r == spec_v2_scale(a, s),
{
    V2 { x: fmul(a.x, s), y: fmul(a.y, s) }
}

/// Componentwise 4-vector sum.
pub open spec fn spec_v4_add(a: V4, b: V4) -> V4 {
    V4 { x: add_bits(a.x, b.x), y: add_bits(a.y, b.y), z: add_bits(a.z, b.z), w: add_bits(a.w, b.w) }
}

/// Componentwise 4-vector sum.
pub fn v4_add(a: V4, b: V4) -> (r: V4)
    ensures
        r == spec_v4_add(a, b),
{
    V4 { x: fadd(a.x, b.x), y: fadd(a.y, b.y), z: fadd(a.z, b.z), w: fadd(a.w, b.w) }
}

/// Componentwise 4-vector product.
pub open spec fn spec_v4_mul(a: V4, b: V4) -> V4 {
    V4 { x: mul_bits(a.x, b.x), y: mul_bits(a.y, b.y), z: mul_bits(a.z, b.z), w: mul_bits(a.w, b.w) }
}

/// Componentwise 4-vector product.
pub fn v4_mul(a: V4, b: V4) -> (r: V4)
    ensures
        r == spec_v4_mul(a, b),
{
    V4 { x: fmul(a.x, b.x), y: fmul(a.y, b.y), z: fmul(a.z, b.z), w: fmul(a.w, b.w) }
}

/// 4-vector scaled by a scalar, componentwise.
pub open spec fn spec_v4_scale(a: V4, s: u32) -> V4 {
    V4 { x: mul_bits(a.x, s), y: mul_bits(a.y, s), z: mul_bits(a.z, s), w: mul_bits(a.w, s) }
}

/// 4-vector scaled by a scalar, componentwise.
pub fn v4_scale(a: V4, s: u32) -> (r: V4)
    ensures
        r == spec_v4_scale(a, s),
{
    V4 { x: fmul(a.x, s), y: fmul(a.y, s), z: fmul(a.z, s), w: fmul(a.w, s) }
}

/// Componentwise 3-vector product.
pub open spec fn spec_v3_mul(a: V3, b: V3) -> V3 {
    V3 { x: mul_bits(a.x, b.x), y: mul_bits(a.y, b.y), z: mul_bits(a.z, b.z) }
}

/// Componentwise 3-vector product.
pub fn v3_mul(a: V3, b: V3) -> (r: V3)
    ensures
        r == spec_v3_mul(a, b),
{
    V3 { x: fmul(a.x, b.x), y: fmul(a.y, b.y), z: fmul(a.z, b.z) }
}

/// The Z-reflection conjugation `Z * M * Z` with `Z = diag(1, 1, -1, 1)`:
/// it flips the sign of exactly those entries with one index in the z row
/// or z column, which is a sign-bit flip and therefore exact.
pub open spec fn spec_inv_z(a: M4) -> M4 {
    M4 {
        m: [
            a.m[0], a.m[1], spec_neg(a.m[2]), a.m[3],
            a.m[4], a.m[5], spec_neg(a.m[6]), a.m[7],
            spec_neg(a.m[8]), spec_neg(a.m[9]), a.m[10], spec_neg(a.m[11]),
            a.m[12], a.m[13], spec_neg(a.m[14]), a.m[15],
        ],
    }
}

/// Conjugation by the Z reflection: converts a transform between the
/// right-handed skeleton frame and the left-handed physics frame.
pub fn inv_z(a: &M4) -> (r: M4)
    ensures
        r == spec_inv_z(*a),
{
    M4 {
        m: [
            a.m[0], a.m[1], fneg(a.m[2]), a.m[3],
            a.m[4], a.m[5], fneg(a.m[6]), a.m[7],
            fneg(a.m[8]), fneg(a.m[9]), a.m[10], fneg(a.m[11]),
            a.m[12], a.m[13], fneg(a.m[14]), a.m[15],
        ],
    }
}

/// The Z conjugation is its own inverse, bit for bit, on every matrix.
pub proof fn lemma_inv_z_involution(a: M4)
    ensures
        spec_inv_z(spec_inv_z(a)) == a,
{
    crate::scalar::lemma_neg_involution(a.m[2]);
    crate::scalar::lemma_neg_involution(a.m[6]);
    crate::scalar::lemma_neg_involution(a.m[8]);
    crate::scalar::lemma_neg_involution(a.m[9]);
    crate::scalar::lemma_neg_involution(a.m[11]);
    crate::scalar::lemma_neg_involution(a.m[14]);
    let b = spec_inv_z(spec_inv_z(a));
    assert(b.m =~= a.m);
}

} // verus!
