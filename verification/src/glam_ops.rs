//! Trusted wrappers around the floating-point operations of the `glam`
//! crate.
//!
//! Each wrapper converts bit patterns to the corresponding `glam` value,
//! makes exactly one `glam` call, and converts the result back to bit
//! patterns. The translation and scale matrices involve no arithmetic, so
//! their contracts state the exact bit layout; every arithmetic result is
//! a function of its arguments alone and is given an uninterpreted name
//! that the callers' contracts compose. Nothing else is assumed about the
//! numeric values.

use vstd::prelude::*;
use crate::fbits::{F32_ONE, F32_ZERO};
use crate::math::{Mat4Bits, QuatBits, Vec2Bits, Vec3Bits};

verus! {

/// Column-major translation matrix of a vector, exactly as
/// `glam::Mat4::from_translation` builds it: the identity columns, then
/// the vector's bits and 1.0 in the fourth column. No arithmetic is
/// involved, so the result is stated exactly rather than named.
pub open spec fn glam_translation_mat(v: Seq<u32>) -> Seq<u32>
    recommends
        v.len() == 3,
{
    seq![
        F32_ONE, F32_ZERO, F32_ZERO, F32_ZERO,
        F32_ZERO, F32_ONE, F32_ZERO, F32_ZERO,
        F32_ZERO, F32_ZERO, F32_ONE, F32_ZERO,
        v[0], v[1], v[2], F32_ONE,
    ]
}

/// Column-major rotation matrix of a quaternion, as `glam::Mat4::from_quat` builds it.
pub uninterp spec fn glam_rotation_mat(q: Seq<u32>) -> Seq<u32>;

/// Column-major scale matrix of a vector, exactly as
/// `glam::Mat4::from_scale` builds it: the vector's bits on the
/// diagonal, 1.0 in the last place, zeros elsewhere. No arithmetic is
/// involved, so the result is stated exactly rather than named.
pub open spec fn glam_scale_mat(v: Seq<u32>) -> Seq<u32>
    recommends
        v.len() == 3,
{
    seq![
        v[0], F32_ZERO, F32_ZERO, F32_ZERO,
        F32_ZERO, v[1], F32_ZERO, F32_ZERO,
        F32_ZERO, F32_ZERO, v[2], F32_ZERO,
        F32_ZERO, F32_ZERO, F32_ZERO, F32_ONE,
    ]
}

/// Column-major product of two matrices, as `glam::Mat4` multiplication computes it.
pub uninterp spec fn glam_mat_mul(a: Seq<u32>, b: Seq<u32>) -> Seq<u32>;

/// Column-major rotation matrix about the Z axis, as `glam::Mat4::from_rotation_z` builds it.
pub uninterp spec fn glam_rot_z_mat(angle: u32) -> Seq<u32>;

/// Quaternion of a rotation about the Z axis, as `glam::Quat::from_rotation_z` builds it.
pub uninterp spec fn glam_rot_z_quat(angle: u32) -> Seq<u32>;

/// Column-major right-handed orthographic projection matrix, as
/// `glam::Mat4::orthographic_rh` builds it.
pub uninterp spec fn glam_ortho_mat(
    left: u32,
    right: u32,
    bottom: u32,
    top: u32,
    near: u32,
    far: u32,
) -> Seq<u32>;

/// Component-wise sum of two 2D vectors, as `glam::Vec2` addition computes it.
pub uninterp spec fn glam_vec2_add(a: Seq<u32>, b: Seq<u32>) -> Seq<u32>;

/// A 2D vector scaled by a scalar, as `glam::Vec2` multiplication computes it.
pub uninterp spec fn glam_vec2_scale(v: Seq<u32>, s: u32) -> Seq<u32>;

/// A 3D vector scaled to unit length, as `glam::Vec3::normalize` computes it.
pub uninterp spec fn glam_vec3_normalize(v: Seq<u32>) -> Seq<u32>;

/// Single-precision sum, as `glam` vector addition computes it per component.
pub uninterp spec fn glam_f32_add(a: u32, b: u32) -> u32;

/// Single-precision difference, as `glam` vector subtraction computes it per component.
pub uninterp spec fn glam_f32_sub(a: u32, b: u32) -> u32;

/// Single-precision product, as `glam` vector multiplication computes it per component.
pub uninterp spec fn glam_f32_mul(a: u32, b: u32) -> u32;

/// Single-precision quotient, as `glam` vector division computes it per component.
pub uninterp spec fn glam_f32_div(a: u32, b: u32) -> u32;

/// Relies on `glam::Mat4::from_translation`.
#[verifier::external_body]
pub(crate) fn mat4_from_translation(v: &Vec3Bits) -> (r: Mat4Bits)
    ensures
        r@ == glam_translation_mat(v@),
{
    let gv = glam::Vec3::from_array(bytemuck::cast([v.x, v.y, v.z]));
    Mat4Bits { m: bytemuck::cast(glam::Mat4::from_translation(gv).to_cols_array()) }
}

/// Relies on `glam::Mat4::from_quat`.
#[verifier::external_body]
pub(crate) fn mat4_from_quat(q: &QuatBits) -> (r: Mat4Bits)
    ensures
        r@ == glam_rotation_mat(q@),
{
    let gq = glam::Quat::from_array(bytemuck::cast([q.x, q.y, q.z, q.w]));
    Mat4Bits { m: bytemuck::cast(glam::Mat4::from_quat(gq).to_cols_array()) }
}

/// Relies on `glam::Mat4::from_scale`.
#[verifier::external_body]
pub(crate) fn mat4_from_scale(v: &Vec3Bits) -> (r: Mat4Bits)
    ensures
        r@ == glam_scale_mat(v@),
{
    let gv = glam::Vec3::from_array(bytemuck::cast([v.x, v.y, v.z]));
    Mat4Bits { m: bytemuck::cast(glam::Mat4::from_scale(gv).to_cols_array()) }
}

/// Relies on `glam::Mat4`'s `Mul` implementation.
#[verifier::external_body]
pub(crate) fn mat4_mul(a: &Mat4Bits, b: &Mat4Bits) -> (r: Mat4Bits)
    ensures
        r@ == glam_mat_mul(a@, b@),
{
    let ga = glam::Mat4::from_cols_array(&bytemuck::cast(a.m));
    let gb = glam::Mat4::from_cols_array(&bytemuck::cast(b.m));
    Mat4Bits { m: bytemuck::cast((ga * gb).to_cols_array()) }
}

/// Relies on `glam::Mat4::from_rotation_z`.
#[verifier::external_body]
pub(crate) fn mat4_from_rotation_z(angle: u32) -> (r: Mat4Bits)
    ensures
        r@ == glam_rot_z_mat(angle),
{
    Mat4Bits { m: bytemuck::cast(glam::Mat4::from_rotation_z(bytemuck::cast(angle)).to_cols_array()) }
}

/// Relies on `glam::Quat::from_rotation_z`.
#[verifier::external_body]
pub(crate) fn quat_from_rotation_z(angle: u32) -> (r: QuatBits)
    ensures
        r@ == glam_rot_z_quat(angle),
{
    let a = glam::Quat::from_rotation_z(bytemuck::cast(angle)).to_array();
    let b: [u32; 4] = bytemuck::cast(a);
    QuatBits { x: b[0], y: b[1], z: b[2], w: b[3] }
}

/// Relies on `glam::Mat4::orthographic_rh`.
#[verifier::external_body]
pub(crate) fn mat4_orthographic_rh(
    left: u32,
    right: u32,
    bottom: u32,
    top: u32,
    near: u32,
    far: u32,
) -> (r: Mat4Bits)
    ensures
        r@ == glam_ortho_mat(left, right, bottom, top, near, far),
{
    let gm = glam::Mat4::orthographic_rh(
        bytemuck::cast(left),
        bytemuck::cast(right),
        bytemuck::cast(bottom),
        bytemuck::cast(top),
        bytemuck::cast(near),
        bytemuck::cast(far),
    );
    Mat4Bits { m: bytemuck::cast(gm.to_cols_array()) }
}

/// Relies on `glam::Vec2`'s `Add` implementation.
#[verifier::external_body]
pub(crate) fn vec2_add(a: &Vec2Bits, b: &Vec2Bits) -> (r: Vec2Bits)
    ensures
        r@ == glam_vec2_add(a@, b@),
{
    let ga = glam::Vec2::from_array(bytemuck::cast([a.x, a.y]));
    let gb = glam::Vec2::from_array(bytemuck::cast([b.x, b.y]));
    let c: [u32; 2] = bytemuck::cast((ga + gb).to_array());
    Vec2Bits { x: c[0], y: c[1] }
}

/// Relies on `glam::Vec2`'s `Mul` implementation, with the scalar splatted
/// into both components.
#[verifier::external_body]
pub(crate) fn vec2_scale(v: &Vec2Bits, s: u32) -> (r: Vec2Bits)
    ensures
        r@ == glam_vec2_scale(v@, s),
{
    let gv = glam::Vec2::from_array(bytemuck::cast([v.x, v.y]));
    let gs = glam::Vec2::splat(bytemuck::cast(s));
    let c: [u32; 2] = bytemuck::cast((gv * gs).to_array());
    Vec2Bits { x: c[0], y: c[1] }
}

/// Relies on `glam::Vec3::normalize`.
#[verifier::external_body]
pub(crate) fn vec3_normalize(v: &Vec3Bits) -> (r: Vec3Bits)
    ensures
        r@ == glam_vec3_normalize(v@),
{
    let gv = glam::Vec3::from_array(bytemuck::cast([v.x, v.y, v.z]));
    let c: [u32; 3] = bytemuck::cast(gv.normalize().to_array());
    Vec3Bits { x: c[0], y: c[1], z: c[2] }
}

/// Relies on `glam::Vec2`'s `Add` implementation applied to splatted scalars.
#[verifier::external_body]
pub(crate) fn f32_add(a: u32, b: u32) -> (r: u32)
    ensures
        r == glam_f32_add(a, b),
{
    let ga = glam::Vec2::splat(bytemuck::cast(a));
    let gb = glam::Vec2::splat(bytemuck::cast(b));
    let c: [u32; 2] = bytemuck::cast((ga + gb).to_array());
    c[0]
}

/// Relies on `glam::Vec2`'s `Sub` implementation applied to splatted scalars.
#[verifier::external_body]
pub(crate) fn f32_sub(a: u32, b: u32) -> (r: u32)
    ensures
        r == glam_f32_sub(a, b),
{
    let ga = glam::Vec2::splat(bytemuck::cast(a));
    let gb = glam::Vec2::splat(bytemuck::cast(b));
    let c: [u32; 2] = bytemuck::cast((ga - gb).to_array());
    c[0]
}

/// Relies on `glam::Vec2`'s `Mul` implementation applied to splatted scalars.
#[verifier::external_body]
pub(crate) fn f32_mul(a: u32, b: u32) -> (r: u32)
    ensures
        r == glam_f32_mul(a, b),
{
    let ga = glam::Vec2::splat(bytemuck::cast(a));
    let gb = glam::Vec2::splat(bytemuck::cast(b));
    let c: [u32; 2] = bytemuck::cast((ga * gb).to_array());
    c[0]
}

/// Relies on `glam::Vec2`'s `Div` implementation applied to splatted scalars.
#[verifier::external_body]
pub(crate) fn f32_div(a: u32, b: u32) -> (r: u32)
    ensures
        r == glam_f32_div(a, b),
{
    let ga = glam::Vec2::splat(bytemuck::cast(a));
    let gb = glam::Vec2::splat(bytemuck::cast(b));
    let c: [u32; 2] = bytemuck::cast((ga / gb).to_array());
    c[0]
}

} // verus!
