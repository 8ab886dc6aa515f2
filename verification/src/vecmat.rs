//! Fixed-point vectors and matrices for the transform stages.
//!
//! All entries are `Fx` values; the operations compose the saturating
//! scalar arithmetic of `fixed`, so every result has an exact integer
//! specification.

use vstd::prelude::*;
use crate::fixed::Fx;
use crate::fixed::FX_ONE;
use crate::fixed::fx_bounded;
use crate::fixed::fx_add;
use crate::fixed::fx_div;
use crate::fixed::fx_mul;
use crate::fixed::fx_sub;
use crate::fixed::fx_sqrt;
use crate::fixed::sfx_add;
use crate::fixed::sfx_div;
use crate::fixed::sfx_mul;
use crate::fixed::sfx_sqrt;
use crate::fixed::sfx_sub;

verus! {

/// A two-component fixed-point vector.
#[derive(Debug, Clone, Copy, PartialEq, Eq, Structural)]
pub struct Vec2Fx {
    pub x: Fx,
    pub y: Fx,
}

/// A three-component fixed-point vector.
#[derive(Debug, Clone, Copy, PartialEq, Eq, Structural)]
pub struct Vec3Fx {
    pub x: Fx,
    pub y: Fx,
    pub z: Fx,
}

/// A four-component fixed-point vector.
#[derive(Debug, Clone, Copy, PartialEq, Eq, Structural)]
pub struct Vec4Fx {
    pub x: Fx,
    pub y: Fx,
    pub z: Fx,
    pub w: Fx,
}

/// A 3x3 fixed-point matrix, row major.
#[derive(Debug, Clone, Copy, PartialEq, Eq, Structural)]
pub struct Mat3Fx {
    pub m00: Fx,
    pub m01: Fx,
    pub m02: Fx,
    pub m10: Fx,
    pub m11: Fx,
    pub m12: Fx,
    pub m20: Fx,
    pub m21: Fx,
    pub m22: Fx,
}

/// A 4x4 fixed-point matrix, row major.
#[derive(Debug, Clone, Copy, PartialEq, Eq, Structural)]
pub struct Mat4Fx {
    pub m00: Fx,
    pub m01: Fx,
    pub m02: Fx,
    pub m03: Fx,
    pub m10: Fx,
    pub m11: Fx,
    pub m12: Fx,
    pub m13: Fx,
    pub m20: Fx,
    pub m21: Fx,
    pub m22: Fx,
    pub m23: Fx,
    pub m30: Fx,
    pub m31: Fx,
    pub m32: Fx,
    pub m33: Fx,
}

pub open spec fn vec2_bounded(v: Vec2Fx) -> bool {
    fx_bounded(v.x) && fx_bounded(v.y)
}

pub open spec fn vec3_bounded(v: Vec3Fx) -> bool {
    fx_bounded(v.x) && fx_bounded(v.y) && fx_bounded(v.z)
}

pub open spec fn vec4_bounded(v: Vec4Fx) -> bool {
    fx_bounded(v.x) && fx_bounded(v.y) && fx_bounded(v.z) && fx_bounded(v.w)
}

pub open spec fn mat3_bounded(m: Mat3Fx) -> bool {
    &&& fx_bounded(m.m00) && fx_bounded(m.m01) && fx_bounded(m.m02)
    &&& fx_bounded(m.m10) && fx_bounded(m.m11) && fx_bounded(m.m12)
    &&& fx_bounded(m.m20) && fx_bounded(m.m21) && fx_bounded(m.m22)
}

pub open spec fn mat4_bounded(m: Mat4Fx) -> bool {
    &&& fx_bounded(m.m00) && fx_bounded(m.m01) && fx_bounded(m.m02) && fx_bounded(m.m03)
    &&& fx_bounded(m.m10) && fx_bounded(m.m11) && fx_bounded(m.m12) && fx_bounded(m.m13)
    &&& fx_bounded(m.m20) && fx_bounded(m.m21) && fx_bounded(m.m22) && fx_bounded(m.m23)
    &&& fx_bounded(m.m30) && fx_bounded(m.m31) && fx_bounded(m.m32) && fx_bounded(m.m33)
}

/// Saturating sum of three products.
pub open spec fn spec_mac3(a1: Fx, b1: Fx, a2: Fx, b2: Fx, a3: Fx, b3: Fx) -> Fx {
    sfx_add(sfx_add(sfx_mul(a1, b1), sfx_mul(a2, b2)), sfx_mul(a3, b3))
}

/// Saturating sum of four products.
pub open spec fn spec_mac4(a1: Fx, b1: Fx, a2: Fx, b2: Fx, a3: Fx, b3: Fx, a4: Fx, b4: Fx) -> Fx {
    sfx_add(spec_mac3(a1, b1, a2, b2, a3, b3), sfx_mul(a4, b4))
}

fn mac3(a1: Fx, b1: Fx, a2: Fx, b2: Fx, a3: Fx, b3: Fx) -> (r: Fx)
    requires
        fx_bounded(a1),
        fx_bounded(b1),
        fx_bounded(a2),
        fx_bounded(b2),
        fx_bounded(a3),
        fx_bounded(b3),
    ensures
        r == spec_mac3(a1, b1, a2, b2, a3, b3),
        fx_bounded(r),
{
    fx_add(fx_add(fx_mul(a1, b1), fx_mul(a2, b2)), fx_mul(a3, b3))
}

fn mac4(a1: Fx, b1: Fx, a2: Fx, b2: Fx, a3: Fx, b3: Fx, a4: Fx, b4: Fx) -> (r: Fx)
    requires
        fx_bounded(a1),
        fx_bounded(b1),
        fx_bounded(a2),
        fx_bounded(b2),
        fx_bounded(a3),
        fx_bounded(b3),
        fx_bounded(a4),
        fx_bounded(b4),
    ensures
        r == spec_mac4(a1, b1, a2, b2, a3, b3, a4, b4),
        fx_bounded(r),
{
    fx_add(mac3(a1, b1, a2, b2, a3, b3), fx_mul(a4, b4))
}

/// The dot product of two vectors.
pub open spec fn spec_dot3(a: Vec3Fx, b: Vec3Fx) -> Fx {
    spec_mac3(a.x, b.x, a.y, b.y, a.z, b.z)
}

/// The dot product of two vectors.
pub fn dot3(a: &Vec3Fx, b: &Vec3Fx) -> (r: Fx)
    requires
        vec3_bounded(*a),
        vec3_bounded(*b),
    ensures
        r == spec_dot3(*a, *b),
        fx_bounded(r),
{
    mac3(a.x, b.x, a.y, b.y, a.z, b.z)
}

/// The Euclidean length of a vector.
pub open spec fn spec_norm3(v: Vec3Fx) -> Fx {
    sfx_sqrt(spec_dot3(v, v))
}

/// The vector scaled to unit length; a vector whose length truncates to
/// zero is returned unchanged.
pub open spec fn spec_normalize3(v: Vec3Fx) -> Vec3Fx {
    let n = spec_norm3(v);
    if n == 0 {
        v
    } else {
        Vec3Fx { x: sfx_div(v.x, n), y: sfx_div(v.y, n), z: sfx_div(v.z, n) }
    }
}

/// Scales a vector to unit length; a vector whose length truncates to
/// zero comes back unchanged.
pub fn normalize3(v: &Vec3Fx) -> (r: Vec3Fx)
    requires
        vec3_bounded(*v),
    ensures
        r == spec_normalize3(*v),
        vec3_bounded(r),
{
    let d: Fx = dot3(v, v);
    let n: Fx = fx_sqrt(d);
    if n == 0 {
        *v
    } else {
        Vec3Fx { x: fx_div(v.x, n), y: fx_div(v.y, n), z: fx_div(v.z, n) }
    }
}

/// The 3x3 identity.
pub open spec fn spec_mat3_identity() -> Mat3Fx {
    Mat3Fx {
        m00: FX_ONE,
        m01: 0,
        m02: 0,
        m10: 0,
        m11: FX_ONE,
        m12: 0,
        m20: 0,
        m21: 0,
        m22: FX_ONE,
    }
}

/// The 3x3 identity.
pub fn mat3_identity() -> (m: Mat3Fx)
    ensures
        m == spec_mat3_identity(),
        mat3_bounded(m),
{
    Mat3Fx {
        m00: FX_ONE,
        m01: 0,
        m02: 0,
        m10: 0,
        m11: FX_ONE,
        m12: 0,
        m20: 0,
        m21: 0,
        m22: FX_ONE,
    }
}

/// The upper-left 3x3 block of a 4x4 matrix.
pub open spec fn spec_mat3_of_mat4(m: Mat4Fx) -> Mat3Fx {
    Mat3Fx {
        m00: m.m00,
        m01: m.m01,
        m02: m.m02,
        m10: m.m10,
        m11: m.m11,
        m12: m.m12,
        m20: m.m20,
        m21: m.m21,
        m22: m.m22,
    }
}

/// The upper-left 3x3 block of a 4x4 matrix.
pub fn mat3_of_mat4(m: &Mat4Fx) -> (r: Mat3Fx)
    ensures
        r == spec_mat3_of_mat4(*m),
{
    Mat3Fx {
        m00: m.m00,
        m01: m.m01,
        m02: m.m02,
        m10: m.m10,
        m11: m.m11,
        m12: m.m12,
        m20: m.m20,
        m21: m.m21,
        m22: m.m22,
    }
}

/// The transpose of a 3x3 matrix.
pub open spec fn spec_mat3_transpose(m: Mat3Fx) -> Mat3Fx {
    Mat3Fx {
        m00: m.m00,
        m01: m.m10,
        m02: m.m20,
        m10: m.m01,
        m11: m.m11,
        m12: m.m21,
        m20: m.m02,
        m21: m.m12,
        m22: m.m22,
    }
}

/// The transpose of a 3x3 matrix.
pub fn mat3_transpose(m: &Mat3Fx) -> (r: Mat3Fx)
    ensures
        r == spec_mat3_transpose(*m),
{
    Mat3Fx {
        m00: m.m00,
        m01: m.m10,
        m02: m.m20,
        m10: m.m01,
        m11: m.m11,
        m12: m.m21,
        m20: m.m02,
        m21: m.m12,
        m22: m.m22,
    }
}

/// A 2x2 cofactor: `a*d - b*c` in saturating fixed-point.
pub open spec fn spec_cof2(a: Fx, b: Fx, c: Fx, d: Fx) -> Fx {
    sfx_sub(sfx_mul(a, d), sfx_mul(b, c))
}

fn cof2(a: Fx, b: Fx, c: Fx, d: Fx) -> (r: Fx)
    requires
        fx_bounded(a),
        fx_bounded(b),
        fx_bounded(c),
        fx_bounded(d),
    ensures
        r == spec_cof2(a, b, c, d),
        fx_bounded(r),
{
    fx_sub(fx_mul(a, d), fx_mul(b, c))
}

/// The determinant of a 3x3 matrix, in saturating fixed-point.
pub open spec fn spec_mat3_det(m: Mat3Fx) -> Fx {
    sfx_add(
        sfx_sub(
            sfx_mul(m.m00, spec_cof2(m.m11, m.m12, m.m21, m.m22)),
            sfx_mul(m.m01, spec_cof2(m.m10, m.m12, m.m20, m.m22)),
        ),
        sfx_mul(m.m02, spec_cof2(m.m10, m.m11, m.m20, m.m21)),
    )
}

/// The determinant of a 3x3 matrix, in saturating fixed-point.
pub fn mat3_det(m: &Mat3Fx) -> (r: Fx)
    requires
        mat3_bounded(*m),
    ensures
        r == spec_mat3_det(*m),
        fx_bounded(r),
{
    fx_add(
        fx_sub(
            fx_mul(m.m00, cof2(m.m11, m.m12, m.m21, m.m22)),
            fx_mul(m.m01, cof2(m.m10, m.m12, m.m20, m.m22)),
        ),
        fx_mul(m.m02, cof2(m.m10, m.m11, m.m20, m.m21)),
    )
}

/// The inverse of a 3x3 matrix by the adjugate, or the identity when the
/// fixed-point determinant is zero (the degenerate fallback of the
/// transform stage).
pub open spec fn spec_mat3_inverse_or_identity(m: Mat3Fx) -> Mat3Fx {
    let det = spec_mat3_det(m);
    if det == 0 {
        spec_mat3_identity()
    } else {
        Mat3Fx {
            m00: sfx_div(spec_cof2(m.m11, m.m12, m.m21, m.m22), det),
            m01: sfx_div(spec_cof2(m.m02, m.m01, m.m22, m.m21), det),
            m02: sfx_div(spec_cof2(m.m01, m.m02, m.m11, m.m12), det),
            m10: sfx_div(spec_cof2(m.m12, m.m10, m.m22, m.m20), det),
            m11: sfx_div(spec_cof2(m.m00, m.m02, m.m20, m.m22), det),
            m12: sfx_div(spec_cof2(m.m02, m.m00, m.m12, m.m10), det),
            m20: sfx_div(spec_cof2(m.m10, m.m11, m.m20, m.m21), det),
            m21: sfx_div(spec_cof2(m.m01, m.m00, m.m21, m.m20), det),
            m22: sfx_div(spec_cof2(m.m00, m.m01, m.m10, m.m11), det),
        }
    }
}

/// The inverse of a 3x3 matrix by the adjugate, or the identity when the
/// fixed-point determinant is zero.
pub fn mat3_inverse_or_identity(m: &Mat3Fx) -> (r: Mat3Fx)
    requires
        mat3_bounded(*m),
    ensures
        r == spec_mat3_inverse_or_identity(*m),
        mat3_bounded(r),
{
    let det: Fx = mat3_det(m);
    if det == 0 {
        mat3_identity()
    } else {
        Mat3Fx {
            m00: fx_div(cof2(m.m11, m.m12, m.m21, m.m22), det),
            m01: fx_div(cof2(m.m02, m.m01, m.m22, m.m21), det),
            m02: fx_div(cof2(m.m01, m.m02, m.m11, m.m12), det),
            m10: fx_div(cof2(m.m12, m.m10, m.m22, m.m20), det),
            m11: fx_div(cof2(m.m00, m.m02, m.m20, m.m22), det),
            m12: fx_div(cof2(m.m02, m.m00, m.m12, m.m10), det),
            m20: fx_div(cof2(m.m10, m.m11, m.m20, m.m21), det),
            m21: fx_div(cof2(m.m01, m.m00, m.m21, m.m20), det),
            m22: fx_div(cof2(m.m00, m.m01, m.m10, m.m11), det),
        }
    }
}

/// A 3x3 matrix applied to a vector.
pub open spec fn spec_mat3_vec3(m: Mat3Fx, v: Vec3Fx) -> Vec3Fx {
    Vec3Fx {
        x: spec_mac3(m.m00, v.x, m.m01, v.y, m.m02, v.z),
        y: spec_mac3(m.m10, v.x, m.m11, v.y, m.m12, v.z),
        z: spec_mac3(m.m20, v.x, m.m21, v.y, m.m22, v.z),
    }
}

/// A 3x3 matrix applied to a vector.
pub fn mat3_vec3(m: &Mat3Fx, v: &Vec3Fx) -> (r: Vec3Fx)
    requires
        mat3_bounded(*m),
        vec3_bounded(*v),
    ensures
        r == spec_mat3_vec3(*m, *v),
        vec3_bounded(r),
{
    Vec3Fx {
        x: mac3(m.m00, v.x, m.m01, v.y, m.m02, v.z),
        y: mac3(m.m10, v.x, m.m11, v.y, m.m12, v.z),
        z: mac3(m.m20, v.x, m.m21, v.y, m.m22, v.z),
    }
}

/// A 4x4 matrix applied to a vector.
pub open spec fn spec_mat4_vec4(m: Mat4Fx, v: Vec4Fx) -> Vec4Fx {
    Vec4Fx {
        x: spec_mac4(m.m00, v.x, m.m01, v.y, m.m02, v.z, m.m03, v.w),
        y: spec_mac4(m.m10, v.x, m.m11, v.y, m.m12, v.z, m.m13, v.w),
        z: spec_mac4(m.m20, v.x, m.m21, v.y, m.m22, v.z, m.m23, v.w),
        w: spec_mac4(m.m30, v.x, m.m31, v.y, m.m32, v.z, m.m33, v.w),
    }
}

/// A 4x4 matrix applied to a vector.
pub fn mat4_vec4(m: &Mat4Fx, v: &Vec4Fx) -> (r: Vec4Fx)
    requires
        mat4_bounded(*m),
        vec4_bounded(*v),
    ensures
        r == spec_mat4_vec4(*m, *v),
        vec4_bounded(r),
{
    Vec4Fx {
        x: mac4(m.m00, v.x, m.m01, v.y, m.m02, v.z, m.m03, v.w),
        y: mac4(m.m10, v.x, m.m11, v.y, m.m12, v.z, m.m13, v.w),
        z: mac4(m.m20, v.x, m.m21, v.y, m.m22, v.z, m.m23, v.w),
        w: mac4(m.m30, v.x, m.m31, v.y, m.m32, v.z, m.m33, v.w),
    }
}

/// The product of two 4x4 matrices.
pub open spec fn spec_mat4_mul(a: Mat4Fx, b: Mat4Fx) -> Mat4Fx {
    Mat4Fx {
        m00: spec_mac4(a.m00, b.m00, a.m01, b.m10, a.m02, b.m20, a.m03, b.m30),
        m01: spec_mac4(a.m00, b.m01, a.m01, b.m11, a.m02, b.m21, a.m03, b.m31),
        m02: spec_mac4(a.m00, b.m02, a.m01, b.m12, a.m02, b.m22, a.m03, b.m32),
        m03: spec_mac4(a.m00, b.m03, a.m01, b.m13, a.m02, b.m23, a.m03, b.m33),
        m10: spec_mac4(a.m10, b.m00, a.m11, b.m10, a.m12, b.m20, a.m13, b.m30),
        m11: spec_mac4(a.m10, b.m01, a.m11, b.m11, a.m12, b.m21, a.m13, b.m31),
        m12: spec_mac4(a.m10, b.m02, a.m11, b.m12, a.m12, b.m22, a.m13, b.m32),
        m13: spec_mac4(a.m10, b.m03, a.m11, b.m13, a.m12, b.m23, a.m13, b.m33),
        m20: spec_mac4(a.m20, b.m00, a.m21, b.m10, a.m22, b.m20, a.m23, b.m30),
        m21: spec_mac4(a.m20, b.m01, a.m21, b.m11, a.m22, b.m21, a.m23, b.m31),
        m22: spec_mac4(a.m20, b.m02, a.m21, b.m12, a.m22, b.m22, a.m23, b.m32),
        m23: spec_mac4(a.m20, b.m03, a.m21, b.m13, a.m22, b.m23, a.m23, b.m33),
        m30: spec_mac4(a.m30, b.m00, a.m31, b.m10, a.m32, b.m20, a.m33, b.m30),
        m31: spec_mac4(a.m30, b.m01, a.m31, b.m11, a.m32, b.m21, a.m33, b.m31),
        m32: spec_mac4(a.m30, b.m02, a.m31, b.m12, a.m32, b.m22, a.m33, b.m32),
        m33: spec_mac4(a.m30, b.m03, a.m31, b.m13, a.m32, b.m23, a.m33, b.m33),
    }
}

/// The product of two 4x4 matrices.
pub fn mat4_mul(a: &Mat4Fx, b: &Mat4Fx) -> (r: Mat4Fx)
    requires
        mat4_bounded(*a),
        mat4_bounded(*b),
    ensures
        r == spec_mat4_mul(*a, *b),
        mat4_bounded(r),
{
    Mat4Fx {
        m00: mac4(a.m00, b.m00, a.m01, b.m10, a.m02, b.m20, a.m03, b.m30),
        m01: mac4(a.m00, b.m01, a.m01, b.m11, a.m02, b.m21, a.m03, b.m31),
        m02: mac4(a.m00, b.m02, a.m01, b.m12, a.m02, b.m22, a.m03, b.m32),
        m03: mac4(a.m00, b.m03, a.m01, b.m13, a.m02, b.m23, a.m03, b.m33),
        m10: mac4(a.m10, b.m00, a.m11, b.m10, a.m12, b.m20, a.m13, b.m30),
        m11: mac4(a.m10, b.m01, a.m11, b.m11, a.m12, b.m21, a.m13, b.m31),
        m12: mac4(a.m10, b.m02, a.m11, b.m12, a.m12, b.m22, a.m13, b.m32),
        m13: mac4(a.m10, b.m03, a.m11, b.m13, a.m12, b.m23, a.m13, b.m33),
        m20: mac4(a.m20, b.m00, a.m21, b.m10, a.m22, b.m20, a.m23, b.m30),
        m21: mac4(a.m20, b.m01, a.m21, b.m11, a.m22, b.m21, a.m23, b.m31),
        m22: mac4(a.m20, b.m02, a.m21, b.m12, a.m22, b.m22, a.m23, b.m32),
        m23: mac4(a.m20, b.m03, a.m21, b.m13, a.m22, b.m23, a.m23, b.m33),
        m30: mac4(a.m30, b.m00, a.m31, b.m10, a.m32, b.m20, a.m33, b.m30),
        m31: mac4(a.m30, b.m01, a.m31, b.m11, a.m32, b.m21, a.m33, b.m31),
        m32: mac4(a.m30, b.m02, a.m31, b.m12, a.m32, b.m22, a.m33, b.m32),
        m33: mac4(a.m30, b.m03, a.m31, b.m13, a.m32, b.m23, a.m33, b.m33),
    }
}

/// A rotation about the x axis from the sine and cosine of its angle.
pub open spec fn spec_rotation_x(sin_x: Fx, cos_x: Fx) -> Mat4Fx {
    Mat4Fx {
        m00: FX_ONE,
        m01: 0,
        m02: 0,
        m03: 0,
        m10: 0,
        m11: cos_x,
        m12: sfx_sub(0, sin_x),
        m13: 0,
        m20: 0,
        m21: sin_x,
        m22: cos_x,
        m23: 0,
        m30: 0,
        m31: 0,
        m32: 0,
        m33: FX_ONE,
    }
}

/// A rotation about the y axis from the sine and cosine of its angle.
pub open spec fn spec_rotation_y(sin_y: Fx, cos_y: Fx) -> Mat4Fx {
    Mat4Fx {
        m00: cos_y,
        m01: 0,
        m02: sin_y,
        m03: 0,
        m10: 0,
        m11: FX_ONE,
        m12: 0,
        m13: 0,
        m20: sfx_sub(0, sin_y),
        m21: 0,
        m22: cos_y,
        m23: 0,
        m30: 0,
        m31: 0,
        m32: 0,
        m33: FX_ONE,
    }
}

/// A rotation about the z axis from the sine and cosine of its angle.
pub open spec fn spec_rotation_z(sin_z: Fx, cos_z: Fx) -> Mat4Fx {
    Mat4Fx {
        m00: cos_z,
        m01: sfx_sub(0, sin_z),
        m02: 0,
        m03: 0,
        m10: sin_z,
        m11: cos_z,
        m12: 0,
        m13: 0,
        m20: 0,
        m21: 0,
        m22: FX_ONE,
        m23: 0,
        m30: 0,
        m31: 0,
        m32: 0,
        m33: FX_ONE,
    }
}

/// Uniform scale and translation in one matrix.
pub open spec fn spec_scale_translation(translation: Vec3Fx, scale: Fx) -> Mat4Fx {
    Mat4Fx {
        m00: scale,
        m01: 0,
        m02: 0,
        m03: translation.x,
        m10: 0,
        m11: scale,
        m12: 0,
        m13: translation.y,
        m20: 0,
        m21: 0,
        m22: scale,
        m23: translation.z,
        m30: 0,
        m31: 0,
        m32: 0,
        m33: FX_ONE,
    }
}

/// The model matrix of a scene body: rotations about x, then y, then z
/// (each given by the sine and cosine of its angle, whose trigonometry
/// the caller owns), followed by a uniform scale and a translation.
pub open spec fn spec_model_matrix(
    translation: Vec3Fx,
    scale: Fx,
    sin_x: Fx,
    cos_x: Fx,
    sin_y: Fx,
    cos_y: Fx,
    sin_z: Fx,
    cos_z: Fx,
) -> Mat4Fx {
    let rotation = spec_mat4_mul(
        spec_mat4_mul(spec_rotation_z(sin_z, cos_z), spec_rotation_y(sin_y, cos_y)),
        spec_rotation_x(sin_x, cos_x),
    );
    spec_mat4_mul(spec_scale_translation(translation, scale), rotation)
}

/// The model matrix of a scene body, from precomputed rotation sines and
/// cosines.
pub fn model_matrix(
    translation: Vec3Fx,
    scale: Fx,
    sin_x: Fx,
    cos_x: Fx,
    sin_y: Fx,
    cos_y: Fx,
    sin_z: Fx,
    cos_z: Fx,
) -> (m: Mat4Fx)
    requires
        vec3_bounded(translation),
        fx_bounded(scale),
        fx_bounded(sin_x),
        fx_bounded(cos_x),
        fx_bounded(sin_y),
        fx_bounded(cos_y),
        fx_bounded(sin_z),
        fx_bounded(cos_z),
    ensures
        m == spec_model_matrix(translation, scale, sin_x, cos_x, sin_y, cos_y, sin_z, cos_z),
        mat4_bounded(m),
{
    let rx = Mat4Fx {
        m00: FX_ONE,
        m01: 0,
        m02: 0,
        m03: 0,
        m10: 0,
        m11: cos_x,
        m12: fx_sub(0, sin_x),
        m13: 0,
        m20: 0,
        m21: sin_x,
        m22: cos_x,
        m23: 0,
        m30: 0,
        m31: 0,
        m32: 0,
        m33: FX_ONE,
    };
    let ry = Mat4Fx {
        m00: cos_y,
        m01: 0,
        m02: sin_y,
        m03: 0,
        m10: 0,
        m11: FX_ONE,
        m12: 0,
        m13: 0,
        m20: fx_sub(0, sin_y),
        m21: 0,
        m22: cos_y,
        m23: 0,
        m30: 0,
        m31: 0,
        m32: 0,
        m33: FX_ONE,
    };
    let rz = Mat4Fx {
        m00: cos_z,
        m01: fx_sub(0, sin_z),
        m02: 0,
        m03: 0,
        m10: sin_z,
        m11: cos_z,
        m12: 0,
        m13: 0,
        m20: 0,
        m21: 0,
        m22: FX_ONE,
        m23: 0,
        m30: 0,
        m31: 0,
        m32: 0,
        m33: FX_ONE,
    };
    let transform = Mat4Fx {
        m00: scale,
        m01: 0,
        m02: 0,
        m03: translation.x,
        m10: 0,
        m11: scale,
        m12: 0,
        m13: translation.y,
        m20: 0,
        m21: 0,
        m22: scale,
        m23: translation.z,
        m30: 0,
        m31: 0,
        m32: 0,
        m33: FX_ONE,
    };
    let rotation = mat4_mul(&mat4_mul(&rz, &ry), &rx);
    mat4_mul(&transform, &rotation)
}

/// The viewport matrix of a `width` by `height` pixel target: scales the
/// unit cube to pixel units and flips no axis (y grows downward in the
/// buffer already).
pub open spec fn spec_viewport_matrix(width: i64, height: i64) -> Mat4Fx {
    let hw = sfx_mul(crate::fixed::sfx_from_int(width), crate::fixed::FX_HALF);
    let hh = sfx_mul(crate::fixed::sfx_from_int(height), crate::fixed::FX_HALF);
    Mat4Fx {
        m00: hw,
        m01: 0,
        m02: 0,
        m03: hw,
        m10: 0,
        m11: hh,
        m12: 0,
        m13: hh,
        m20: 0,
        m21: 0,
        m22: FX_ONE,
        m23: 0,
        m30: 0,
        m31: 0,
        m32: 0,
        m33: FX_ONE,
    }
}

/// The viewport matrix of a `width` by `height` pixel target.
pub fn viewport_matrix(width: i64, height: i64) -> (m: Mat4Fx)
    ensures
        m == spec_viewport_matrix(width, height),
        mat4_bounded(m),
{
    let hw: Fx = fx_mul(crate::fixed::fx_from_int(width), crate::fixed::FX_HALF);
    let hh: Fx = fx_mul(crate::fixed::fx_from_int(height), crate::fixed::FX_HALF);
    Mat4Fx {
        m00: hw,
        m01: 0,
        m02: 0,
        m03: hw,
        m10: 0,
        m11: hh,
        m12: 0,
        m13: hh,
        m20: 0,
        m21: 0,
        m22: FX_ONE,
        m23: 0,
        m30: 0,
        m31: 0,
        m32: 0,
        m33: FX_ONE,
    }
}

} // verus!
