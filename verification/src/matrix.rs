//! Fixed-point 4x4 and 3x3 matrices: products, the model and viewport
//! matrix constructions, and the inverse-transpose normal matrix.

use vstd::prelude::*;
use crate::fixed::{
    div_trunc, fx_neg, fx_neg_spec, fx_sat, fx_tdiv_any, lemma_mul_bound, sat64,
};
use crate::geom::{dot3, dot3_spec, dot4, dot4_spec, Vec3, Vec4};

verus! {

#[derive(Clone, Copy, Debug, PartialEq, Eq, Structural)]
pub struct Mat4 {
    pub r0: Vec4,
    pub r1: Vec4,
    pub r2: Vec4,
    pub r3: Vec4,
}

#[derive(Clone, Copy, Debug, PartialEq, Eq, Structural)]
pub struct Mat3 {
    pub r0: Vec3,
    pub r1: Vec3,
    pub r2: Vec3,
}

/// The four matrices of one frame: rebuilt per frame, immutable within it.
pub struct Uniforms {
    pub model_matrix: Mat4,
    pub view_matrix: Mat4,
    pub projection_matrix: Mat4,
    pub viewport_matrix: Mat4,
}

pub open spec fn mat4_identity_spec() -> Mat4 {
    Mat4 {
        r0: Vec4 { x: 65536, y: 0, z: 0, w: 0 },
        r1: Vec4 { x: 0, y: 65536, z: 0, w: 0 },
        r2: Vec4 { x: 0, y: 0, z: 65536, w: 0 },
        r3: Vec4 { x: 0, y: 0, z: 0, w: 65536 },
    }
}

pub open spec fn mat3_identity_spec() -> Mat3 {
    Mat3 {
        r0: Vec3 { x: 65536, y: 0, z: 0 },
        r1: Vec3 { x: 0, y: 65536, z: 0 },
        r2: Vec3 { x: 0, y: 0, z: 65536 },
    }
}

pub fn mat4_identity() -> (m: Mat4)
    ensures
        m == mat4_identity_spec(),
{
    Mat4 {
        r0: Vec4 { x: 65536, y: 0, z: 0, w: 0 },
        r1: Vec4 { x: 0, y: 65536, z: 0, w: 0 },
        r2: Vec4 { x: 0, y: 0, z: 65536, w: 0 },
        r3: Vec4 { x: 0, y: 0, z: 0, w: 65536 },
    }
}

pub fn mat3_identity() -> (m: Mat3)
    ensures
        m == mat3_identity_spec(),
{
    Mat3 {
        r0: Vec3 { x: 65536, y: 0, z: 0 },
        r1: Vec3 { x: 0, y: 65536, z: 0 },
        r2: Vec3 { x: 0, y: 0, z: 65536 },
    }
}

pub open spec fn mat4_mul_vec4_spec(m: Mat4, v: Vec4) -> Vec4 {
    Vec4 {
        x: dot4_spec(m.r0, v) as i64,
        y: dot4_spec(m.r1, v) as i64,
        z: dot4_spec(m.r2, v) as i64,
        w: dot4_spec(m.r3, v) as i64,
    }
}

pub fn mat4_mul_vec4(m: &Mat4, v: Vec4) -> (r: Vec4)
    ensures
        r == mat4_mul_vec4_spec(*m, v),
{
    Vec4 { x: dot4(m.r0, v), y: dot4(m.r1, v), z: dot4(m.r2, v), w: dot4(m.r3, v) }
}

pub open spec fn mat3_mul_vec3_spec(m: Mat3, v: Vec3) -> Vec3 {
    Vec3 { x: dot3_spec(m.r0, v) as i64, y: dot3_spec(m.r1, v) as i64, z: dot3_spec(m.r2, v) as i64 }
}

pub fn mat3_mul_vec3(m: &Mat3, v: Vec3) -> (r: Vec3)
    ensures
        r == mat3_mul_vec3_spec(*m, v),
{
    Vec3 { x: dot3(m.r0, v), y: dot3(m.r1, v), z: dot3(m.r2, v) }
}

pub open spec fn mat4_col_spec(m: Mat4, j: int) -> Vec4 {
    if j == 0 {
        Vec4 { x: m.r0.x, y: m.r1.x, z: m.r2.x, w: m.r3.x }
    } else if j == 1 {
        Vec4 { x: m.r0.y, y: m.r1.y, z: m.r2.y, w: m.r3.y }
    } else if j == 2 {
        Vec4 { x: m.r0.z, y: m.r1.z, z: m.r2.z, w: m.r3.z }
    } else {
        Vec4 { x: m.r0.w, y: m.r1.w, z: m.r2.w, w: m.r3.w }
    }
}

pub open spec fn mat4_mul_row_spec(r: Vec4, n: Mat4) -> Vec4 {
    Vec4 {
        x: dot4_spec(r, mat4_col_spec(n, 0)) as i64,
        y: dot4_spec(r, mat4_col_spec(n, 1)) as i64,
        z: dot4_spec(r, mat4_col_spec(n, 2)) as i64,
        w: dot4_spec(r, mat4_col_spec(n, 3)) as i64,
    }
}

pub open spec fn mat4_mul_spec(m: Mat4, n: Mat4) -> Mat4 {
    Mat4 {
        r0: mat4_mul_row_spec(m.r0, n),
        r1: mat4_mul_row_spec(m.r1, n),
        r2: mat4_mul_row_spec(m.r2, n),
        r3: mat4_mul_row_spec(m.r3, n),
    }
}

fn mat4_mul_row(r: Vec4, n: &Mat4) -> (out: Vec4)
    ensures
        out == mat4_mul_row_spec(r, *n),
{
    let c0 = Vec4 { x: n.r0.x, y: n.r1.x, z: n.r2.x, w: n.r3.x };
    let c1 = Vec4 { x: n.r0.y, y: n.r1.y, z: n.r2.y, w: n.r3.y };
    let c2 = Vec4 { x: n.r0.z, y: n.r1.z, z: n.r2.z, w: n.r3.z };
    let c3 = Vec4 { x: n.r0.w, y: n.r1.w, z: n.r2.w, w: n.r3.w };
    Vec4 { x: dot4(r, c0), y: dot4(r, c1), z: dot4(r, c2), w: dot4(r, c3) }
}

pub fn mat4_mul(m: &Mat4, n: &Mat4) -> (r: Mat4)
    ensures
        r == mat4_mul_spec(*m, *n),
{
    Mat4 {
        r0: mat4_mul_row(m.r0, n),
        r1: mat4_mul_row(m.r1, n),
        r2: mat4_mul_row(m.r2, n),
        r3: mat4_mul_row(m.r3, n),
    }
}

/// Sines and cosines of the three Euler angles, as fixed-point scalars.
#[derive(Clone, Copy, Debug, PartialEq, Eq, Structural)]
pub struct RotTrig {
    pub sin_x: i64,
    pub cos_x: i64,
    pub sin_y: i64,
    pub cos_y: i64,
    pub sin_z: i64,
    pub cos_z: i64,
}

pub open spec fn rotation_x_spec(t: RotTrig) -> Mat4 {
    Mat4 {
        r0: Vec4 { x: 65536, y: 0, z: 0, w: 0 },
        r1: Vec4 { x: 0, y: t.cos_x, z: fx_neg_spec(t.sin_x as int) as i64, w: 0 },
        r2: Vec4 { x: 0, y: t.sin_x, z: t.cos_x, w: 0 },
        r3: Vec4 { x: 0, y: 0, z: 0, w: 65536 },
    }
}

pub open spec fn rotation_y_spec(t: RotTrig) -> Mat4 {
    Mat4 {
        r0: Vec4 { x: t.cos_y, y: 0, z: t.sin_y, w: 0 },
        r1: Vec4 { x: 0, y: 65536, z: 0, w: 0 },
        r2: Vec4 { x: fx_neg_spec(t.sin_y as int) as i64, y: 0, z: t.cos_y, w: 0 },
        r3: Vec4 { x: 0, y: 0, z: 0, w: 65536 },
    }
}

pub open spec fn rotation_z_spec(t: RotTrig) -> Mat4 {
    Mat4 {
        r0: Vec4 { x: t.cos_z, y: fx_neg_spec(t.sin_z as int) as i64, z: 0, w: 0 },
        r1: Vec4 { x: t.sin_z, y: t.cos_z, z: 0, w: 0 },
        r2: Vec4 { x: 0, y: 0, z: 65536, w: 0 },
        r3: Vec4 { x: 0, y: 0, z: 0, w: 65536 },
    }
}

pub open spec fn translation_spec(translation: Vec3) -> Mat4 {
    Mat4 {
        r0: Vec4 { x: 65536, y: 0, z: 0, w: translation.x },
        r1: Vec4 { x: 0, y: 65536, z: 0, w: translation.y },
        r2: Vec4 { x: 0, y: 0, z: 65536, w: translation.z },
        r3: Vec4 { x: 0, y: 0, z: 0, w: 65536 },
    }
}

pub open spec fn scale_mat_spec(scale: i64) -> Mat4 {
    Mat4 {
        r0: Vec4 { x: scale, y: 0, z: 0, w: 0 },
        r1: Vec4 { x: 0, y: scale, z: 0, w: 0 },
        r2: Vec4 { x: 0, y: 0, z: scale, w: 0 },
        r3: Vec4 { x: 0, y: 0, z: 0, w: 65536 },
    }
}

/// Model matrix: translation times the Z-then-Y-then-X rotation times the
/// uniform scale.
pub open spec fn create_model_matrix_spec(translation: Vec3, scale: i64, t: RotTrig) -> Mat4 {
    let rot = mat4_mul_spec(rotation_z_spec(t), mat4_mul_spec(rotation_y_spec(t), rotation_x_spec(t)));
    mat4_mul_spec(mat4_mul_spec(translation_spec(translation), rot), scale_mat_spec(scale))
}

pub fn create_model_matrix(translation: Vec3, scale: i64, t: RotTrig) -> (m: Mat4)
    ensures
        m == create_model_matrix_spec(translation, scale, t),
{
    let rx = Mat4 {
        r0: Vec4 { x: 65536, y: 0, z: 0, w: 0 },
        r1: Vec4 { x: 0, y: t.cos_x, z: fx_neg(t.sin_x), w: 0 },
        r2: Vec4 { x: 0, y: t.sin_x, z: t.cos_x, w: 0 },
        r3: Vec4 { x: 0, y: 0, z: 0, w: 65536 },
    };
    let ry = Mat4 {
        r0: Vec4 { x: t.cos_y, y: 0, z: t.sin_y, w: 0 },
        r1: Vec4 { x: 0, y: 65536, z: 0, w: 0 },
        r2: Vec4 { x: fx_neg(t.sin_y), y: 0, z: t.cos_y, w: 0 },
        r3: Vec4 { x: 0, y: 0, z: 0, w: 65536 },
    };
    let rz = Mat4 {
        r0: Vec4 { x: t.cos_z, y: fx_neg(t.sin_z), z: 0, w: 0 },
        r1: Vec4 { x: t.sin_z, y: t.cos_z, z: 0, w: 0 },
        r2: Vec4 { x: 0, y: 0, z: 65536, w: 0 },
        r3: Vec4 { x: 0, y: 0, z: 0, w: 65536 },
    };
    let tr = Mat4 {
        r0: Vec4 { x: 65536, y: 0, z: 0, w: translation.x },
        r1: Vec4 { x: 0, y: 65536, z: 0, w: translation.y },
        r2: Vec4 { x: 0, y: 0, z: 65536, w: translation.z },
        r3: Vec4 { x: 0, y: 0, z: 0, w: 65536 },
    };
    let sc = Mat4 {
        r0: Vec4 { x: scale, y: 0, z: 0, w: 0 },
        r1: Vec4 { x: 0, y: scale, z: 0, w: 0 },
        r2: Vec4 { x: 0, y: 0, z: scale, w: 0 },
        r3: Vec4 { x: 0, y: 0, z: 0, w: 65536 },
    };
    let rot = mat4_mul(&rz, &mat4_mul(&ry, &rx));
    mat4_mul(&mat4_mul(&tr, &rot), &sc)
}

/// Viewport matrix: maps normalized device coordinates in [-1, 1] to pixel
/// coordinates [0, width] x [0, height], flipping the y axis and passing z
/// through unscaled.
pub open spec fn create_viewport_matrix_spec(width: i64, height: i64) -> Mat4 {
    let hw = sat64(width * 32768) as i64;
    let hh = sat64(height * 32768) as i64;
    Mat4 {
        r0: Vec4 { x: hw, y: 0, z: 0, w: hw },
        r1: Vec4 { x: 0, y: fx_neg_spec(hh as int) as i64, z: 0, w: hh },
        r2: Vec4 { x: 0, y: 0, z: 65536, w: 0 },
        r3: Vec4 { x: 0, y: 0, z: 0, w: 65536 },
    }
}

pub fn create_viewport_matrix(width: i64, height: i64) -> (m: Mat4)
    ensures
        m == create_viewport_matrix_spec(width, height),
{
    let hw: i64 = fx_sat((width as i128) * 32768);
    let hh: i64 = fx_sat((height as i128) * 32768);
    Mat4 {
        r0: Vec4 { x: hw, y: 0, z: 0, w: hw },
        r1: Vec4 { x: 0, y: fx_neg(hh), z: 0, w: hh },
        r2: Vec4 { x: 0, y: 0, z: 65536, w: 0 },
        r3: Vec4 { x: 0, y: 0, z: 0, w: 65536 },
    }
}

pub open spec fn upper3_spec(m: Mat4) -> Mat3 {
    Mat3 {
        r0: Vec3 { x: m.r0.x, y: m.r0.y, z: m.r0.z },
        r1: Vec3 { x: m.r1.x, y: m.r1.y, z: m.r1.z },
        r2: Vec3 { x: m.r2.x, y: m.r2.y, z: m.r2.z },
    }
}

pub open spec fn mat3_small_spec(m: Mat3) -> bool {
    &&& -0x8000_0000 <= m.r0.x <= 0x8000_0000
    &&& -0x8000_0000 <= m.r0.y <= 0x8000_0000
    &&& -0x8000_0000 <= m.r0.z <= 0x8000_0000
    &&& -0x8000_0000 <= m.r1.x <= 0x8000_0000
    &&& -0x8000_0000 <= m.r1.y <= 0x8000_0000
    &&& -0x8000_0000 <= m.r1.z <= 0x8000_0000
    &&& -0x8000_0000 <= m.r2.x <= 0x8000_0000
    &&& -0x8000_0000 <= m.r2.y <= 0x8000_0000
    &&& -0x8000_0000 <= m.r2.z <= 0x8000_0000
}

pub open spec fn det3_spec(m: Mat3) -> int {
    let a = m.r0.x as int;
    let b = m.r0.y as int;
    let c = m.r0.z as int;
    let d = m.r1.x as int;
    let e = m.r1.y as int;
    let f = m.r1.z as int;
    let g = m.r2.x as int;
    let h = m.r2.y as int;
    let i = m.r2.z as int;
    a * (e * i - f * h) - b * (d * i - f * g) + c * (d * h - e * g)
}

/// Inverse transpose of the upper-left 3x3 block of a model matrix, which
/// equals the cofactor matrix divided by the determinant. A block with an
/// oversized entry or a zero determinant falls back to the identity.
pub open spec fn normal_matrix_spec(m4: Mat4) -> Mat3 {
    let m = upper3_spec(m4);
    if !mat3_small_spec(m) {
        mat3_identity_spec()
    } else {
        let det = det3_spec(m);
        if det == 0 {
            mat3_identity_spec()
        } else {
            let a = m.r0.x as int;
            let b = m.r0.y as int;
            let c = m.r0.z as int;
            let d = m.r1.x as int;
            let e = m.r1.y as int;
            let f = m.r1.z as int;
            let g = m.r2.x as int;
            let h = m.r2.y as int;
            let i = m.r2.z as int;
            Mat3 {
                r0: Vec3 {
                    x: sat64(div_trunc((e * i - f * h) * 0x100000000, det)) as i64,
                    y: sat64(div_trunc((f * g - d * i) * 0x100000000, det)) as i64,
                    z: sat64(div_trunc((d * h - e * g) * 0x100000000, det)) as i64,
                },
                r1: Vec3 {
                    x: sat64(div_trunc((c * h - b * i) * 0x100000000, det)) as i64,
                    y: sat64(div_trunc((a * i - c * g) * 0x100000000, det)) as i64,
                    z: sat64(div_trunc((b * g - a * h) * 0x100000000, det)) as i64,
                },
                r2: Vec3 {
                    x: sat64(div_trunc((b * f - c * e) * 0x100000000, det)) as i64,
                    y: sat64(div_trunc((c * d - a * f) * 0x100000000, det)) as i64,
                    z: sat64(div_trunc((a * e - b * d) * 0x100000000, det)) as i64,
                },
            }
        }
    }
}

/// Difference of two products of small entries.
fn minor3(p: i64, q: i64, r: i64, s: i64) -> (m: i128)
    requires
        -0x8000_0000 <= p <= 0x8000_0000,
        -0x8000_0000 <= q <= 0x8000_0000,
        -0x8000_0000 <= r <= 0x8000_0000,
        -0x8000_0000 <= s <= 0x8000_0000,
    ensures
        m == (p as int) * (q as int) - (r as int) * (s as int),
        -0x8000_0000_0000_0000_0 <= m <= 0x8000_0000_0000_0000_0,
{
    proof {
        lemma_mul_bound(p as int, q as int, 0x8000_0000, 0x8000_0000);
        lemma_mul_bound(r as int, s as int, 0x8000_0000, 0x8000_0000);
    }
    (p as i128) * (q as i128) - (r as i128) * (s as i128)
}

fn in_mag31(v: i64) -> (r: bool)
    ensures
        r == (-0x8000_0000 <= v <= 0x8000_0000),
{
    -0x8000_0000 <= v && v <= 0x8000_0000
}

fn nm_entry(cof: i128, det: i128) -> (r: i64)
    requires
        det != 0,
        -0x10_0000_0000_0000_0000_0000_0000 <= det <= 0x10_0000_0000_0000_0000_0000_0000,
        -0x8000_0000_0000_0000_0 <= cof <= 0x8000_0000_0000_0000_0,
    ensures
        r as int == sat64(div_trunc(cof as int * 0x100000000, det as int)),
{
    let p: i128 = cof * 0x100000000;
    let q: i128 = fx_tdiv_any(p, det);
    fx_sat(q)
}

pub fn normal_matrix(m4: &Mat4) -> (n: Mat3)
    ensures
        n == normal_matrix_spec(*m4),
{
    let a: i64 = m4.r0.x;
    let b: i64 = m4.r0.y;
    let c: i64 = m4.r0.z;
    let d: i64 = m4.r1.x;
    let e: i64 = m4.r1.y;
    let f: i64 = m4.r1.z;
    let g: i64 = m4.r2.x;
    let h: i64 = m4.r2.y;
    let i: i64 = m4.r2.z;
    let small = in_mag31(a) && in_mag31(b) && in_mag31(c) && in_mag31(d) && in_mag31(e)
        && in_mag31(f) && in_mag31(g) && in_mag31(h) && in_mag31(i);
    if !small {
        return mat3_identity();
    }
    let c00: i128 = minor3(e, i, f, h);
    let c01: i128 = minor3(f, g, d, i);
    let c02: i128 = minor3(d, h, e, g);
    let c10: i128 = minor3(c, h, b, i);
    let c11: i128 = minor3(a, i, c, g);
    let c12: i128 = minor3(b, g, a, h);
    let c20: i128 = minor3(b, f, c, e);
    let c21: i128 = minor3(c, d, a, f);
    let c22: i128 = minor3(a, e, b, d);
    proof {
        lemma_mul_bound(a as int, c00 as int, 0x8000_0000, 0x8000_0000_0000_0000_0);
        lemma_mul_bound(b as int, c01 as int, 0x8000_0000, 0x8000_0000_0000_0000_0);
        lemma_mul_bound(c as int, c02 as int, 0x8000_0000, 0x8000_0000_0000_0000_0);
    }
    let det: i128 = (a as i128) * c00 + (b as i128) * c01 + (c as i128) * c02;
    proof {
        assert((b as int) * ((f as int) * (g as int) - (d as int) * (i as int)) == -((b as int) * ((
        d as int) * (i as int) - (f as int) * (g as int)))) by (nonlinear_arith);
        assert(det as int == det3_spec(upper3_spec(*m4)));
    }
    if det == 0 {
        return mat3_identity();
    }
    Mat3 {
        r0: Vec3 { x: nm_entry(c00, det), y: nm_entry(c01, det), z: nm_entry(c02, det) },
        r1: Vec3 { x: nm_entry(c10, det), y: nm_entry(c11, det), z: nm_entry(c12, det) },
        r2: Vec3 { x: nm_entry(c20, det), y: nm_entry(c21, det), z: nm_entry(c22, det) },
    }
}

} // verus!
