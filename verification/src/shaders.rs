//! The transform stage: one vertex is carried through the
//! model/view/projection pipeline, the perspective division, and the
//! viewport mapping, and its normal through the normal matrix.

use vstd::prelude::*;
use crate::color::Color;
use crate::fixed::{
    fx_div, fx_div_spec, lemma_fx_div_one, lemma_fx_mul_one, lemma_fx_mul_zero,
};
use crate::geom::{Vec2, Vec3, Vec4};
use crate::matrix::{
    mat3_identity_spec, mat3_mul_vec3, mat3_mul_vec3_spec, mat4_identity_spec, mat4_mul_vec4,
    mat4_mul_vec4_spec, normal_matrix, normal_matrix_spec, Uniforms,
};

verus! {

/// A mesh vertex: the object-space attributes are fixed at load time; the
/// transformed fields are recomputed every frame by the transform stage.
#[derive(Clone, Copy, Debug, PartialEq, Eq, Structural)]
pub struct Vertex {
    pub position: Vec3,
    pub normal: Vec3,
    pub tex_coords: Vec2,
    pub color: Color,
    pub transformed_position: Vec3,
    pub transformed_normal: Vec3,
}

impl Vertex {
    pub fn new(position: Vec3, normal: Vec3, tex_coords: Vec2, color: Color) -> (v: Vertex)
        ensures
            v == (Vertex {
                position,
                normal,
                tex_coords,
                color,
                transformed_position: Vec3 { x: 0, y: 0, z: 0 },
                transformed_normal: Vec3 { x: 0, y: 0, z: 0 },
            }),
    {
        Vertex {
            position,
            normal,
            tex_coords,
            color,
            transformed_position: Vec3 { x: 0, y: 0, z: 0 },
            transformed_normal: Vec3 { x: 0, y: 0, z: 0 },
        }
    }
}

/// The full per-vertex pipeline. The homogeneous position is taken through
/// model, view and projection, divided by its own w (a zero w, which the
/// pipeline cannot produce for geometry in front of the near plane, is a
/// degenerate case and leaves the coordinates undivided), then mapped by the
/// viewport matrix; the normal goes through the inverse-transpose normal
/// matrix. Object-space attributes pass through unchanged.
pub open spec fn vertex_shader_spec(v: Vertex, u: Uniforms) -> Vertex {
    let p4 = Vec4 { x: v.position.x, y: v.position.y, z: v.position.z, w: 65536 };
    let clip = mat4_mul_vec4_spec(
        u.projection_matrix,
        mat4_mul_vec4_spec(u.view_matrix, mat4_mul_vec4_spec(u.model_matrix, p4)),
    );
    let wdiv = if clip.w != 0 {
        clip.w
    } else {
        65536i64
    };
    let ndc = Vec4 {
        x: fx_div_spec(clip.x as int, wdiv as int) as i64,
        y: fx_div_spec(clip.y as int, wdiv as int) as i64,
        z: fx_div_spec(clip.z as int, wdiv as int) as i64,
        w: 65536,
    };
    let screen = mat4_mul_vec4_spec(u.viewport_matrix, ndc);
    let tn = mat3_mul_vec3_spec(normal_matrix_spec(u.model_matrix), v.normal);
    Vertex {
        position: v.position,
        normal: v.normal,
        tex_coords: v.tex_coords,
        color: v.color,
        transformed_position: Vec3 { x: screen.x, y: screen.y, z: screen.z },
        transformed_normal: tn,
    }
}

pub fn vertex_shader(vertex: &Vertex, uniforms: &Uniforms) -> (out: Vertex)
    ensures
        out == vertex_shader_spec(*vertex, *uniforms),
{
    let p4 = Vec4 {
        x: vertex.position.x,
        y: vertex.position.y,
        z: vertex.position.z,
        w: 65536,
    };
    let clip = mat4_mul_vec4(
        &uniforms.projection_matrix,
        mat4_mul_vec4(&uniforms.view_matrix, mat4_mul_vec4(&uniforms.model_matrix, p4)),
    );
    let wdiv: i64 = if clip.w != 0 {
        clip.w
    } else {
        65536
    };
    let ndc = Vec4 {
        x: fx_div(clip.x, wdiv),
        y: fx_div(clip.y, wdiv),
        z: fx_div(clip.z, wdiv),
        w: 65536,
    };
    let screen = mat4_mul_vec4(&uniforms.viewport_matrix, ndc);
    let tn = mat3_mul_vec3(&normal_matrix(&uniforms.model_matrix), vertex.normal);
    Vertex {
        position: vertex.position,
        normal: vertex.normal,
        tex_coords: vertex.tex_coords,
        color: vertex.color,
        transformed_position: Vec3 { x: screen.x, y: screen.y, z: screen.z },
        transformed_normal: tn,
    }
}

/// The uniforms whose four matrices are all the identity.
pub open spec fn identity_uniforms_spec() -> Uniforms {
    Uniforms {
        model_matrix: mat4_identity_spec(),
        view_matrix: mat4_identity_spec(),
        projection_matrix: mat4_identity_spec(),
        viewport_matrix: mat4_identity_spec(),
    }
}

/// Applying the identity matrix leaves a homogeneous vector unchanged.
pub proof fn lemma_mat4_identity_apply(p: Vec4)
    ensures
        mat4_mul_vec4_spec(mat4_identity_spec(), p) == p,
{
    lemma_fx_mul_one(p.x as int);
    lemma_fx_mul_one(p.y as int);
    lemma_fx_mul_one(p.z as int);
    lemma_fx_mul_one(p.w as int);
    lemma_fx_mul_zero(p.x as int);
    lemma_fx_mul_zero(p.y as int);
    lemma_fx_mul_zero(p.z as int);
    lemma_fx_mul_zero(p.w as int);
}

/// Applying the identity matrix leaves a 3-vector unchanged.
pub proof fn lemma_mat3_identity_apply(p: Vec3)
    ensures
        mat3_mul_vec3_spec(mat3_identity_spec(), p) == p,
{
    lemma_fx_mul_one(p.x as int);
    lemma_fx_mul_one(p.y as int);
    lemma_fx_mul_one(p.z as int);
    lemma_fx_mul_zero(p.x as int);
    lemma_fx_mul_zero(p.y as int);
    lemma_fx_mul_zero(p.z as int);
}

/// The normal matrix of the identity model matrix is the identity.
pub proof fn lemma_normal_matrix_identity()
    ensures
        normal_matrix_spec(mat4_identity_spec()) == mat3_identity_spec(),
{
    let m = crate::matrix::upper3_spec(mat4_identity_spec());
    assert(crate::matrix::det3_spec(m) == 65536 * (65536 * 65536));
    vstd::arithmetic::div_mod::lemma_div_by_multiple(65536, 0x1000000000000);
    assert((65536 * 65536) * 0x100000000 == 65536 * 0x1000000000000);
    vstd::arithmetic::div_mod::lemma_div_of0(0x1000000000000);
}

/// Transforming under identity model, view, projection and viewport matrices
/// maps every vertex to itself: the screen position equals the object
/// position, the normal is unchanged, and every object-space attribute
/// passes through.
pub proof fn lemma_identity_transform(v: Vertex)
    ensures
        vertex_shader_spec(v, identity_uniforms_spec()).transformed_position == v.position,
        vertex_shader_spec(v, identity_uniforms_spec()).transformed_normal == v.normal,
        vertex_shader_spec(v, identity_uniforms_spec()).position == v.position,
        vertex_shader_spec(v, identity_uniforms_spec()).normal == v.normal,
        vertex_shader_spec(v, identity_uniforms_spec()).tex_coords == v.tex_coords,
        vertex_shader_spec(v, identity_uniforms_spec()).color == v.color,
{
    let p4 = Vec4 { x: v.position.x, y: v.position.y, z: v.position.z, w: 65536 };
    lemma_mat4_identity_apply(p4);
    lemma_fx_div_one(p4.x as int);
    lemma_fx_div_one(p4.y as int);
    lemma_fx_div_one(p4.z as int);
    lemma_normal_matrix_identity();
    lemma_mat3_identity_apply(v.normal);
}

} // verus!
