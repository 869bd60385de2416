//! Fixed-point vectors and their dot products.

use vstd::prelude::*;
use crate::fixed::{fx_mul, fx_mul_spec, fx_sat, sat64};

verus! {

#[derive(Clone, Copy, Debug, PartialEq, Eq, Structural)]
pub struct Vec2 {
    pub x: i64,
    pub y: i64,
}

#[derive(Clone, Copy, Debug, PartialEq, Eq, Structural)]
pub struct Vec3 {
    pub x: i64,
    pub y: i64,
    pub z: i64,
}

#[derive(Clone, Copy, Debug, PartialEq, Eq, Structural)]
pub struct Vec4 {
    pub x: i64,
    pub y: i64,
    pub z: i64,
    pub w: i64,
}

pub open spec fn dot3_spec(a: Vec3, b: Vec3) -> int {
    sat64(
        fx_mul_spec(a.x as int, b.x as int) + fx_mul_spec(a.y as int, b.y as int)
            + fx_mul_spec(a.z as int, b.z as int),
    )
}

pub open spec fn dot4_spec(a: Vec4, b: Vec4) -> int {
    sat64(
        fx_mul_spec(a.x as int, b.x as int) + fx_mul_spec(a.y as int, b.y as int)
            + fx_mul_spec(a.z as int, b.z as int) + fx_mul_spec(a.w as int, b.w as int),
    )
}

pub fn dot3(a: Vec3, b: Vec3) -> (r: i64)
    ensures
        r as int == dot3_spec(a, b),
{
    let tx: i64 = fx_mul(a.x, b.x);
    let ty: i64 = fx_mul(a.y, b.y);
    let tz: i64 = fx_mul(a.z, b.z);
    fx_sat(tx as i128 + ty as i128 + tz as i128)
}

pub fn dot4(a: Vec4, b: Vec4) -> (r: i64)
    ensures
        r as int == dot4_spec(a, b),
{
    let tx: i64 = fx_mul(a.x, b.x);
    let ty: i64 = fx_mul(a.y, b.y);
    let tz: i64 = fx_mul(a.z, b.z);
    let tw: i64 = fx_mul(a.w, b.w);
    fx_sat(tx as i128 + ty as i128 + tz as i128 + tw as i128)
}

} // verus!
