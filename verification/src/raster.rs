//! Backface culling and triangle rasterization: a screen-space triangle is
//! turned into the exact row-major sequence of fragments whose sample
//! points pass all three edge-function tests, with barycentrically
//! interpolated depth and color.

use vstd::prelude::*;
use crate::color::Color;
use crate::fixed::{
    div_trunc, fx_max, fx_min, fx_sat, fx_tdiv, lemma_mul_bound, sat64,
};
use crate::shaders::Vertex;
use vstd::arithmetic::div_mod::{lemma_div_is_ordered, lemma_div_by_multiple, lemma_div_pos_is_pos};

verus! {

/// A candidate pixel: screen coordinate, interpolated depth, interpolated
/// color. Produced by the rasterizer, consumed by the depth-tested write.
#[derive(Clone, Copy, Debug, PartialEq, Eq, Structural)]
pub struct Fragment {
    pub x: usize,
    pub y: usize,
    pub depth: i64,
    pub color: Color,
}

/// Largest raw screen coordinate the rasterizer accepts (2^24 pixels).
pub const RASTER_MAX: i64 = 0x100_0000_0000;

pub open spec fn coord_ok(v: i64) -> bool {
    -0x100_0000_0000 <= v <= 0x100_0000_0000
}

pub open spec fn sx(v: Vertex) -> int {
    v.transformed_position.x as int
}

pub open spec fn sy(v: Vertex) -> int {
    v.transformed_position.y as int
}

pub open spec fn sz(v: Vertex) -> int {
    v.transformed_position.z as int
}

/// All nine screen-space coordinates of the triangle are within range.
pub open spec fn tri_ok(v0: Vertex, v1: Vertex, v2: Vertex) -> bool {
    &&& coord_ok(v0.transformed_position.x)
    &&& coord_ok(v0.transformed_position.y)
    &&& coord_ok(v0.transformed_position.z)
    &&& coord_ok(v1.transformed_position.x)
    &&& coord_ok(v1.transformed_position.y)
    &&& coord_ok(v1.transformed_position.z)
    &&& coord_ok(v2.transformed_position.x)
    &&& coord_ok(v2.transformed_position.y)
    &&& coord_ok(v2.transformed_position.z)
}

/// Edge function: twice the signed area of the triangle a, b, p.
pub open spec fn edge_spec(ax: int, ay: int, bx: int, by: int, px: int, py: int) -> int {
    (bx - ax) * (py - ay) - (by - ay) * (px - ax)
}

/// The z component of the cross product of the triangle's two edge vectors
/// out of its first vertex, in screen space.
pub open spec fn cross_z_spec(v0: Vertex, v1: Vertex, v2: Vertex) -> int {
    edge_spec(sx(v0), sy(v0), sx(v1), sy(v1), sx(v2), sy(v2))
}

/// Barycentric edge weights of the integer sample point (x, y).
pub open spec fn w0_spec(v0: Vertex, v1: Vertex, v2: Vertex, x: int, y: int) -> int {
    edge_spec(sx(v1), sy(v1), sx(v2), sy(v2), x * 65536, y * 65536)
}

pub open spec fn w1_spec(v0: Vertex, v1: Vertex, v2: Vertex, x: int, y: int) -> int {
    edge_spec(sx(v2), sy(v2), sx(v0), sy(v0), x * 65536, y * 65536)
}

pub open spec fn w2_spec(v0: Vertex, v1: Vertex, v2: Vertex, x: int, y: int) -> int {
    edge_spec(sx(v0), sy(v0), sx(v1), sy(v1), x * 65536, y * 65536)
}

/// A sample point is covered iff no edge test is negative: the interior and
/// the boundary are both included, a fixed inclusive tie-break.
pub open spec fn inside_spec(v0: Vertex, v1: Vertex, v2: Vertex, x: int, y: int) -> bool {
    &&& w0_spec(v0, v1, v2, x, y) >= 0
    &&& w1_spec(v0, v1, v2, x, y) >= 0
    &&& w2_spec(v0, v1, v2, x, y) >= 0
}

/// One interpolated color channel, clamped into the channel range.
pub open spec fn interp_channel_spec(
    w0: int,
    w1: int,
    w2: int,
    c0: int,
    c1: int,
    c2: int,
    wsum: int,
) -> int {
    let q = div_trunc(w0 * c0 + w1 * c1 + w2 * c2, wsum);
    if q > 255 {
        255
    } else if q < 0 {
        0
    } else {
        q
    }
}

/// The fragment emitted at a covered sample point: barycentric depth and
/// per-channel barycentric color.
pub open spec fn frag_at_spec(v0: Vertex, v1: Vertex, v2: Vertex, x: int, y: int) -> Fragment {
    let w0 = w0_spec(v0, v1, v2, x, y);
    let w1 = w1_spec(v0, v1, v2, x, y);
    let w2 = w2_spec(v0, v1, v2, x, y);
    let wsum = w0 + w1 + w2;
    Fragment {
        x: x as usize,
        y: y as usize,
        depth: sat64(div_trunc(w0 * sz(v0) + w1 * sz(v1) + w2 * sz(v2), wsum)) as i64,
        color: Color {
            r: interp_channel_spec(
                w0,
                w1,
                w2,
                v0.color.r as int,
                v1.color.r as int,
                v2.color.r as int,
                wsum,
            ) as u8,
            g: interp_channel_spec(
                w0,
                w1,
                w2,
                v0.color.g as int,
                v1.color.g as int,
                v2.color.g as int,
                wsum,
            ) as u8,
            b: interp_channel_spec(
                w0,
                w1,
                w2,
                v0.color.b as int,
                v1.color.b as int,
                v2.color.b as int,
                wsum,
            ) as u8,
        },
    }
}

pub open spec fn min3_spec(a: int, b: int, c: int) -> int {
    let m = if b <= c {
        b
    } else {
        c
    };
    if a <= m {
        a
    } else {
        m
    }
}

pub open spec fn max3_spec(a: int, b: int, c: int) -> int {
    let m = if b >= c {
        b
    } else {
        c
    };
    if a >= m {
        a
    } else {
        m
    }
}

/// First pixel column (or row) of the bounding box, clamped at zero.
pub open spec fn bbox_lo_spec(a: int, b: int, c: int) -> int {
    let m = min3_spec(a, b, c);
    if m <= 0 {
        0
    } else {
        m / 65536
    }
}

/// Last pixel column (or row) of the bounding box, inclusive; -1 when the
/// triangle lies entirely at negative coordinates.
pub open spec fn bbox_hi_spec(a: int, b: int, c: int) -> int {
    let m = max3_spec(a, b, c);
    if m < 0 {
        -1
    } else {
        m / 65536 + 1
    }
}

pub open spec fn xmin_spec(v0: Vertex, v1: Vertex, v2: Vertex) -> int {
    bbox_lo_spec(sx(v0), sx(v1), sx(v2))
}

pub open spec fn xmax_spec(v0: Vertex, v1: Vertex, v2: Vertex) -> int {
    bbox_hi_spec(sx(v0), sx(v1), sx(v2))
}

pub open spec fn ymin_spec(v0: Vertex, v1: Vertex, v2: Vertex) -> int {
    bbox_lo_spec(sy(v0), sy(v1), sy(v2))
}

pub open spec fn ymax_spec(v0: Vertex, v1: Vertex, v2: Vertex) -> int {
    bbox_hi_spec(sy(v0), sy(v1), sy(v2))
}

/// The fragments of row `y` at columns before `x`, in left-to-right order.
pub open spec fn row_frags_spec(v0: Vertex, v1: Vertex, v2: Vertex, y: int, x: int) -> Seq<
    Fragment,
>
    decreases x,
{
    if x <= 0 || x <= xmin_spec(v0, v1, v2) {
        Seq::empty()
    } else {
        row_frags_spec(v0, v1, v2, y, x - 1) + (if inside_spec(v0, v1, v2, x - 1, y) {
            seq![frag_at_spec(v0, v1, v2, x - 1, y)]
        } else {
            Seq::empty()
        })
    }
}

/// The fragments of all rows before `y`, each row complete, top to bottom.
pub open spec fn rows_frags_spec(v0: Vertex, v1: Vertex, v2: Vertex, y: int) -> Seq<Fragment>
    decreases y,
{
    if y <= 0 || y <= ymin_spec(v0, v1, v2) {
        Seq::empty()
    } else {
        rows_frags_spec(v0, v1, v2, y - 1) + row_frags_spec(
            v0,
            v1,
            v2,
            y - 1,
            xmax_spec(v0, v1, v2) + 1,
        )
    }
}

/// Every fragment of the triangle, in row-major order.
pub open spec fn frags_spec(v0: Vertex, v1: Vertex, v2: Vertex) -> Seq<Fragment> {
    rows_frags_spec(v0, v1, v2, ymax_spec(v0, v1, v2) + 1)
}

/// The three edge weights of any sample point sum to twice the triangle's
/// signed area.
#[verifier::rlimit(60)]
pub proof fn lemma_edge_sum(
    x0: int,
    y0: int,
    x1: int,
    y1: int,
    x2: int,
    y2: int,
    px: int,
    py: int,
)
    ensures
        edge_spec(x1, y1, x2, y2, px, py) + edge_spec(x2, y2, x0, y0, px, py) + edge_spec(
            x0,
            y0,
            x1,
            y1,
            px,
            py,
        ) == edge_spec(x0, y0, x1, y1, x2, y2),
{
    let a = x1 - x0;
    let b = y1 - y0;
    let c = x2 - x0;
    let d = y2 - y0;
    let u = px - x0;
    let v = py - y0;
    assert((c - a) * (v - b) - (d - b) * (u - a) == c * v - b * c - a * v + a * b - d * u + a * d
        + b * u - a * b) by (nonlinear_arith);
    assert((0 - c) * (v - d) - (0 - d) * (u - c) == d * u - c * v) by (nonlinear_arith);
    assert(edge_spec(x1, y1, x2, y2, px, py) == (c - a) * (v - b) - (d - b) * (u - a));
    assert(edge_spec(x2, y2, x0, y0, px, py) == (0 - c) * (v - d) - (0 - d) * (u - c));
    assert(edge_spec(x0, y0, x1, y1, px, py) == a * v - b * u);
    assert(edge_spec(x0, y0, x1, y1, x2, y2) == a * d - b * c);
}

/// Swapping two vertices negates the cross product's z component: a
/// front-facing winding becomes back-facing and vice versa.
pub proof fn lemma_cull_reversal(v0: Vertex, v1: Vertex, v2: Vertex)
    ensures
        cross_z_spec(v0, v2, v1) == -cross_z_spec(v0, v1, v2),
{
    let x0 = sx(v0);
    let y0 = sy(v0);
    let x1 = sx(v1);
    let y1 = sy(v1);
    let x2 = sx(v2);
    let y2 = sy(v2);
    assert((x2 - x0) * (y1 - y0) - (y2 - y0) * (x1 - x0) == -((x1 - x0) * (y2 - y0) - (y1 - y0) * (
    x2 - x0))) by (nonlinear_arith);
}


/// The lower bounding-box corner is never negative.
pub proof fn lemma_bbox_lo_nonneg(a: int, b: int, c: int)
    ensures
        bbox_lo_spec(a, b, c) >= 0,
{
    let m = min3_spec(a, b, c);
    if m > 0 {
        lemma_div_pos_is_pos(m, 65536);
    }
}

proof fn lemma_row_contains(v0: Vertex, v1: Vertex, v2: Vertex, y: int, x: int, xq: int)
    requires
        xmin_spec(v0, v1, v2) <= xq < x,
        0 <= xq,
        inside_spec(v0, v1, v2, xq, y),
    ensures
        row_frags_spec(v0, v1, v2, y, x).contains(frag_at_spec(v0, v1, v2, xq, y)),
    decreases x,
{
    let a = row_frags_spec(v0, v1, v2, y, x - 1);
    let f = frag_at_spec(v0, v1, v2, xq, y);
    if xq == x - 1 {
        let b = seq![f];
        assert(row_frags_spec(v0, v1, v2, y, x) == a + b);
        assert((a + b)[a.len() as int] == f);
        assert(row_frags_spec(v0, v1, v2, y, x).contains(f));
    } else {
        lemma_row_contains(v0, v1, v2, y, x - 1, xq);
        let i = choose|i: int| 0 <= i < a.len() && a[i] == f;
        assert(row_frags_spec(v0, v1, v2, y, x)[i] == f);
        assert(row_frags_spec(v0, v1, v2, y, x).contains(f));
    }
}

proof fn lemma_rows_contains(v0: Vertex, v1: Vertex, v2: Vertex, yend: int, yq: int, f: Fragment)
    requires
        ymin_spec(v0, v1, v2) <= yq < yend,
        0 <= yq,
        row_frags_spec(v0, v1, v2, yq, xmax_spec(v0, v1, v2) + 1).contains(f),
    ensures
        rows_frags_spec(v0, v1, v2, yend).contains(f),
    decreases yend,
{
    let a = rows_frags_spec(v0, v1, v2, yend - 1);
    let b = row_frags_spec(v0, v1, v2, yend - 1, xmax_spec(v0, v1, v2) + 1);
    if yq == yend - 1 {
        let i = choose|i: int| 0 <= i < b.len() && b[i] == f;
        assert(rows_frags_spec(v0, v1, v2, yend) == a + b);
        assert((a + b)[a.len() + i] == f);
        assert(rows_frags_spec(v0, v1, v2, yend).contains(f));
    } else {
        lemma_rows_contains(v0, v1, v2, yend - 1, yq, f);
        let i = choose|i: int| 0 <= i < a.len() && a[i] == f;
        assert(rows_frags_spec(v0, v1, v2, yend)[i] == f);
        assert(rows_frags_spec(v0, v1, v2, yend).contains(f));
    }
}

/// Completeness of the rasterizer's output: every sample point of the
/// bounding box that satisfies all three half-plane inequalities gets its
/// fragment.
pub proof fn lemma_raster_complete(v0: Vertex, v1: Vertex, v2: Vertex, x: int, y: int)
    requires
        xmin_spec(v0, v1, v2) <= x <= xmax_spec(v0, v1, v2),
        ymin_spec(v0, v1, v2) <= y <= ymax_spec(v0, v1, v2),
        inside_spec(v0, v1, v2, x, y),
    ensures
        frags_spec(v0, v1, v2).contains(frag_at_spec(v0, v1, v2, x, y)),
{
    lemma_bbox_lo_nonneg(sx(v0), sx(v1), sx(v2));
    lemma_bbox_lo_nonneg(sy(v0), sy(v1), sy(v2));
    lemma_row_contains(v0, v1, v2, y, xmax_spec(v0, v1, v2) + 1, x);
    lemma_rows_contains(v0, v1, v2, ymax_spec(v0, v1, v2) + 1, y, frag_at_spec(v0, v1, v2, x, y));
}

proof fn lemma_row_sound(v0: Vertex, v1: Vertex, v2: Vertex, y: int, x: int, f: Fragment)
    requires
        row_frags_spec(v0, v1, v2, y, x).contains(f),
    ensures
        exists|xq: int|
            xmin_spec(v0, v1, v2) <= xq < x && #[trigger] inside_spec(v0, v1, v2, xq, y) && f
                == frag_at_spec(v0, v1, v2, xq, y),
    decreases x,
{
    if x <= 0 || x <= xmin_spec(v0, v1, v2) {
        assert(false);
    } else {
        let a = row_frags_spec(v0, v1, v2, y, x - 1);
        let i = choose|i: int|
            0 <= i < row_frags_spec(v0, v1, v2, y, x).len() && row_frags_spec(
                v0,
                v1,
                v2,
                y,
                x,
            )[i] == f;
        if i < a.len() {
            assert(a[i] == f);
            assert(a.contains(f));
            lemma_row_sound(v0, v1, v2, y, x - 1, f);
            let xq = choose|xq: int|
                xmin_spec(v0, v1, v2) <= xq < x - 1 && #[trigger] inside_spec(
                    v0,
                    v1,
                    v2,
                    xq,
                    y,
                ) && f == frag_at_spec(v0, v1, v2, xq, y);
            assert(xmin_spec(v0, v1, v2) <= xq < x && inside_spec(v0, v1, v2, xq, y) && f
                == frag_at_spec(v0, v1, v2, xq, y));
        } else {
            assert(inside_spec(v0, v1, v2, x - 1, y));
            assert(f == frag_at_spec(v0, v1, v2, x - 1, y));
        }
    }
}

proof fn lemma_rows_sound(v0: Vertex, v1: Vertex, v2: Vertex, yend: int, f: Fragment)
    requires
        rows_frags_spec(v0, v1, v2, yend).contains(f),
    ensures
        exists|p: (int, int)|
            xmin_spec(v0, v1, v2) <= p.0 <= xmax_spec(v0, v1, v2) && ymin_spec(v0, v1, v2) <= p.1
                < yend && #[trigger] inside_spec(v0, v1, v2, p.0, p.1) && f == frag_at_spec(
                v0,
                v1,
                v2,
                p.0,
                p.1,
            ),
    decreases yend,
{
    if yend <= 0 || yend <= ymin_spec(v0, v1, v2) {
        assert(false);
    } else {
        let a = rows_frags_spec(v0, v1, v2, yend - 1);
        let b = row_frags_spec(v0, v1, v2, yend - 1, xmax_spec(v0, v1, v2) + 1);
        let i = choose|i: int|
            0 <= i < rows_frags_spec(v0, v1, v2, yend).len() && rows_frags_spec(
                v0,
                v1,
                v2,
                yend,
            )[i] == f;
        if i < a.len() {
            assert(a[i] == f);
            assert(a.contains(f));
            lemma_rows_sound(v0, v1, v2, yend - 1, f);
            let p = choose|p: (int, int)|
                xmin_spec(v0, v1, v2) <= p.0 <= xmax_spec(v0, v1, v2) && ymin_spec(v0, v1, v2)
                    <= p.1 < yend - 1 && #[trigger] inside_spec(v0, v1, v2, p.0, p.1) && f
                    == frag_at_spec(v0, v1, v2, p.0, p.1);
            assert(xmin_spec(v0, v1, v2) <= p.0 <= xmax_spec(v0, v1, v2) && ymin_spec(v0, v1, v2)
                <= p.1 < yend && inside_spec(v0, v1, v2, p.0, p.1) && f == frag_at_spec(
                v0,
                v1,
                v2,
                p.0,
                p.1,
            ));
        } else {
            assert(b[i - a.len()] == f);
            assert(b.contains(f));
            lemma_row_sound(v0, v1, v2, yend - 1, xmax_spec(v0, v1, v2) + 1, f);
            let xq = choose|xq: int|
                xmin_spec(v0, v1, v2) <= xq < xmax_spec(v0, v1, v2) + 1 && #[trigger] inside_spec(
                    v0,
                    v1,
                    v2,
                    xq,
                    yend - 1,
                ) && f == frag_at_spec(v0, v1, v2, xq, yend - 1);
            let q = (xq, yend - 1);
            assert(xmin_spec(v0, v1, v2) <= q.0 <= xmax_spec(v0, v1, v2) && ymin_spec(v0, v1, v2)
                <= q.1 < yend && inside_spec(v0, v1, v2, q.0, q.1) && f == frag_at_spec(
                v0,
                v1,
                v2,
                q.0,
                q.1,
            ));
        }
    }
}

/// Soundness of the rasterizer's output: every emitted fragment is the
/// fragment of some bounding-box sample point that satisfies all three
/// half-plane inequalities.
pub proof fn lemma_raster_sound(v0: Vertex, v1: Vertex, v2: Vertex, f: Fragment)
    requires
        frags_spec(v0, v1, v2).contains(f),
    ensures
        exists|p: (int, int)|
            xmin_spec(v0, v1, v2) <= p.0 <= xmax_spec(v0, v1, v2) && ymin_spec(v0, v1, v2) <= p.1
                <= ymax_spec(v0, v1, v2) && #[trigger] inside_spec(v0, v1, v2, p.0, p.1) && f
                == frag_at_spec(v0, v1, v2, p.0, p.1),
{
    lemma_rows_sound(v0, v1, v2, ymax_spec(v0, v1, v2) + 1, f);
}

fn edge_fn(ax: i64, ay: i64, bx: i64, by: i64, px: i64, py: i64) -> (e: i128)
    requires
        -0x200_0000_0000 <= ax <= 0x200_0000_0000,
        -0x200_0000_0000 <= ay <= 0x200_0000_0000,
        -0x200_0000_0000 <= bx <= 0x200_0000_0000,
        -0x200_0000_0000 <= by <= 0x200_0000_0000,
        -0x200_0000_0000 <= px <= 0x200_0000_0000,
        -0x200_0000_0000 <= py <= 0x200_0000_0000,
    ensures
        e as int == edge_spec(ax as int, ay as int, bx as int, by as int, px as int, py as int),
        -0x20_0000_0000_0000_0000_0000 <= e <= 0x20_0000_0000_0000_0000_0000,
{
    proof {
        lemma_mul_bound(
            bx as int - ax as int,
            py as int - ay as int,
            0x400_0000_0000,
            0x400_0000_0000,
        );
        lemma_mul_bound(
            by as int - ay as int,
            px as int - ax as int,
            0x400_0000_0000,
            0x400_0000_0000,
        );
    }
    let dx: i128 = bx as i128 - ax as i128;
    let dy: i128 = by as i128 - ay as i128;
    dx * (py as i128 - ay as i128) - dy * (px as i128 - ax as i128)
}

/// The backface-culling test: a triangle is rendered only if the z
/// component of its screen-space edge cross product is strictly positive.
pub fn front_facing(v0: &Vertex, v1: &Vertex, v2: &Vertex) -> (r: bool)
    requires
        tri_ok(*v0, *v1, *v2),
    ensures
        r == (cross_z_spec(*v0, *v1, *v2) > 0),
{
    let e = edge_fn(
        v0.transformed_position.x,
        v0.transformed_position.y,
        v1.transformed_position.x,
        v1.transformed_position.y,
        v2.transformed_position.x,
        v2.transformed_position.y,
    );
    e > 0
}

fn interp_depth(w0: i128, w1: i128, w2: i128, z0: i64, z1: i64, z2: i64, wsum: i128) -> (d: i64)
    requires
        wsum > 0,
        -0x20_0000_0000_0000_0000_0000 <= w0 <= 0x20_0000_0000_0000_0000_0000,
        -0x20_0000_0000_0000_0000_0000 <= w1 <= 0x20_0000_0000_0000_0000_0000,
        -0x20_0000_0000_0000_0000_0000 <= w2 <= 0x20_0000_0000_0000_0000_0000,
        coord_ok(z0),
        coord_ok(z1),
        coord_ok(z2),
    ensures
        d as int == sat64(
            div_trunc(w0 as int * z0 as int + w1 as int * z1 as int + w2 as int * z2 as int, wsum as int),
        ),
{
    proof {
        lemma_mul_bound(w0 as int, z0 as int, 0x20_0000_0000_0000_0000_0000, 0x100_0000_0000);
        lemma_mul_bound(w1 as int, z1 as int, 0x20_0000_0000_0000_0000_0000, 0x100_0000_0000);
        lemma_mul_bound(w2 as int, z2 as int, 0x20_0000_0000_0000_0000_0000, 0x100_0000_0000);
    }
    let num: i128 = w0 * (z0 as i128) + w1 * (z1 as i128) + w2 * (z2 as i128);
    let q: i128 = fx_tdiv(num, wsum);
    fx_sat(q)
}

fn interp_channel(w0: i128, w1: i128, w2: i128, c0: u8, c1: u8, c2: u8, wsum: i128) -> (r: u8)
    requires
        wsum > 0,
        -0x20_0000_0000_0000_0000_0000 <= w0 <= 0x20_0000_0000_0000_0000_0000,
        -0x20_0000_0000_0000_0000_0000 <= w1 <= 0x20_0000_0000_0000_0000_0000,
        -0x20_0000_0000_0000_0000_0000 <= w2 <= 0x20_0000_0000_0000_0000_0000,
    ensures
        r as int == interp_channel_spec(
            w0 as int,
            w1 as int,
            w2 as int,
            c0 as int,
            c1 as int,
            c2 as int,
            wsum as int,
        ),
{
    proof {
        lemma_mul_bound(w0 as int, c0 as int, 0x20_0000_0000_0000_0000_0000, 255);
        lemma_mul_bound(w1 as int, c1 as int, 0x20_0000_0000_0000_0000_0000, 255);
        lemma_mul_bound(w2 as int, c2 as int, 0x20_0000_0000_0000_0000_0000, 255);
    }
    let num: i128 = w0 * (c0 as i128) + w1 * (c1 as i128) + w2 * (c2 as i128);
    let q: i128 = fx_tdiv(num, wsum);
    if q > 255 {
        255
    } else if q < 0 {
        0
    } else {
        q as u8
    }
}

/// Rasterize a front-facing triangle: the result is exactly the row-major
/// fragment sequence of its bounding box's covered sample points.
pub fn triangle(v0: &Vertex, v1: &Vertex, v2: &Vertex) -> (frags: Vec<Fragment>)
    requires
        tri_ok(*v0, *v1, *v2),
        cross_z_spec(*v0, *v1, *v2) > 0,
    ensures
        frags@ == frags_spec(*v0, *v1, *v2),
{
    let x0: i64 = v0.transformed_position.x;
    let y0: i64 = v0.transformed_position.y;
    let z0: i64 = v0.transformed_position.z;
    let x1: i64 = v1.transformed_position.x;
    let y1: i64 = v1.transformed_position.y;
    let z1: i64 = v1.transformed_position.z;
    let x2: i64 = v2.transformed_position.x;
    let y2: i64 = v2.transformed_position.y;
    let z2: i64 = v2.transformed_position.z;

    let minx: i64 = fx_min(x0, fx_min(x1, x2));
    let maxx: i64 = fx_max(x0, fx_max(x1, x2));
    let miny: i64 = fx_min(y0, fx_min(y1, y2));
    let maxy: i64 = fx_max(y0, fx_max(y1, y2));

    proof {
        lemma_div_by_multiple(0x100_0000, 65536);
    }
    let xlo: i64 = if minx <= 0 {
        0
    } else {
        proof {
            lemma_div_is_ordered(minx as int, 0x100_0000_0000, 65536);
            lemma_div_pos_is_pos(minx as int, 65536);
        }
        ((minx as u64) / 65536) as i64
    };
    let xhi: i64 = if maxx < 0 {
        -1
    } else {
        proof {
            lemma_div_is_ordered(maxx as int, 0x100_0000_0000, 65536);
            lemma_div_pos_is_pos(maxx as int, 65536);
        }
        ((maxx as u64) / 65536) as i64 + 1
    };
    let ylo: i64 = if miny <= 0 {
        0
    } else {
        proof {
            lemma_div_is_ordered(miny as int, 0x100_0000_0000, 65536);
            lemma_div_pos_is_pos(miny as int, 65536);
        }
        ((miny as u64) / 65536) as i64
    };
    let yhi: i64 = if maxy < 0 {
        -1
    } else {
        proof {
            lemma_div_is_ordered(maxy as int, 0x100_0000_0000, 65536);
            lemma_div_pos_is_pos(maxy as int, 65536);
        }
        ((maxy as u64) / 65536) as i64 + 1
    };
    proof {
        if minx > 0 {
            lemma_div_is_ordered(minx as int, maxx as int, 65536);
        }
        if miny > 0 {
            lemma_div_is_ordered(miny as int, maxy as int, 65536);
        }
    }

    let mut out: Vec<Fragment> = Vec::new();
    let mut y: i64 = ylo;
    proof {
        assert(rows_frags_spec(*v0, *v1, *v2, ylo as int) =~= Seq::<Fragment>::empty());
    }
    while y <= yhi
        invariant
            tri_ok(*v0, *v1, *v2),
            cross_z_spec(*v0, *v1, *v2) > 0,
            xlo as int == xmin_spec(*v0, *v1, *v2),
            xhi as int == xmax_spec(*v0, *v1, *v2),
            ylo as int == ymin_spec(*v0, *v1, *v2),
            yhi as int == ymax_spec(*v0, *v1, *v2),
            0 <= xlo <= 0x100_0000,
            -1 <= xhi <= 0x100_0001,
            0 <= ylo <= 0x100_0000,
            -1 <= yhi <= 0x100_0001,
            ylo <= y <= yhi + 1 || (yhi < ylo && y == ylo),
            x0 == v0.transformed_position.x,
            y0 == v0.transformed_position.y,
            z0 == v0.transformed_position.z,
            x1 == v1.transformed_position.x,
            y1 == v1.transformed_position.y,
            z1 == v1.transformed_position.z,
            x2 == v2.transformed_position.x,
            y2 == v2.transformed_position.y,
            z2 == v2.transformed_position.z,
            out@ == rows_frags_spec(*v0, *v1, *v2, y as int),
        decreases yhi + 1 - y,
    {
        let mut x: i64 = xlo;
        proof {
            assert(row_frags_spec(*v0, *v1, *v2, y as int, xlo as int) =~= Seq::<
                Fragment,
            >::empty());
            assert(out@ =~= rows_frags_spec(*v0, *v1, *v2, y as int) + row_frags_spec(
                *v0,
                *v1,
                *v2,
                y as int,
                xlo as int,
            ));
        }
        while x <= xhi
            invariant
                tri_ok(*v0, *v1, *v2),
                cross_z_spec(*v0, *v1, *v2) > 0,
                xlo as int == xmin_spec(*v0, *v1, *v2),
                xhi as int == xmax_spec(*v0, *v1, *v2),
                ylo as int == ymin_spec(*v0, *v1, *v2),
                yhi as int == ymax_spec(*v0, *v1, *v2),
                0 <= xlo <= 0x100_0000,
                -1 <= xhi <= 0x100_0001,
                ylo <= y <= yhi,
                xlo <= x <= xhi + 1 || (xhi < xlo && x == xlo),
                x0 == v0.transformed_position.x,
                y0 == v0.transformed_position.y,
                z0 == v0.transformed_position.z,
                x1 == v1.transformed_position.x,
                y1 == v1.transformed_position.y,
                z1 == v1.transformed_position.z,
                x2 == v2.transformed_position.x,
                y2 == v2.transformed_position.y,
                z2 == v2.transformed_position.z,
                out@ == rows_frags_spec(*v0, *v1, *v2, y as int) + row_frags_spec(
                    *v0,
                    *v1,
                    *v2,
                    y as int,
                    x as int,
                ),
            decreases xhi + 1 - x,
        {
            let px: i64 = x * 65536;
            let py: i64 = y * 65536;
            let w0: i128 = edge_fn(x1, y1, x2, y2, px, py);
            let w1: i128 = edge_fn(x2, y2, x0, y0, px, py);
            let w2: i128 = edge_fn(x0, y0, x1, y1, px, py);
            if w0 >= 0 && w1 >= 0 && w2 >= 0 {
                let wsum: i128 = w0 + w1 + w2;
                proof {
                    lemma_edge_sum(
                        x0 as int,
                        y0 as int,
                        x1 as int,
                        y1 as int,
                        x2 as int,
                        y2 as int,
                        px as int,
                        py as int,
                    );
                    assert(wsum as int == cross_z_spec(*v0, *v1, *v2));
                }
                let depth: i64 = interp_depth(w0, w1, w2, z0, z1, z2, wsum);
                let cr: u8 = interp_channel(w0, w1, w2, v0.color.r, v1.color.r, v2.color.r, wsum);
                let cg: u8 = interp_channel(w0, w1, w2, v0.color.g, v1.color.g, v2.color.g, wsum);
                let cb: u8 = interp_channel(w0, w1, w2, v0.color.b, v1.color.b, v2.color.b, wsum);
                let f = Fragment {
                    x: x as usize,
                    y: y as usize,
                    depth,
                    color: Color { r: cr, g: cg, b: cb },
                };
                proof {
                    assert(f == frag_at_spec(*v0, *v1, *v2, x as int, y as int));
                    assert(row_frags_spec(*v0, *v1, *v2, y as int, x as int + 1)
                        == row_frags_spec(*v0, *v1, *v2, y as int, x as int) + seq![
                        frag_at_spec(*v0, *v1, *v2, x as int, y as int)]);
                    assert(out@.push(f) =~= rows_frags_spec(*v0, *v1, *v2, y as int)
                        + row_frags_spec(*v0, *v1, *v2, y as int, x as int + 1));
                }
                out.push(f);
            } else {
                proof {
                    assert(row_frags_spec(*v0, *v1, *v2, y as int, x as int + 1) =~= row_frags_spec(
                        *v0,
                        *v1,
                        *v2,
                        y as int,
                        x as int,
                    ));
                }
            }
            x = x + 1;
        }
        proof {
            assert(rows_frags_spec(*v0, *v1, *v2, y as int + 1) == rows_frags_spec(
                *v0,
                *v1,
                *v2,
                y as int,
            ) + row_frags_spec(*v0, *v1, *v2, y as int, xhi as int + 1));
        }
        y = y + 1;
    }
    proof {
        if yhi < ylo {
            assert(rows_frags_spec(*v0, *v1, *v2, yhi as int + 1) =~= Seq::<Fragment>::empty());
        }
        assert(out@ == frags_spec(*v0, *v1, *v2));
    }
    out
}

} // verus!
