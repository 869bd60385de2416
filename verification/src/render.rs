//! Per-frame rendering: every vertex is transformed once, triangles are
//! taken in consecutive triples, back faces are culled, survivors are
//! rasterized, and each fragment is shaded and written through the
//! depth-tested framebuffer, under a hard per-frame triangle cap.

use vstd::prelude::*;
use crate::color::{color_scale_spec, color_to_hex_spec, Color};
use crate::fixed::div_trunc;
use crate::framebuffer::{fb_wf, point_buf_spec, point_dep_spec, Framebuffer};
use crate::matrix::Uniforms;
use crate::raster::{
    coord_ok, cross_z_spec, frags_spec, front_facing, tri_ok, triangle, Fragment,
};
use crate::shaders::{vertex_shader, vertex_shader_spec, Vertex};
use vstd::arithmetic::div_mod::lemma_div_by_multiple;
use vstd::arithmetic::div_mod::lemma_div_is_ordered;

verus! {

/// Hard safety cap on the triangles rasterized in one frame.
pub const MAX_TRIANGLES: usize = 5000;

/// Fixed-point floor on the brightness factor (0.3).
pub const MIN_BRIGHTNESS: i64 = 19661;

/// What one call of `render` reports: how many triangles were rasterized,
/// and whether the cap cut the frame short.
#[derive(Clone, Copy, Debug, PartialEq, Eq, Structural)]
pub struct RenderStats {
    pub triangles_rendered: usize,
    pub cap_reached: bool,
}

/// The brightness factor of a fragment: its packed color's low byte (the
/// blue channel) as a fraction of 255, floored at MIN_BRIGHTNESS.
pub open spec fn lighting_spec(c: Color) -> int {
    let l = div_trunc((c.b as int) * 65536, 255);
    if l >= 19661 {
        l
    } else {
        19661
    }
}

pub fn lighting_of(c: Color) -> (l: i64)
    ensures
        l as int == lighting_spec(c),
{
    proof {
        lemma_div_by_multiple(65536, 255);
        lemma_div_is_ordered((c.b as int) * 65536, 16711680, 255);
        vstd::arithmetic::div_mod::lemma_div_pos_is_pos((c.b as int) * 65536, 255);
    }
    let raw: u64 = (c.b as u64) * 65536 / 255;
    let v: i64 = raw as i64;
    if v >= MIN_BRIGHTNESS {
        v
    } else {
        MIN_BRIGHTNESS
    }
}

/// The packed color a fragment is drawn with: the base color scaled by the
/// fragment's brightness factor.
pub open spec fn shade_hex_spec(ship: Color, fc: Color) -> int {
    color_to_hex_spec(color_scale_spec(ship, lighting_spec(fc)))
}

/// Framebuffer contents and draw color after writing the fragments from
/// index `j` on: each fragment sets the draw color, then goes through the
/// depth-tested write.
pub open spec fn write_frags_spec(
    buf: Seq<u32>,
    dep: Seq<i64>,
    cur: u32,
    w: int,
    h: int,
    ship: Color,
    frags: Seq<Fragment>,
    j: int,
) -> (Seq<u32>, Seq<i64>, u32)
    decreases frags.len() - j,
{
    if j < 0 || j >= frags.len() {
        (buf, dep, cur)
    } else {
        let f = frags[j];
        let col = shade_hex_spec(ship, f.color) as u32;
        let b2 = point_buf_spec(buf, dep, w, h, col, f.x as int, f.y as int, f.depth);
        let d2 = point_dep_spec(dep, w, h, f.x as int, f.y as int, f.depth);
        write_frags_spec(b2, d2, col, w, h, ship, frags, j + 1)
    }
}

/// Framebuffer contents, draw color, rendered-triangle count and
/// cap-reached flag after processing the vertex triples from index `i` on.
/// A triple is transformed by the vertex shader; it is rasterized only if
/// its coordinates are in the rasterizer's range and its winding faces the
/// viewer, and only while the triangle cap has not been reached.
pub open spec fn render_step_spec(
    buf: Seq<u32>,
    dep: Seq<i64>,
    cur: u32,
    w: int,
    h: int,
    verts: Seq<Vertex>,
    u: Uniforms,
    ship: Color,
    i: int,
    count: int,
) -> (Seq<u32>, Seq<i64>, u32, int, bool)
    decreases verts.len() - i,
{
    if i < 0 || i + 3 > verts.len() || count >= 5000 {
        (buf, dep, cur, count, count >= 5000 && i + 3 <= verts.len())
    } else {
        let v0 = vertex_shader_spec(verts[i], u);
        let v1 = vertex_shader_spec(verts[i + 1], u);
        let v2 = vertex_shader_spec(verts[i + 2], u);
        if tri_ok(v0, v1, v2) && cross_z_spec(v0, v1, v2) > 0 {
            let st = write_frags_spec(buf, dep, cur, w, h, ship, frags_spec(v0, v1, v2), 0);
            render_step_spec(st.0, st.1, st.2, w, h, verts, u, ship, i + 3, count + 1)
        } else {
            render_step_spec(buf, dep, cur, w, h, verts, u, ship, i + 3, count)
        }
    }
}

/// One whole frame, starting at the first triple with no triangles drawn.
pub open spec fn render_frame_spec(
    buf: Seq<u32>,
    dep: Seq<i64>,
    cur: u32,
    w: int,
    h: int,
    verts: Seq<Vertex>,
    u: Uniforms,
    ship: Color,
) -> (Seq<u32>, Seq<i64>, u32, int, bool) {
    render_step_spec(buf, dep, cur, w, h, verts, u, ship, 0, 0)
}

fn coords_in_range(v: &Vertex) -> (r: bool)
    ensures
        r == (coord_ok(v.transformed_position.x) && coord_ok(v.transformed_position.y)
            && coord_ok(v.transformed_position.z)),
{
    -0x100_0000_0000 <= v.transformed_position.x && v.transformed_position.x <= 0x100_0000_0000
        && -0x100_0000_0000 <= v.transformed_position.y && v.transformed_position.y
        <= 0x100_0000_0000 && -0x100_0000_0000 <= v.transformed_position.z
        && v.transformed_position.z <= 0x100_0000_0000
}

/// Shade one fragment and write it through the depth test: the draw color
/// becomes the shaded color, and the pixel write follows the framebuffer's
/// depth policy.
fn write_fragment(fb: &mut Framebuffer, ship: Color, f: Fragment)
    requires
        fb_wf(*old(fb)),
    ensures
        fb_wf(*final(fb)),
        final(fb).width == old(fb).width,
        final(fb).height == old(fb).height,
        final(fb).background_color == old(fb).background_color,
        final(fb).current_color == shade_hex_spec(ship, f.color) as u32,
        final(fb).buffer@ == point_buf_spec(
            old(fb).buffer@,
            old(fb).depth_buffer@,
            old(fb).width as int,
            old(fb).height as int,
            shade_hex_spec(ship, f.color) as u32,
            f.x as int,
            f.y as int,
            f.depth,
        ),
        final(fb).depth_buffer@ == point_dep_spec(
            old(fb).depth_buffer@,
            old(fb).width as int,
            old(fb).height as int,
            f.x as int,
            f.y as int,
            f.depth,
        ),
{
    let light: i64 = lighting_of(f.color);
    let shaded: Color = ship.scale(light);
    let col: u32 = shaded.to_hex();
    proof {
        assert(col as int == shade_hex_spec(ship, f.color));
    }
    fb.set_current_color(col);
    fb.point(f.x, f.y, f.depth);
}

/// One step of `write_frags_spec`, spelled out.
proof fn lemma_write_frags_step(
    buf: Seq<u32>,
    dep: Seq<i64>,
    cur: u32,
    w: int,
    h: int,
    ship: Color,
    frags: Seq<Fragment>,
    j: int,
)
    requires
        0 <= j < frags.len(),
    ensures
        write_frags_spec(buf, dep, cur, w, h, ship, frags, j) == ({
            let f = frags[j];
            let col = shade_hex_spec(ship, f.color) as u32;
            write_frags_spec(
                point_buf_spec(buf, dep, w, h, col, f.x as int, f.y as int, f.depth),
                point_dep_spec(dep, w, h, f.x as int, f.y as int, f.depth),
                col,
                w,
                h,
                ship,
                frags,
                j + 1,
            )
        }),
{
}

/// Write a whole fragment sequence, in order, through `write_fragment`.
fn write_all_frags(fb: &mut Framebuffer, ship: Color, frags: &Vec<Fragment>)
    requires
        fb_wf(*old(fb)),
    ensures
        fb_wf(*final(fb)),
        final(fb).width == old(fb).width,
        final(fb).height == old(fb).height,
        final(fb).background_color == old(fb).background_color,
        ({
            let st = write_frags_spec(
                old(fb).buffer@,
                old(fb).depth_buffer@,
                old(fb).current_color,
                old(fb).width as int,
                old(fb).height as int,
                ship,
                frags@,
                0,
            );
            &&& final(fb).buffer@ == st.0
            &&& final(fb).depth_buffer@ == st.1
            &&& final(fb).current_color == st.2
        }),
{
    let ghost w = old(fb).width as int;
    let ghost h = old(fb).height as int;
    let ghost wd = old(fb).width;
    let ghost ht = old(fb).height;
    let ghost bg = old(fb).background_color;
    let ghost b0 = old(fb).buffer@;
    let ghost d0 = old(fb).depth_buffer@;
    let ghost c0 = old(fb).current_color;
    let mut j: usize = 0;
    while j < frags.len()
        invariant
            fb_wf(*fb),
            fb.width == wd,
            fb.height == ht,
            wd as int == w,
            ht as int == h,
            fb.background_color == bg,
            j <= frags@.len(),
            write_frags_spec(
                b0,
                d0,
                c0,
                w,
                h,
                ship,
                frags@,
                0,
            ) == write_frags_spec(
                fb.buffer@,
                fb.depth_buffer@,
                fb.current_color,
                w,
                h,
                ship,
                frags@,
                j as int,
            ),
        decreases frags@.len() - j,
    {
        let ghost bj = fb.buffer@;
        let ghost dj = fb.depth_buffer@;
        let ghost cj = fb.current_color;
        let f: Fragment = frags[j];
        write_fragment(fb, ship, f);
        proof {
            lemma_write_frags_step(bj, dj, cj, w, h, ship, frags@, j as int);
            assert(write_frags_spec(bj, dj, cj, w, h, ship, frags@, j as int)
                == write_frags_spec(
                fb.buffer@,
                fb.depth_buffer@,
                fb.current_color,
                w,
                h,
                ship,
                frags@,
                j as int + 1,
            ));
        }
        j = j + 1;
    }
}

/// Render one frame of the vertex array into the framebuffer.
#[verifier::rlimit(100)]
pub fn render(
    fb: &mut Framebuffer,
    uniforms: &Uniforms,
    vertex_array: &Vec<Vertex>,
    ship_color: Color,
) -> (stats: RenderStats)
    requires
        fb_wf(*old(fb)),
        vertex_array@.len() + 3 <= usize::MAX,
    ensures
        fb_wf(*final(fb)),
        final(fb).width == old(fb).width,
        final(fb).height == old(fb).height,
        final(fb).background_color == old(fb).background_color,
        ({
            let st = render_frame_spec(
                old(fb).buffer@,
                old(fb).depth_buffer@,
                old(fb).current_color,
                old(fb).width as int,
                old(fb).height as int,
                vertex_array@,
                *uniforms,
                ship_color,
            );
            &&& final(fb).buffer@ == st.0
            &&& final(fb).depth_buffer@ == st.1
            &&& final(fb).current_color == st.2
            &&& stats.triangles_rendered as int == st.3
            &&& stats.cap_reached == st.4
        }),
{
    let ghost buf0 = old(fb).buffer@;
    let ghost dep0 = old(fb).depth_buffer@;
    let ghost cur0 = old(fb).current_color;
    let ghost w = old(fb).width as int;
    let ghost h = old(fb).height as int;
    let ghost wd0 = old(fb).width;
    let ghost ht0 = old(fb).height;
    let ghost bg0 = old(fb).background_color;

    let mut tv: Vec<Vertex> = Vec::new();
    let mut k: usize = 0;
    while k < vertex_array.len()
        invariant
            k <= vertex_array@.len(),
            tv@.len() == k,
            forall|j: int|
                0 <= j < k ==> tv@[j] == vertex_shader_spec(vertex_array@[j], *uniforms),
        decreases vertex_array@.len() - k,
    {
        let v = vertex_shader(&vertex_array[k], uniforms);
        tv.push(v);
        k = k + 1;
    }

    let mut i: usize = 0;
    let mut count: usize = 0;
    while i + 3 <= tv.len() && count < MAX_TRIANGLES
        invariant
            fb_wf(*fb),
            fb.width == wd0,
            fb.height == ht0,
            wd0 as int == w,
            ht0 as int == h,
            fb.background_color == bg0,
            vertex_array@.len() + 3 <= usize::MAX,
            tv@.len() == vertex_array@.len(),
            forall|j: int|
                0 <= j < tv@.len() ==> tv@[j] == vertex_shader_spec(
                    vertex_array@[j],
                    *uniforms,
                ),
            i <= tv@.len(),
            count <= 5000,
            render_frame_spec(buf0, dep0, cur0, w, h, vertex_array@, *uniforms, ship_color)
                == render_step_spec(
                fb.buffer@,
                fb.depth_buffer@,
                fb.current_color,
                w,
                h,
                vertex_array@,
                *uniforms,
                ship_color,
                i as int,
                count as int,
            ),
        decreases tv@.len() - i,
    {
        let ghost bh0 = fb.buffer@;
        let ghost dh0 = fb.depth_buffer@;
        let ghost ch0 = fb.current_color;
        let v0: Vertex = tv[i];
        let v1: Vertex = tv[i + 1];
        let v2: Vertex = tv[i + 2];
        proof {
            assert(v0 == vertex_shader_spec(vertex_array@[i as int], *uniforms));
            assert(v1 == vertex_shader_spec(vertex_array@[i as int + 1], *uniforms));
            assert(v2 == vertex_shader_spec(vertex_array@[i as int + 2], *uniforms));
        }
        let mag_ok = coords_in_range(&v0) && coords_in_range(&v1) && coords_in_range(&v2);
        if mag_ok && front_facing(&v0, &v1, &v2) {
            let frags: Vec<Fragment> = triangle(&v0, &v1, &v2);
            proof {
                assert(render_step_spec(
                    bh0,
                    dh0,
                    ch0,
                    w,
                    h,
                    vertex_array@,
                    *uniforms,
                    ship_color,
                    i as int,
                    count as int,
                ) == ({
                    let st = write_frags_spec(bh0, dh0, ch0, w, h, ship_color, frags@, 0);
                    render_step_spec(
                        st.0,
                        st.1,
                        st.2,
                        w,
                        h,
                        vertex_array@,
                        *uniforms,
                        ship_color,
                        i as int + 3,
                        count as int + 1,
                    )
                }));
            }
            let ghost bt = fb.buffer@;
            let ghost dt = fb.depth_buffer@;
            let ghost ct = fb.current_color;
            write_all_frags(fb, ship_color, &frags);
            proof {
                let st = write_frags_spec(bt, dt, ct, w, h, ship_color, frags@, 0);
                assert(fb.buffer@ == st.0 && fb.depth_buffer@ == st.1 && fb.current_color == st.2);
            }
            count = count + 1;
        } else {
            proof {
                assert(render_step_spec(
                    bh0,
                    dh0,
                    ch0,
                    w,
                    h,
                    vertex_array@,
                    *uniforms,
                    ship_color,
                    i as int,
                    count as int,
                ) == render_step_spec(
                    bh0,
                    dh0,
                    ch0,
                    w,
                    h,
                    vertex_array@,
                    *uniforms,
                    ship_color,
                    i as int + 3,
                    count as int,
                ));
            }
        }
        i = i + 3;
    }
    let cap: bool = count >= MAX_TRIANGLES && i + 3 <= tv.len();
    proof {
        assert(render_step_spec(
            fb.buffer@,
            fb.depth_buffer@,
            fb.current_color,
            w,
            h,
            vertex_array@,
            *uniforms,
            ship_color,
            i as int,
            count as int,
        ) == (
            fb.buffer@,
            fb.depth_buffer@,
            fb.current_color,
            count as int,
            count as int >= 5000 && i as int + 3 <= vertex_array@.len(),
        ));
    }
    RenderStats { triangles_rendered: count, cap_reached: cap }
}

} // verus!
