use softraster::color::Color;
use softraster::fixed::{fx_add, fx_div, fx_mul, fx_neg, fx_sub, FX_ONE};
use softraster::framebuffer::{Framebuffer, DEPTH_FAR};
use softraster::geom::{Vec2, Vec3};
use softraster::input::{
    handle_input, update_auto_rotation, InputState, SceneState, CAMERA_MAX, CAMERA_MIN, SCALE_MIN,
};
use softraster::matrix::{
    create_model_matrix, create_viewport_matrix, mat4_identity, normal_matrix, RotTrig,
    Uniforms, mat3_identity,
};
use softraster::raster::{front_facing, triangle};
use softraster::render::{render, MAX_TRIANGLES};
use softraster::shaders::{vertex_shader, Vertex};

fn vert(x: i64, y: i64, z: i64, color: Color) -> Vertex {
    Vertex {
        position: Vec3 { x, y, z },
        normal: Vec3 { x: 0, y: 0, z: FX_ONE },
        tex_coords: Vec2 { x: 0, y: 0 },
        color,
        transformed_position: Vec3 { x: 0, y: 0, z: 0 },
        transformed_normal: Vec3 { x: 0, y: 0, z: 0 },
    }
}

fn screen_vert(x: i64, y: i64, z: i64, color: Color) -> Vertex {
    let mut v = vert(0, 0, 0, color);
    v.transformed_position = Vec3 { x, y, z };
    v
}

fn identity_uniforms() -> Uniforms {
    Uniforms {
        model_matrix: mat4_identity(),
        view_matrix: mat4_identity(),
        projection_matrix: mat4_identity(),
        viewport_matrix: mat4_identity(),
    }
}

#[test]
fn fx_arithmetic_exact() {
    assert_eq!(fx_mul(3 * FX_ONE, 2 * FX_ONE), 6 * FX_ONE);
    assert_eq!(fx_mul(-3 * FX_ONE, 2 * FX_ONE), -6 * FX_ONE);
    assert_eq!(fx_mul(FX_ONE, 12345), 12345);
    assert_eq!(fx_mul(12345, FX_ONE), 12345);
    assert_eq!(fx_mul(0, 987654321), 0);
    // truncation is toward zero in both signs
    assert_eq!(fx_div(1, 2 * FX_ONE), 0);
    assert_eq!(fx_div(-1, 2 * FX_ONE), 0);
    assert_eq!(fx_div(6 * FX_ONE, 2 * FX_ONE), 3 * FX_ONE);
    assert_eq!(fx_div(6 * FX_ONE, -2 * FX_ONE), -3 * FX_ONE);
    assert_eq!(fx_div(12345, FX_ONE), 12345);
    assert_eq!(fx_add(5, 7), 12);
    assert_eq!(fx_sub(5, 7), -2);
    assert_eq!(fx_neg(5), -5);
    // saturation at the representable range
    assert_eq!(fx_add(i64::MAX, 1), i64::MAX);
    assert_eq!(fx_sub(i64::MIN, 1), i64::MIN);
    assert_eq!(fx_neg(i64::MIN), i64::MAX);
}

#[test]
fn color_hex_round_trip() {
    let c = Color::new(0x12, 0x34, 0x56);
    assert_eq!(c.to_hex(), 0x123456);
    assert_eq!(Color::from_hex(c.to_hex()), c);
    assert_eq!(Color::from_hex(0xabcdef).to_hex(), 0xabcdef);
    // bits above the low 24 are ignored
    assert_eq!(Color::from_hex(0xff123456), Color::from_hex(0x123456));
    assert_eq!(Color::new(255, 255, 0).to_hex(), 0xffff00);
}

#[test]
fn color_scale_behavior() {
    let c = Color::new(128, 64, 255);
    assert_eq!(c.scale(FX_ONE), c);
    assert_eq!(c.scale(FX_ONE / 2), Color::new(64, 32, 127));
    assert_eq!(c.scale(0), Color::new(0, 0, 0));
    assert_eq!(c.scale(-FX_ONE), Color::new(0, 0, 0));
    // saturates at the channel maximum
    assert_eq!(c.scale(4 * FX_ONE), Color::new(255, 255, 255));
}

#[test]
fn identity_pipeline_preserves_position() {
    let u = identity_uniforms();
    let v = vert(3 * FX_ONE + 16384, -2 * FX_ONE - 32768, FX_ONE / 4, Color::new(10, 20, 30));
    let t = vertex_shader(&v, &u);
    assert_eq!(t.transformed_position, v.position);
    assert_eq!(t.transformed_normal, v.normal);
    assert_eq!(t.position, v.position);
    assert_eq!(t.normal, v.normal);
    assert_eq!(t.tex_coords, v.tex_coords);
    assert_eq!(t.color, v.color);
}

#[test]
fn zero_w_is_degenerate_but_safe() {
    // a projection matrix whose last row is all zero forces w to 0; the
    // divide is skipped rather than crashing
    let mut u = identity_uniforms();
    u.projection_matrix.r3 = softraster::geom::Vec4 { x: 0, y: 0, z: 0, w: 0 };
    let v = vert(5 * FX_ONE, 7 * FX_ONE, FX_ONE, Color::new(1, 2, 3));
    let t = vertex_shader(&v, &u);
    assert_eq!(t.transformed_position, v.position);
}

#[test]
fn culling_follows_winding() {
    let white = Color::new(255, 255, 255);
    let v0 = screen_vert(0, 0, 0, white);
    let v1 = screen_vert(10 * FX_ONE, 0, 0, white);
    let v2 = screen_vert(0, 10 * FX_ONE, 0, white);
    // counter-clockwise in this convention: kept
    assert!(front_facing(&v0, &v1, &v2));
    // reversing the winding discards the triangle
    assert!(!front_facing(&v0, &v2, &v1));
    // a degenerate (zero-area) triangle is discarded too
    assert!(!front_facing(&v0, &v0, &v1));
}

#[test]
fn raster_covers_exact_half_plane_set() {
    let white = Color::new(255, 255, 255);
    let v0 = screen_vert(0, 0, 0, white);
    let v1 = screen_vert(10 * FX_ONE, 0, 0, white);
    let v2 = screen_vert(0, 10 * FX_ONE, 0, white);
    let frags = triangle(&v0, &v1, &v2);
    // expected: every integer point with x >= 0, y >= 0, x + y <= 10
    let mut expected: Vec<(usize, usize)> = Vec::new();
    for y in 0usize..=10 {
        for x in 0usize..=10 {
            if x + y <= 10 {
                expected.push((x, y));
            }
        }
    }
    let got: Vec<(usize, usize)> = frags.iter().map(|f| (f.x, f.y)).collect();
    let mut got_sorted = got.clone();
    got_sorted.sort();
    let mut expected_sorted = expected.clone();
    expected_sorted.sort();
    assert_eq!(got_sorted, expected_sorted);
    assert_eq!(frags.len(), 66);
    // no fragment strictly outside the convex hull
    for f in frags.iter() {
        assert!(f.x + f.y <= 10);
    }
    // deterministic and reproducible
    let again = triangle(&v0, &v1, &v2);
    let got2: Vec<(usize, usize)> = again.iter().map(|f| (f.x, f.y)).collect();
    assert_eq!(got, got2);
}

#[test]
fn raster_interpolates_depth() {
    let white = Color::new(255, 255, 255);
    let v0 = screen_vert(0, 0, 0, white);
    let v1 = screen_vert(10 * FX_ONE, 0, 10 * FX_ONE, white);
    let v2 = screen_vert(0, 10 * FX_ONE, 0, white);
    let frags = triangle(&v0, &v1, &v2);
    let depth_at = |x: usize, y: usize| -> i64 {
        frags
            .iter()
            .find(|f| f.x == x && f.y == y)
            .map(|f| f.depth)
            .expect("fragment missing")
    };
    assert_eq!(depth_at(0, 0), 0);
    assert_eq!(depth_at(10, 0), 10 * FX_ONE);
    assert_eq!(depth_at(5, 0), 5 * FX_ONE);
    assert_eq!(depth_at(0, 5), 0);
}

#[test]
fn depth_test_idempotent_and_farther_noop() {
    let mut fb = Framebuffer::new(4, 4);
    fb.set_current_color(0xff0000);
    fb.point(1, 2, 100);
    let idx = 2 * 4 + 1;
    assert_eq!(fb.buffer[idx], 0xff0000);
    assert_eq!(fb.depth_buffer[idx], 100);
    // writing the exact same fragment again changes nothing
    fb.point(1, 2, 100);
    assert_eq!(fb.buffer[idx], 0xff0000);
    assert_eq!(fb.depth_buffer[idx], 100);
    // a farther write is a no-op
    fb.set_current_color(0x00ff00);
    fb.point(1, 2, 500);
    assert_eq!(fb.buffer[idx], 0xff0000);
    assert_eq!(fb.depth_buffer[idx], 100);
    // a nearer write goes through
    fb.point(1, 2, 50);
    assert_eq!(fb.buffer[idx], 0x00ff00);
    assert_eq!(fb.depth_buffer[idx], 50);
    // out-of-bounds writes are silently discarded
    fb.point(4, 0, 0);
    fb.point(0, 4, 0);
    for y in 0..4 {
        for x in 0..4 {
            if (x, y) != (1, 2) {
                assert_eq!(fb.buffer[y * 4 + x], 0);
                assert_eq!(fb.depth_buffer[y * 4 + x], DEPTH_FAR);
            }
        }
    }
}

#[test]
fn clear_resets_everything() {
    let mut fb = Framebuffer::new(8, 8);
    fb.set_background_color(0x1a1a2e);
    fb.set_current_color(0xffffff);
    fb.point(0, 0, 5);
    fb.point(7, 7, 1);
    fb.point(3, 4, 0);
    fb.clear();
    for i in 0..64 {
        assert_eq!(fb.buffer[i], 0x1a1a2e);
        assert_eq!(fb.depth_buffer[i], DEPTH_FAR);
    }
    // the clear keeps the dimensions and colors
    assert_eq!(fb.width, 8);
    assert_eq!(fb.height, 8);
    assert_eq!(fb.background_color, 0x1a1a2e);
}

#[test]
fn quad_scenario_fills_exact_rectangle() {
    let mut fb = Framebuffer::new(20, 20);
    fb.set_background_color(0x101020);
    fb.clear();

    let white = Color::new(255, 255, 255);
    let half = FX_ONE / 2;
    // a unit square in normalized device coordinates, z = 0
    let a = vert(-half, -half, 0, white);
    let b = vert(half, -half, 0, white);
    let c = vert(half, half, 0, white);
    let d = vert(-half, half, 0, white);
    // two triangles wound to face the viewer after the y flip
    let verts = vec![a, c, b, a, d, c];

    let uniforms = Uniforms {
        model_matrix: mat4_identity(),
        view_matrix: mat4_identity(),
        projection_matrix: mat4_identity(),
        viewport_matrix: create_viewport_matrix(20, 20),
    };
    let ship = Color::new(255, 255, 0);
    let stats = render(&mut fb, &uniforms, &verts, ship);
    assert_eq!(stats.triangles_rendered, 2);
    assert!(!stats.cap_reached);

    // the square projects to [5, 15] x [5, 15]
    for y in 0..20 {
        for x in 0..20 {
            let px = fb.buffer[y * 20 + x];
            if (5..=15).contains(&x) && (5..=15).contains(&y) {
                assert_eq!(px, 0xffff00, "pixel ({}, {})", x, y);
            } else {
                assert_eq!(px, 0x101020, "pixel ({}, {})", x, y);
            }
        }
    }
}

#[test]
fn triangle_cap_limits_a_frame() {
    let mut fb = Framebuffer::new(4, 4);
    fb.clear();
    let white = Color::new(255, 255, 255);
    let mut verts: Vec<Vertex> = Vec::new();
    for _ in 0..(MAX_TRIANGLES + 1) {
        verts.push(vert(0, 0, 0, white));
        verts.push(vert(FX_ONE, 0, 0, white));
        verts.push(vert(0, FX_ONE, 0, white));
    }
    let stats = render(&mut fb, &identity_uniforms(), &verts, white);
    assert_eq!(stats.triangles_rendered, MAX_TRIANGLES);
    assert!(stats.cap_reached);
}

#[test]
fn scale_clamp_pins_at_one() {
    let mut s = SceneState::initial(SCALE_MIN, 8 * FX_ONE, false);
    let mut inp = InputState::default();
    inp.scale_down = true;
    for _ in 0..10 {
        handle_input(&mut s, &inp);
        assert_eq!(s.scale, SCALE_MIN);
    }
    // growing and shrinking again respects the floor exactly
    let mut up = InputState::default();
    up.scale_up = true;
    handle_input(&mut s, &up);
    assert_eq!(s.scale, 2 * FX_ONE);
    handle_input(&mut s, &inp);
    assert_eq!(s.scale, SCALE_MIN);
}

#[test]
fn camera_distance_clamp_pins_at_bounds() {
    let mut s = SceneState::initial(SCALE_MIN, 140000, false);
    let mut zi = InputState::default();
    zi.zoom_in = true;
    handle_input(&mut s, &zi);
    assert_eq!(s.camera_distance, CAMERA_MIN);
    for _ in 0..5 {
        handle_input(&mut s, &zi);
        assert_eq!(s.camera_distance, CAMERA_MIN);
    }
    let mut zo = InputState::default();
    zo.zoom_out = true;
    let mut s2 = SceneState::initial(SCALE_MIN, CAMERA_MAX - 1000, false);
    handle_input(&mut s2, &zo);
    assert_eq!(s2.camera_distance, CAMERA_MAX);
    for _ in 0..5 {
        handle_input(&mut s2, &zo);
        assert_eq!(s2.camera_distance, CAMERA_MAX);
    }
}

#[test]
fn auto_rotate_toggles_and_advances() {
    let mut s = SceneState::initial(SCALE_MIN, 8 * FX_ONE, false);
    update_auto_rotation(&mut s, true);
    assert!(s.auto_rotate);
    assert_eq!(s.time, 983);
    assert_eq!(s.rotation.y, 983);
    update_auto_rotation(&mut s, false);
    assert_eq!(s.time, 2 * 983);
    assert_eq!(s.rotation.y, 2 * 983);
    update_auto_rotation(&mut s, true);
    assert!(!s.auto_rotate);
    assert_eq!(s.time, 2 * 983);
}

#[test]
fn model_matrix_composition() {
    let t = RotTrig { sin_x: 0, cos_x: FX_ONE, sin_y: 0, cos_y: FX_ONE, sin_z: 0, cos_z: FX_ONE };
    let m = create_model_matrix(
        Vec3 { x: FX_ONE, y: 2 * FX_ONE, z: 3 * FX_ONE },
        2 * FX_ONE,
        t,
    );
    // with no rotation the model matrix is translation times scale
    let s = 2 * FX_ONE;
    assert_eq!(m.r0, softraster::geom::Vec4 { x: s, y: 0, z: 0, w: FX_ONE });
    assert_eq!(m.r1, softraster::geom::Vec4 { x: 0, y: s, z: 0, w: 2 * FX_ONE });
    assert_eq!(m.r2, softraster::geom::Vec4 { x: 0, y: 0, z: s, w: 3 * FX_ONE });
    assert_eq!(m.r3, softraster::geom::Vec4 { x: 0, y: 0, z: 0, w: FX_ONE });
}

#[test]
fn viewport_matrix_shape() {
    let m = create_viewport_matrix(800, 600);
    assert_eq!(m.r0, softraster::geom::Vec4 { x: 800 * 32768, y: 0, z: 0, w: 800 * 32768 });
    assert_eq!(m.r1, softraster::geom::Vec4 { x: 0, y: -600 * 32768, z: 0, w: 600 * 32768 });
    assert_eq!(m.r2, softraster::geom::Vec4 { x: 0, y: 0, z: FX_ONE, w: 0 });
    assert_eq!(m.r3, softraster::geom::Vec4 { x: 0, y: 0, z: 0, w: FX_ONE });
}

#[test]
fn normal_matrix_identity_and_singular_fallback() {
    assert_eq!(normal_matrix(&mat4_identity()), mat3_identity());
    // a singular upper-left block falls back to the identity
    let mut m = mat4_identity();
    m.r0 = softraster::geom::Vec4 { x: 0, y: 0, z: 0, w: 0 };
    m.r1 = softraster::geom::Vec4 { x: 0, y: 0, z: 0, w: 0 };
    m.r2 = softraster::geom::Vec4 { x: 0, y: 0, z: 0, w: 0 };
    assert_eq!(normal_matrix(&m), mat3_identity());
}

#[test]
fn brightness_floor_applies() {
    // a fragment whose packed color's low byte is 0 is shaded at the 0.3
    // brightness floor: 255 * 0.3 truncates to 76 per channel
    let ship = Color::new(255, 255, 255);
    assert_eq!(ship.scale(softraster::render::MIN_BRIGHTNESS), Color::new(76, 76, 76));
    // a full low byte keeps the base color
    assert_eq!(ship.scale(FX_ONE), ship);
}
