use solar_simulation::color::Color;
use solar_simulation::fixed::FX_ONE;
use solar_simulation::framebuffer::DEPTH_FAR;
use solar_simulation::framebuffer::Framebuffer;
use solar_simulation::render::apply_emissive_postprocess;
use solar_simulation::render::render;
use solar_simulation::render::render_celestial_body;
use solar_simulation::shaders::ConstNoise;
use solar_simulation::shaders::Material;
use solar_simulation::shaders::Uniforms;
use solar_simulation::shaders::vertex_shader;
use solar_simulation::vecmat::Mat4Fx;
use solar_simulation::vecmat::Vec3Fx;
use solar_simulation::vecmat::viewport_matrix;
use solar_simulation::vertex::Vertex;

fn identity4() -> Mat4Fx {
    Mat4Fx {
        m00: FX_ONE,
        m01: 0,
        m02: 0,
        m03: 0,
        m10: 0,
        m11: FX_ONE,
        m12: 0,
        m13: 0,
        m20: 0,
        m21: 0,
        m22: FX_ONE,
        m23: 0,
        m30: 0,
        m31: 0,
        m32: 0,
        m33: FX_ONE,
    }
}

fn screen_uniforms(side: i64, time: u32) -> Uniforms<ConstNoise> {
    Uniforms {
        model_matrix: identity4(),
        view_matrix: identity4(),
        projection_matrix: identity4(),
        viewport_matrix: viewport_matrix(side, side),
        time,
        noise: ConstNoise { value: 0 },
    }
}

fn fx(v: f64) -> i64 {
    (v * 65536.0) as i64
}

#[test]
fn vertex_shader_is_identity_under_identity_matrices() {
    let u = Uniforms {
        model_matrix: identity4(),
        view_matrix: identity4(),
        projection_matrix: identity4(),
        viewport_matrix: identity4(),
        time: 0,
        noise: ConstNoise { value: 0 },
    };
    let v = Vertex::new(
        Vec3Fx { x: FX_ONE, y: 2 * FX_ONE, z: 3 * FX_ONE },
        Vec3Fx { x: 0, y: 0, z: FX_ONE },
    );
    let t = vertex_shader(&v, &u);
    assert_eq!(t.transformed_position, v.position);
    assert_eq!(t.transformed_normal, v.normal);
    assert_eq!(t.position, v.position);
    assert_eq!(t.color, v.color);
}

#[test]
fn vertex_shader_maps_the_origin_to_the_viewport_center() {
    let u = screen_uniforms(8, 0);
    let v = Vertex::new(Vec3Fx { x: 0, y: 0, z: 0 }, Vec3Fx { x: 0, y: 0, z: FX_ONE });
    let t = vertex_shader(&v, &u);
    assert_eq!(t.transformed_position.x, 4 * FX_ONE);
    assert_eq!(t.transformed_position.y, 4 * FX_ONE);
    assert_eq!(t.transformed_position.z, 0);
}

fn corner_triangle() -> Vec<Vertex> {
    let n = Vec3Fx { x: 0, y: 0, z: FX_ONE };
    vec![
        Vertex::new(Vec3Fx { x: fx(-0.9), y: fx(-0.9), z: 0 }, n),
        Vertex::new(Vec3Fx { x: fx(-0.9), y: fx(0.9), z: 0 }, n),
        Vertex::new(Vec3Fx { x: fx(0.9), y: fx(-0.9), z: 0 }, n),
    ]
}

#[test]
fn render_celestial_body_commits_depth_tested_fragments() {
    let mut fb = Framebuffer::new(8, 8);
    let u = screen_uniforms(8, 0);
    let verts = corner_triangle();
    render_celestial_body(&mut fb, &verts, &u, Material::RockyPlanet);
    let idx = 1 * 8 + 1;
    assert!(fb.zbuffer[idx] < DEPTH_FAR, "pixel (1,1) must have been drawn");
    assert_ne!(fb.buffer[idx], 0, "a lit rocky surface is not black");
    // the far corner stays untouched
    let far = 7 * 8 + 7;
    assert_eq!(fb.zbuffer[far], DEPTH_FAR);
    assert_eq!(fb.buffer[far], 0);
}

#[test]
fn render_with_default_shader_runs_the_same_pass() {
    let mut fb = Framebuffer::new(8, 8);
    let u = screen_uniforms(8, 3);
    let verts = corner_triangle();
    render(&mut fb, &u, &verts);
    let idx = 1 * 8 + 1;
    assert!(fb.zbuffer[idx] < DEPTH_FAR);
    let c = Color::new(255, 255, 255).to_hex();
    assert!(fb.buffer[idx] == 0 || fb.buffer[idx] == c, "speckle is black or white");
}

#[test]
fn leftover_vertices_do_not_form_a_triangle() {
    let mut fb = Framebuffer::new(8, 8);
    let u = screen_uniforms(8, 0);
    let mut verts = corner_triangle();
    verts.truncate(2);
    render_celestial_body(&mut fb, &verts, &u, Material::Moon);
    assert!(fb.zbuffer.iter().all(|&d| d == DEPTH_FAR));
}

#[test]
fn bloom_spreads_one_emissive_pixel_over_its_neighborhood() {
    let mut fb = Framebuffer::new(5, 5);
    let v: u32 = 0x0A141E;
    fb.emissive_point(2, 2, v, 0);
    apply_emissive_postprocess(&mut fb);
    for y in 0..5usize {
        for x in 0..5usize {
            let expected = if (1..=3).contains(&x) && (1..=3).contains(&y) {
                v
            } else {
                0
            };
            assert_eq!(fb.buffer[y * 5 + x], expected, "pixel ({},{})", x, y);
        }
    }
    // the emissive plane itself is untouched
    assert_eq!(fb.emissive_buffer[2 * 5 + 2], v);
}

#[test]
fn bloom_clips_the_neighborhood_at_the_corner() {
    let mut fb = Framebuffer::new(4, 4);
    let v: u32 = 0x0A141E;
    fb.emissive_point(0, 0, v, 0);
    apply_emissive_postprocess(&mut fb);
    for y in 0..4usize {
        for x in 0..4usize {
            let expected = if x <= 1 && y <= 1 { v } else { 0 };
            assert_eq!(fb.buffer[y * 4 + x], expected, "pixel ({},{})", x, y);
        }
    }
}

#[test]
fn bloom_saturates_per_channel_without_wrapping() {
    let mut fb = Framebuffer::new(5, 5);
    let v = Color::new(200, 10, 0).to_hex();
    fb.emissive_point(1, 1, v, 0);
    fb.emissive_point(2, 1, v, 0);
    apply_emissive_postprocess(&mut fb);
    // pixel (2,1) sees both emissive sources: red saturates at 255
    assert_eq!(fb.buffer[1 * 5 + 2], Color::new(255, 20, 0).to_hex());
    // pixel (0,1) sees only one
    assert_eq!(fb.buffer[1 * 5 + 0], v);
}

#[test]
fn degenerate_model_matrix_falls_back_to_identity_normals() {
    let zero = Mat4Fx {
        m00: 0,
        m01: 0,
        m02: 0,
        m03: 0,
        m10: 0,
        m11: 0,
        m12: 0,
        m13: 0,
        m20: 0,
        m21: 0,
        m22: 0,
        m23: 0,
        m30: 0,
        m31: 0,
        m32: 0,
        m33: 0,
    };
    let u = Uniforms {
        model_matrix: zero,
        view_matrix: identity4(),
        projection_matrix: identity4(),
        viewport_matrix: identity4(),
        time: 0,
        noise: ConstNoise { value: 0 },
    };
    let n = Vec3Fx { x: FX_ONE / 2, y: FX_ONE / 4, z: FX_ONE };
    let v = Vertex::new(Vec3Fx { x: FX_ONE, y: FX_ONE, z: FX_ONE }, n);
    let t = vertex_shader(&v, &u);
    // the zero linear part is not invertible: the normal passes through
    assert_eq!(t.transformed_normal, n);
    // and the zero w of the transformed position is treated as one
    assert_eq!(t.transformed_position, Vec3Fx { x: 0, y: 0, z: 0 });
}

#[test]
fn new_vertices_carry_the_white_base_color() {
    let v = Vertex::new(Vec3Fx { x: 1, y: 2, z: 3 }, Vec3Fx { x: 0, y: 0, z: FX_ONE });
    assert_eq!(v.color, solar_simulation::color::Color::new(255, 255, 255));
    assert_eq!(v.tex_coords.x, 0);
    assert_eq!(v.tex_coords.y, 0);
    assert_eq!(v.transformed_position, Vec3Fx { x: 0, y: 0, z: 0 });
}

#[test]
fn model_matrix_with_no_rotation_is_scale_and_translation() {
    let m = solar_simulation::vecmat::model_matrix(
        Vec3Fx { x: 3 * FX_ONE, y: 4 * FX_ONE, z: 5 * FX_ONE },
        2 * FX_ONE,
        0,
        FX_ONE,
        0,
        FX_ONE,
        0,
        FX_ONE,
    );
    assert_eq!(m.m00, 2 * FX_ONE);
    assert_eq!(m.m11, 2 * FX_ONE);
    assert_eq!(m.m22, 2 * FX_ONE);
    assert_eq!(m.m03, 3 * FX_ONE);
    assert_eq!(m.m13, 4 * FX_ONE);
    assert_eq!(m.m23, 5 * FX_ONE);
    assert_eq!(m.m33, FX_ONE);
    assert_eq!(m.m01, 0);
    assert_eq!(m.m10, 0);
}

#[test]
fn model_matrix_quarter_turn_about_y_swaps_x_and_z() {
    // sine 1, cosine 0: the x axis maps to (0, 0, -1) and z to (1, 0, 0)
    let m = solar_simulation::vecmat::model_matrix(
        Vec3Fx { x: 0, y: 0, z: 0 },
        FX_ONE,
        0,
        FX_ONE,
        FX_ONE,
        0,
        0,
        FX_ONE,
    );
    assert_eq!(m.m00, 0);
    assert_eq!(m.m02, FX_ONE);
    assert_eq!(m.m20, -FX_ONE);
    assert_eq!(m.m22, 0);
    assert_eq!(m.m11, FX_ONE);
}
