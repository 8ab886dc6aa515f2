//! The transform and shading stages.
//!
//! `vertex_shader` carries an object-space vertex through
//! model/view/projection space, the perspective divide, and the viewport
//! map, and rotates its normal by the inverse-transpose of the model's
//! linear part (falling back to the identity when that part is not
//! invertible). The fragment shaders are procedural materials over a
//! fragment, the frame time, and a coherent-noise sampler; each one is a
//! pure function of those inputs, stated exactly by its specification.
//!
//! The noise sampler is an external capability (the pipeline never
//! constructs one): the `NoiseSampler` trait binds each sample to a
//! per-implementation specification function, so shading is deterministic
//! for every sampler whose sampling is.

use vstd::prelude::*;
use crate::color::Color;
use crate::color::spec_lerp;
use crate::color::spec_scale;
use crate::fixed::Fx;
use crate::fixed::FX_HALF;
use crate::fixed::FX_ONE;
use crate::fixed::fx_abs;
use crate::fixed::fx_add;
use crate::fixed::fx_bounded;
use crate::fixed::fx_clamp;
use crate::fixed::fx_div;
use crate::fixed::fx_from_int;
use crate::fixed::fx_max;
use crate::fixed::fx_mul;
use crate::fixed::fx_sin;
use crate::fixed::fx_sqrt;
use crate::fixed::fx_trunc;
use crate::fixed::sfx_abs;
use crate::fixed::sfx_add;
use crate::fixed::sfx_clamp;
use crate::fixed::sfx_div;
use crate::fixed::sfx_from_int;
use crate::fixed::sfx_mul;
use crate::fixed::sfx_sin;
use crate::fixed::sfx_sqrt;
use crate::fixed::sfx_trunc;
use crate::fragment::Fragment;
use crate::fragment::fragment_bounded;
use crate::vecmat::Mat4Fx;
use crate::vecmat::Vec3Fx;
use crate::vecmat::Vec4Fx;
use crate::vecmat::mat3_inverse_or_identity;
use crate::vecmat::mat3_of_mat4;
use crate::vecmat::mat3_transpose;
use crate::vecmat::mat3_vec3;
use crate::vecmat::mat4_bounded;
use crate::vecmat::mat4_mul;
use crate::vecmat::mat4_vec4;
use crate::vecmat::normalize3;
use crate::vecmat::dot3;
use crate::vecmat::spec_dot3;
use crate::vecmat::spec_mat3_inverse_or_identity;
use crate::vecmat::spec_mat3_of_mat4;
use crate::vecmat::spec_mat3_transpose;
use crate::vecmat::spec_mat3_vec3;
use crate::vecmat::spec_mat4_mul;
use crate::vecmat::spec_mat4_vec4;
use crate::vecmat::spec_normalize3;
use crate::vertex::Vertex;
use crate::vertex::vertex_bounded;

verus! {

/// The coherent-noise capability the shading stage reads: deterministic
/// 2D and 3D samples, each pinned to the implementation's own
/// specification function.
pub trait NoiseSampler {
    /// The value this sampler yields at a 2D point. Implementations
    /// inside the library override this; an outside implementation may
    /// leave it at the default, about which nothing is known.
    open spec fn spec_sample2(&self, x: Fx, y: Fx) -> Fx {
        vstd::pervasive::arbitrary()
    }

    /// The value this sampler yields at a 3D point.
    open spec fn spec_sample3(&self, x: Fx, y: Fx, z: Fx) -> Fx {
        vstd::pervasive::arbitrary()
    }

    /// Samples the noise field at a 2D point.
    fn sample2(&self, x: Fx, y: Fx) -> (r: Fx)
        ensures
            r == self.spec_sample2(x, y),
    ;

    /// Samples the noise field at a 3D point.
    fn sample3(&self, x: Fx, y: Fx, z: Fx) -> (r: Fx)
        ensures
            r == self.spec_sample3(x, y, z),
    ;
}

/// A stub sampler that answers every query with one fixed value; used to
/// exercise shader thresholds deterministically.
#[derive(Debug, Clone, Copy, PartialEq, Eq, Structural)]
pub struct ConstNoise {
    pub value: Fx,
}

impl NoiseSampler for ConstNoise {
    open spec fn spec_sample2(&self, x: Fx, y: Fx) -> Fx {
        self.value
    }

    open spec fn spec_sample3(&self, x: Fx, y: Fx, z: Fx) -> Fx {
        self.value
    }

    fn sample2(&self, x: Fx, y: Fx) -> (r: Fx) {
        self.value
    }

    fn sample3(&self, x: Fx, y: Fx, z: Fx) -> (r: Fx) {
        self.value
    }
}

/// The per-frame read-only context: the four transform matrices, the
/// frame time, and the noise sampler.
pub struct Uniforms<N> {
    pub model_matrix: Mat4Fx,
    pub view_matrix: Mat4Fx,
    pub projection_matrix: Mat4Fx,
    pub viewport_matrix: Mat4Fx,
    pub time: u32,
    pub noise: N,
}

/// All four matrices within the fixed-point range.
pub open spec fn uniforms_bounded<N>(u: Uniforms<N>) -> bool {
    &&& mat4_bounded(u.model_matrix)
    &&& mat4_bounded(u.view_matrix)
    &&& mat4_bounded(u.projection_matrix)
    &&& mat4_bounded(u.viewport_matrix)
}

/// The vertex transform: `projection * view * model` applied to the
/// homogenized position, the perspective divide (a zero `w` is treated as
/// one, keeping the stage total), the viewport map, and the normal
/// rotated by the inverse-transpose of the model's linear part (identity
/// when that part has zero fixed-point determinant).
#[verifier::opaque]
pub open spec fn spec_vertex_shader<N>(v: Vertex, u: Uniforms<N>) -> Vertex {
    let pos4 = Vec4Fx { x: v.position.x, y: v.position.y, z: v.position.z, w: FX_ONE };
    let pv = spec_mat4_mul(u.projection_matrix, u.view_matrix);
    let pvm = spec_mat4_mul(pv, u.model_matrix);
    let t = spec_mat4_vec4(pvm, pos4);
    let dw = if t.w == 0 {
        FX_ONE
    } else {
        t.w
    };
    let divided = Vec4Fx { x: sfx_div(t.x, dw), y: sfx_div(t.y, dw), z: sfx_div(t.z, dw), w: FX_ONE };
    let screen = spec_mat4_vec4(u.viewport_matrix, divided);
    let nm = spec_mat3_inverse_or_identity(spec_mat3_transpose(spec_mat3_of_mat4(u.model_matrix)));
    let tn = spec_mat3_vec3(nm, v.normal);
    Vertex {
        transformed_position: Vec3Fx { x: screen.x, y: screen.y, z: screen.z },
        transformed_normal: tn,
        ..v
    }
}

/// Transforms one vertex into screen space; pure in its inputs.
#[verifier::rlimit(100)]
pub fn vertex_shader<N>(vertex: &Vertex, uniforms: &Uniforms<N>) -> (r: Vertex)
    requires
        vertex_bounded(*vertex),
        uniforms_bounded(*uniforms),
    ensures
        r == spec_vertex_shader(*vertex, *uniforms),
        vertex_bounded(r),
{
    proof {
        reveal(spec_vertex_shader);
    }
    let pos4 = Vec4Fx {
        x: vertex.position.x,
        y: vertex.position.y,
        z: vertex.position.z,
        w: FX_ONE,
    };
    let pv = mat4_mul(&uniforms.projection_matrix, &uniforms.view_matrix);
    let pvm = mat4_mul(&pv, &uniforms.model_matrix);
    let t = mat4_vec4(&pvm, &pos4);
    let dw: Fx = if t.w == 0 {
        FX_ONE
    } else {
        t.w
    };
    let divided = Vec4Fx {
        x: fx_div(t.x, dw),
        y: fx_div(t.y, dw),
        z: fx_div(t.z, dw),
        w: FX_ONE,
    };
    let screen = mat4_vec4(&uniforms.viewport_matrix, &divided);
    let nm = mat3_inverse_or_identity(&mat3_transpose(&mat3_of_mat4(&uniforms.model_matrix)));
    let tn = mat3_vec3(&nm, &vertex.normal);
    Vertex {
        position: vertex.position,
        normal: vertex.normal,
        tex_coords: vertex.tex_coords,
        color: vertex.color,
        transformed_position: Vec3Fx { x: screen.x, y: screen.y, z: screen.z },
        transformed_normal: tn,
    }
}

/// The materials of the shading stage, dispatched per scene object.
#[derive(Debug, Clone, Copy, PartialEq, Eq, Structural)]
pub enum Material {
    Star,
    RockyPlanet,
    GasGiant,
    RingedPlanet,
    Moon,
    Meteor,
    Earth,
}

/// The noise-driven percentage behind the default fragment shader.
/// Relied on: rand's `StdRng::seed_from_u64` builds its generator by a
/// pure computation on the seed, and `Rng::gen_range(0..=100)` draws from
/// the generator stream alone, so the value is a function of the seed.
pub uninterp spec fn rand_percent_of(seed: u64) -> u8;

/// Relies on rand's `StdRng::seed_from_u64` and `Rng::gen_range`: both
/// are deterministic in the seed, and the drawn value lies in `0..=100`
/// (`gen_range` samples uniformly from the given inclusive range).
#[verifier::external_body]
fn rand_percent(seed: u64) -> (r: u8)
    ensures
        r == rand_percent_of(seed),
        r <= 100,
{
    let mut rng: rand::rngs::StdRng = rand::SeedableRng::seed_from_u64(seed);
    rand::Rng::gen_range(&mut rng, 0..=100u8)
}

/// The seed the default shader derives from the frame time and the
/// fragment's shading position: the integer part of `|time * y * x|`.
pub open spec fn spec_bw_seed<N>(f: Fragment, u: Uniforms<N>) -> u64 {
    sfx_trunc(
        sfx_abs(sfx_mul(sfx_mul(sfx_from_int(u.time as i64), f.vertex_position.y), f.vertex_position.x)),
    ) as u64
}

/// The default fragment shader: black or white, chosen by a seeded random
/// percentage, scaled by the fragment's lighting factor.
#[verifier::opaque]
pub open spec fn spec_fragment_shader<N>(f: Fragment, u: Uniforms<N>) -> Color {
    let c = if rand_percent_of(spec_bw_seed(f, u)) < 50 {
        Color { r: 0, g: 0, b: 0 }
    } else {
        Color { r: 255, g: 255, b: 255 }
    };
    spec_scale(c, f.intensity)
}

fn black_and_white<N>(fragment: &Fragment, uniforms: &Uniforms<N>) -> (c: Color)
    requires
        fragment_bounded(*fragment),
    ensures
        c == spec_fragment_shader(*fragment, *uniforms),
{
    proof {
        reveal(spec_fragment_shader);
    }
    let sf: Fx = fx_mul(
        fx_mul(fx_from_int(uniforms.time as i64), fragment.vertex_position.y),
        fragment.vertex_position.x,
    );
    let seed: i64 = fx_trunc(fx_abs(sf));
    let pct: u8 = rand_percent(seed as u64);
    let black_or_white = if pct < 50 {
        Color::new(0, 0, 0)
    } else {
        Color::new(255, 255, 255)
    };
    black_or_white.scale(fragment.intensity)
}

/// The default fragment shader: a black-or-white speckle seeded from the
/// fragment position and the frame time, scaled by the lighting factor.
pub fn fragment_shader<N>(fragment: &Fragment, uniforms: &Uniforms<N>) -> (c: Color)
    requires
        fragment_bounded(*fragment),
    ensures
        c == spec_fragment_shader(*fragment, *uniforms),
{
    black_and_white(fragment, uniforms)
}

/// The star material: noise sampled at the zoomed shading position with a
/// sinusoidal pulsation of the z coordinate, blended from a dark to a
/// bright base color; above the brightness threshold the full blend comes
/// back (the emissive candidate), below it the blend at half intensity.
#[verifier::opaque]
pub open spec fn spec_star_shader<N: NoiseSampler>(f: Fragment, u: Uniforms<N>) -> Color {
    let bright = Color { r: 255, g: 240, b: 0 };
    let dark = Color { r: 130, g: 20, b: 0 };
    let t = sfx_mul(sfx_from_int(u.time as i64), 655);
    let pulsate = sfx_mul(sfx_sin(sfx_mul(t, 13107)), 32768);
    let zoom = 65536000int as i64;
    let nv = u.noise.spec_sample3(
        sfx_mul(f.vertex_position.x, zoom),
        sfx_mul(f.vertex_position.y, zoom),
        sfx_mul(sfx_add(f.depth, pulsate), zoom),
    );
    let c = spec_lerp(dark, bright, nv);
    if nv > 45875 {
        c
    } else {
        spec_scale(c, 32768)
    }
}

/// The star material's brightness threshold (`0.7` in fixed-point).
pub const STAR_THRESHOLD: i64 = 45875;

/// The star material.
pub fn star_shader<N: NoiseSampler>(fragment: &Fragment, uniforms: &Uniforms<N>) -> (c: Color)
    requires
        fragment_bounded(*fragment),
    ensures
        c == spec_star_shader(*fragment, *uniforms),
{
    proof {
        reveal(spec_star_shader);
    }
    let bright_color = Color::new(255, 240, 0);
    let dark_color = Color::new(130, 20, 0);
    let t: Fx = fx_mul(fx_from_int(uniforms.time as i64), 655);
    let pulsate: Fx = fx_mul(fx_sin(fx_mul(t, 13107)), 32768);
    let zoom: Fx = 65536000;
    let nv: Fx = uniforms.noise.sample3(
        fx_mul(fragment.vertex_position.x, zoom),
        fx_mul(fragment.vertex_position.y, zoom),
        fx_mul(fx_add(fragment.depth, pulsate), zoom),
    );
    let color = dark_color.lerp(&bright_color, nv);
    if nv > STAR_THRESHOLD {
        color
    } else {
        color.scale(32768)
    }
}

/// The earth material: a terrain/ocean split from one surface noise
/// sample, a cloud blend above a second threshold, and the fragment's
/// lighting factor.
#[verifier::opaque]
pub open spec fn spec_earth_shader<N: NoiseSampler>(f: Fragment, u: Uniforms<N>) -> Color {
    let earth_green = Color { r: 34, g: 139, b: 34 };
    let ocean_blue = Color { r: 70, g: 130, b: 180 };
    let cloud_color = Color { r: 255, g: 255, b: 255 };
    let zoom = 6553600int as i64;
    let t = sfx_mul(sfx_from_int(u.time as i64), 655);
    let x = f.vertex_position.x;
    let y = f.vertex_position.y;
    let surface = u.noise.spec_sample2(
        sfx_add(sfx_mul(x, zoom), t),
        sfx_add(sfx_mul(y, zoom), t),
    );
    let base = if surface > 19661 {
        earth_green
    } else {
        ocean_blue
    };
    let drift = sfx_mul(t, 6554);
    let clouds = u.noise.spec_sample2(
        sfx_mul(sfx_add(x, drift), zoom),
        sfx_mul(sfx_add(y, drift), zoom),
    );
    let mixed = if clouds > 39322 {
        spec_lerp(base, cloud_color, 19661)
    } else {
        base
    };
    spec_scale(mixed, f.intensity)
}

/// The earth material.
pub fn earth_shader<N: NoiseSampler>(fragment: &Fragment, uniforms: &Uniforms<N>) -> (c: Color)
    requires
        fragment_bounded(*fragment),
    ensures
        c == spec_earth_shader(*fragment, *uniforms),
{
    proof {
        reveal(spec_earth_shader);
    }
    let earth_green = Color::new(34, 139, 34);
    let ocean_blue = Color::new(70, 130, 180);
    let cloud_color = Color::new(255, 255, 255);
    let zoom: Fx = 6553600;
    let t: Fx = fx_mul(fx_from_int(uniforms.time as i64), 655);
    let x: Fx = fragment.vertex_position.x;
    let y: Fx = fragment.vertex_position.y;
    let surface: Fx = uniforms.noise.sample2(
        fx_add(fx_mul(x, zoom), t),
        fx_add(fx_mul(y, zoom), t),
    );
    let mut color = if surface > 19661 {
        earth_green
    } else {
        ocean_blue
    };
    let drift: Fx = fx_mul(t, 6554);
    let clouds: Fx = uniforms.noise.sample2(
        fx_mul(fx_add(x, drift), zoom),
        fx_mul(fx_add(y, drift), zoom),
    );
    if clouds > 39322 {
        color = color.lerp(&cloud_color, 19661);
    }
    color.scale(fragment.intensity)
}

/// A 3D noise sample mapped from `[-1, 1]` to `[0, 1]`: clamped, raised
/// by one, halved.
pub open spec fn spec_unit_noise3<N: NoiseSampler>(u: Uniforms<N>, x: Fx, y: Fx, z: Fx) -> Fx {
    sfx_mul(sfx_add(sfx_clamp(u.noise.spec_sample3(x, y, z)), FX_ONE), FX_HALF)
}

fn unit_noise3<N: NoiseSampler>(uniforms: &Uniforms<N>, x: Fx, y: Fx, z: Fx) -> (r: Fx)
    ensures
        r == spec_unit_noise3(*uniforms, x, y, z),
        fx_bounded(r),
{
    fx_mul(fx_add(fx_clamp(uniforms.noise.sample3(x, y, z)), FX_ONE), FX_HALF)
}

/// Diffuse lighting: the dot product of the normalized fragment normal
/// with the normalized light direction, floored at `min_intensity`.
pub open spec fn spec_diffuse(normal: Vec3Fx, light: Vec3Fx, min_intensity: Fx) -> Fx {
    let d = spec_dot3(spec_normalize3(normal), spec_normalize3(light));
    if d >= min_intensity {
        d
    } else {
        min_intensity
    }
}

fn diffuse(normal: &Vec3Fx, light: &Vec3Fx, min_intensity: Fx) -> (r: Fx)
    requires
        crate::vecmat::vec3_bounded(*normal),
        crate::vecmat::vec3_bounded(*light),
        fx_bounded(min_intensity),
    ensures
        r == spec_diffuse(*normal, *light, min_intensity),
        fx_bounded(r),
{
    let n = normalize3(normal);
    let l = normalize3(light);
    let d: Fx = dot3(&n, &l);
    fx_max(d, min_intensity)
}

/// The moon material: a rocky base layer under a crater layer, a hot-edge
/// glow layer driven by a slow time drift, then diffuse lighting floored
/// at `0.3`.
#[verifier::opaque]
pub open spec fn spec_moon_shader<N: NoiseSampler>(f: Fragment, u: Uniforms<N>) -> Color {
    let p = f.vertex_position;
    let t = sfx_mul(sfx_from_int(u.time as i64), 66);
    let rock = spec_unit_noise3(u, sfx_mul(p.x, 131072), sfx_mul(p.y, 131072), sfx_mul(p.z, 131072));
    let base_rock = if rock > 39322 {
        Color { r: 105, g: 105, b: 105 }
    } else {
        Color { r: 169, g: 169, b: 169 }
    };
    let crater = spec_unit_noise3(u, sfx_mul(p.x, 655360), sfx_mul(p.y, 655360), sfx_mul(p.z, 655360));
    let surface = if crater < 19661 {
        Color { r: 60, g: 60, b: 60 }
    } else {
        base_rock
    };
    let glow = spec_unit_noise3(
        u,
        sfx_add(sfx_mul(p.x, 32768), t),
        sfx_add(sfx_mul(p.y, 32768), t),
        sfx_add(sfx_mul(p.z, 32768), t),
    );
    let lit = if glow > 45875 {
        Color { r: 255, g: 69, b: 0 }
    } else {
        surface
    };
    let light = Vec3Fx { x: FX_ONE, y: FX_ONE, z: FX_ONE };
    spec_scale(lit, spec_diffuse(f.normal, light, 19661))
}

/// The moon material.
pub fn moon_shader<N: NoiseSampler>(fragment: &Fragment, uniforms: &Uniforms<N>) -> (c: Color)
    requires
        fragment_bounded(*fragment),
    ensures
        c == spec_moon_shader(*fragment, *uniforms),
{
    proof {
        reveal(spec_moon_shader);
    }
    let p = fragment.vertex_position;
    let t: Fx = fx_mul(fx_from_int(uniforms.time as i64), 66);
    let rock: Fx = unit_noise3(
        uniforms,
        fx_mul(p.x, 131072),
        fx_mul(p.y, 131072),
        fx_mul(p.z, 131072),
    );
    let base_rock = if rock > 39322 {
        Color::new(105, 105, 105)
    } else {
        Color::new(169, 169, 169)
    };
    let crater: Fx = unit_noise3(
        uniforms,
        fx_mul(p.x, 655360),
        fx_mul(p.y, 655360),
        fx_mul(p.z, 655360),
    );
    let surface = if crater < 19661 {
        Color::new(60, 60, 60)
    } else {
        base_rock
    };
    let glow: Fx = unit_noise3(
        uniforms,
        fx_add(fx_mul(p.x, 32768), t),
        fx_add(fx_mul(p.y, 32768), t),
        fx_add(fx_mul(p.z, 32768), t),
    );
    let lit = if glow > 45875 {
        Color::new(255, 69, 0)
    } else {
        surface
    };
    let light = Vec3Fx { x: FX_ONE, y: FX_ONE, z: FX_ONE };
    let intensity: Fx = diffuse(&fragment.normal, &light, 19661);
    lit.scale(intensity)
}

/// The meteor material: like the moon's layers at higher frequencies,
/// with a stricter hot-edge threshold.
#[verifier::opaque]
pub open spec fn spec_meteor_shader<N: NoiseSampler>(f: Fragment, u: Uniforms<N>) -> Color {
    let p = f.vertex_position;
    let t = sfx_mul(sfx_from_int(u.time as i64), 66);
    let rock = spec_unit_noise3(u, sfx_mul(p.x, 196608), sfx_mul(p.y, 196608), sfx_mul(p.z, 196608));
    let base_rock = if rock > 32768 {
        Color { r: 105, g: 105, b: 105 }
    } else {
        Color { r: 169, g: 169, b: 169 }
    };
    let crater = spec_unit_noise3(u, sfx_mul(p.x, 983040), sfx_mul(p.y, 983040), sfx_mul(p.z, 983040));
    let surface = if crater < 26214 {
        Color { r: 60, g: 60, b: 60 }
    } else {
        base_rock
    };
    let glow = spec_unit_noise3(
        u,
        sfx_add(sfx_mul(p.x, 32768), t),
        sfx_add(sfx_mul(p.y, 32768), t),
        sfx_add(sfx_mul(p.z, 32768), t),
    );
    let lit = if glow > 52429 {
        Color { r: 255, g: 69, b: 0 }
    } else {
        surface
    };
    let light = Vec3Fx { x: FX_ONE, y: FX_ONE, z: FX_ONE };
    spec_scale(lit, spec_diffuse(f.normal, light, 19661))
}

/// The meteor material.
pub fn meteor_shader<N: NoiseSampler>(fragment: &Fragment, uniforms: &Uniforms<N>) -> (c: Color)
    requires
        fragment_bounded(*fragment),
    ensures
        c == spec_meteor_shader(*fragment, *uniforms),
{
    proof {
        reveal(spec_meteor_shader);
    }
    let p = fragment.vertex_position;
    let t: Fx = fx_mul(fx_from_int(uniforms.time as i64), 66);
    let rock: Fx = unit_noise3(
        uniforms,
        fx_mul(p.x, 196608),
        fx_mul(p.y, 196608),
        fx_mul(p.z, 196608),
    );
    let base_rock = if rock > 32768 {
        Color::new(105, 105, 105)
    } else {
        Color::new(169, 169, 169)
    };
    let crater: Fx = unit_noise3(
        uniforms,
        fx_mul(p.x, 983040),
        fx_mul(p.y, 983040),
        fx_mul(p.z, 983040),
    );
    let surface = if crater < 26214 {
        Color::new(60, 60, 60)
    } else {
        base_rock
    };
    let glow: Fx = unit_noise3(
        uniforms,
        fx_add(fx_mul(p.x, 32768), t),
        fx_add(fx_mul(p.y, 32768), t),
        fx_add(fx_mul(p.z, 32768), t),
    );
    let lit = if glow > 52429 {
        Color::new(255, 69, 0)
    } else {
        surface
    };
    let light = Vec3Fx { x: FX_ONE, y: FX_ONE, z: FX_ONE };
    let intensity: Fx = diffuse(&fragment.normal, &light, 19661);
    lit.scale(intensity)
}

/// The rocky-planet material: a low-frequency base color layer, darker
/// cracks where a high-frequency layer falls below its threshold, and
/// diffuse lighting floored at `0.2`.
#[verifier::opaque]
pub open spec fn spec_rocky_planet_shader<N: NoiseSampler>(f: Fragment, u: Uniforms<N>) -> Color {
    let p = f.vertex_position;
    let base = spec_unit_noise3(u, sfx_mul(p.x, 131072), sfx_mul(p.y, 131072), sfx_mul(p.z, 131072));
    let base_color = if base > 32768 {
        Color { r: 139, g: 69, b: 19 }
    } else {
        Color { r: 205, g: 133, b: 63 }
    };
    let crack = spec_unit_noise3(u, sfx_mul(p.x, 655360), sfx_mul(p.y, 655360), sfx_mul(p.z, 655360));
    let surface = if crack < 19661 {
        Color { r: 80, g: 40, b: 20 }
    } else {
        base_color
    };
    let light = Vec3Fx { x: FX_ONE, y: 52429, z: 39322 };
    spec_scale(surface, spec_diffuse(f.normal, light, 13107))
}

/// The rocky-planet material.
pub fn rocky_planet_shader<N: NoiseSampler>(fragment: &Fragment, uniforms: &Uniforms<N>) -> (c:
    Color)
    requires
        fragment_bounded(*fragment),
    ensures
        c == spec_rocky_planet_shader(*fragment, *uniforms),
{
    proof {
        reveal(spec_rocky_planet_shader);
    }
    let p = fragment.vertex_position;
    let base: Fx = unit_noise3(
        uniforms,
        fx_mul(p.x, 131072),
        fx_mul(p.y, 131072),
        fx_mul(p.z, 131072),
    );
    let base_color = if base > 32768 {
        Color::new(139, 69, 19)
    } else {
        Color::new(205, 133, 63)
    };
    let crack: Fx = unit_noise3(
        uniforms,
        fx_mul(p.x, 655360),
        fx_mul(p.y, 655360),
        fx_mul(p.z, 655360),
    );
    let surface = if crack < 19661 {
        Color::new(80, 40, 20)
    } else {
        base_color
    };
    let light = Vec3Fx { x: FX_ONE, y: 52429, z: 39322 };
    let intensity: Fx = diffuse(&fragment.normal, &light, 13107);
    surface.scale(intensity)
}

/// The gas-giant material: horizontal gas bands from one noise layer, a
/// swirl layer with the time folded in as the third coordinate, and
/// diffuse lighting floored at `0.4`.
#[verifier::opaque]
pub open spec fn spec_gas_giant_shader<N: NoiseSampler>(f: Fragment, u: Uniforms<N>) -> Color {
    let p = f.vertex_position;
    let t = sfx_mul(sfx_from_int(u.time as i64), 131);
    let band = sfx_abs(sfx_clamp(u.noise.spec_sample2(
        sfx_mul(p.x, 32768),
        sfx_add(sfx_mul(p.y, 327680), t),
    )));
    let band_color = if band < 32768 {
        Color { r: 255, g: 204, b: 153 }
    } else {
        Color { r: 204, g: 153, b: 102 }
    };
    let swirl = sfx_abs(sfx_clamp(u.noise.spec_sample3(
        sfx_mul(p.x, 131072),
        sfx_mul(p.y, 131072),
        t,
    )));
    let swirl_color = if swirl > 39322 {
        Color { r: 255, g: 255, b: 204 }
    } else {
        band_color
    };
    let light = Vec3Fx { x: FX_ONE, y: -32768i64, z: 19661 };
    spec_scale(swirl_color, spec_diffuse(f.normal, light, 26214))
}

/// The gas-giant material.
pub fn gas_giant_shader<N: NoiseSampler>(fragment: &Fragment, uniforms: &Uniforms<N>) -> (c: Color)
    requires
        fragment_bounded(*fragment),
    ensures
        c == spec_gas_giant_shader(*fragment, *uniforms),
{
    proof {
        reveal(spec_gas_giant_shader);
    }
    let p = fragment.vertex_position;
    let t: Fx = fx_mul(fx_from_int(uniforms.time as i64), 131);
    let band: Fx = fx_abs(fx_clamp(uniforms.noise.sample2(
        fx_mul(p.x, 32768),
        fx_add(fx_mul(p.y, 327680), t),
    )));
    let band_color = if band < 32768 {
        Color::new(255, 204, 153)
    } else {
        Color::new(204, 153, 102)
    };
    let swirl: Fx = fx_abs(fx_clamp(uniforms.noise.sample3(
        fx_mul(p.x, 131072),
        fx_mul(p.y, 131072),
        t,
    )));
    let swirl_color = if swirl > 39322 {
        Color::new(255, 255, 204)
    } else {
        band_color
    };
    let light = Vec3Fx { x: FX_ONE, y: -32768i64, z: 19661 };
    let intensity: Fx = diffuse(&fragment.normal, &light, 26214);
    swirl_color.scale(intensity)
}

/// The ringed-planet material: purely geometric — the radial distance in
/// the XY plane selects either a sine-banded ring pattern inside the
/// annulus or the solid planet color outside it. No lighting term.
#[verifier::opaque]
pub open spec fn spec_ringed_planet_shader<N>(f: Fragment, u: Uniforms<N>) -> Color {
    let p = f.vertex_position;
    let d = sfx_sqrt(sfx_add(sfx_mul(p.x, p.x), sfx_mul(p.y, p.y)));
    if d > 78643 && d < 98304 {
        let pattern = sfx_abs(sfx_sin(sfx_mul(d, 655360)));
        if pattern > 32768 {
            Color { r: 200, g: 200, b: 200 }
        } else {
            Color { r: 100, g: 100, b: 100 }
        }
    } else {
        Color { r: 80, g: 50, b: 20 }
    }
}

/// The ringed-planet material.
pub fn ringed_planet_shader<N>(fragment: &Fragment, uniforms: &Uniforms<N>) -> (c: Color)
    requires
        fragment_bounded(*fragment),
    ensures
        c == spec_ringed_planet_shader(*fragment, *uniforms),
{
    proof {
        reveal(spec_ringed_planet_shader);
    }
    let p = fragment.vertex_position;
    let d: Fx = fx_sqrt(fx_add(fx_mul(p.x, p.x), fx_mul(p.y, p.y)));
    if d > 78643 && d < 98304 {
        let pattern: Fx = fx_abs(fx_sin(fx_mul(d, 655360)));
        if pattern > 32768 {
            Color::new(200, 200, 200)
        } else {
            Color::new(100, 100, 100)
        }
    } else {
        Color::new(80, 50, 20)
    }
}

/// The color a material gives one fragment.
pub open spec fn spec_shade<N: NoiseSampler>(m: Material, f: Fragment, u: Uniforms<N>) -> Color {
    match m {
        Material::Star => spec_star_shader(f, u),
        Material::RockyPlanet => spec_rocky_planet_shader(f, u),
        Material::GasGiant => spec_gas_giant_shader(f, u),
        Material::RingedPlanet => spec_ringed_planet_shader(f, u),
        Material::Moon => spec_moon_shader(f, u),
        Material::Meteor => spec_meteor_shader(f, u),
        Material::Earth => spec_earth_shader(f, u),
    }
}

/// Shades one fragment with the given material.
pub fn shade<N: NoiseSampler>(m: Material, fragment: &Fragment, uniforms: &Uniforms<N>) -> (c:
    Color)
    requires
        fragment_bounded(*fragment),
    ensures
        c == spec_shade(m, *fragment, *uniforms),
{
    match m {
        Material::Star => star_shader(fragment, uniforms),
        Material::RockyPlanet => rocky_planet_shader(fragment, uniforms),
        Material::GasGiant => gas_giant_shader(fragment, uniforms),
        Material::RingedPlanet => ringed_planet_shader(fragment, uniforms),
        Material::Moon => moon_shader(fragment, uniforms),
        Material::Meteor => meteor_shader(fragment, uniforms),
        Material::Earth => earth_shader(fragment, uniforms),
    }
}

/// Determinism of the shading stage: identical `(fragment, uniforms)`
/// inputs give identical colors from every material, and from the default
/// fragment shader.
pub proof fn lemma_shading_deterministic<N: NoiseSampler>(
    m: Material,
    f1: Fragment,
    f2: Fragment,
    u1: Uniforms<N>,
    u2: Uniforms<N>,
)
    requires
        f1 == f2,
        u1 == u2,
    ensures
        spec_shade(m, f1, u1) == spec_shade(m, f2, u2),
        spec_fragment_shader(f1, u1) == spec_fragment_shader(f2, u2),
{
}

} // verus!
