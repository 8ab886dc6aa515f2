//! The per-frame pipeline drivers and the emissive post-process.
//!
//! A render pass transforms every vertex, groups the results into
//! triangles (each consecutive three), rasterizes each triangle, shades
//! each fragment, and commits it to the framebuffer through the depth
//! test, in that order; the whole pass is one fold over the framebuffer
//! state. The bloom pass then bleeds every emissive pixel additively
//! (per channel, clamped at 255) into its 3x3 neighborhood of the color
//! buffer, reading only the emissive plane it does not write.

use vstd::prelude::*;
use crate::color::Color;
use crate::color::clamp255;
use crate::color::spec_pack;
use crate::fragment::Fragment;
use crate::fragment::fragment_bounded;
use crate::framebuffer::FbView;
use crate::framebuffer::Framebuffer;
use crate::framebuffer::fb_wf;
use crate::framebuffer::lemma_index_in_bounds;
use crate::framebuffer::spec_color_at;
use crate::framebuffer::spec_point;
use crate::shaders::Material;
use crate::shaders::NoiseSampler;
use crate::shaders::Uniforms;
use crate::shaders::fragment_shader;
use crate::shaders::shade;
use crate::shaders::spec_fragment_shader;
use crate::shaders::spec_shade;
use crate::shaders::spec_vertex_shader;
use crate::shaders::uniforms_bounded;
use crate::shaders::vertex_shader;
use crate::triangle::spec_rasterize;
use crate::triangle::triangle;
use crate::vertex::Vertex;
use crate::vertex::vertex_bounded;

verus! {

/// The color a fragment gets: a material's shader when one is selected,
/// the default fragment shader otherwise.
pub open spec fn spec_frag_color<N: NoiseSampler>(
    sel: Option<Material>,
    f: Fragment,
    u: Uniforms<N>,
) -> Color {
    match sel {
        Some(m) => spec_shade(m, f, u),
        None => spec_fragment_shader(f, u),
    }
}

/// One fragment committed to the framebuffer: fragments outside the
/// pixel rectangle are dropped; the rest set the pen to the shaded color
/// and run the depth-tested point write.
pub open spec fn spec_commit(v: FbView, f: Fragment, c: Color) -> FbView {
    if 0 <= f.x < v.width && 0 <= f.y < v.height {
        spec_point(
            FbView { current: spec_pack(c.r, c.g, c.b), ..v },
            f.x as int,
            f.y as int,
            f.depth,
        )
    } else {
        v
    }
}

/// A fragment sequence committed in order, each shaded by the selected
/// shader.
pub open spec fn spec_composite<N: NoiseSampler>(
    v: FbView,
    frags: Seq<Fragment>,
    sel: Option<Material>,
    u: Uniforms<N>,
) -> FbView
    decreases frags.len(),
{
    if frags.len() == 0 {
        v
    } else {
        let f = frags.last();
        spec_commit(
            spec_composite(v, frags.drop_last(), sel, u),
            f,
            spec_frag_color(sel, f, u),
        )
    }
}

/// Every vertex taken through the vertex transform.
pub open spec fn spec_transform_all<N>(verts: Seq<Vertex>, u: Uniforms<N>) -> Seq<Vertex> {
    verts.map_values(|v: Vertex| spec_vertex_shader(v, u))
}

/// The framebuffer after the first `k` triangles of the transformed
/// vertex sequence `tv` (each consecutive three vertices) have been
/// rasterized, shaded, and committed.
pub open spec fn spec_render_pass<N: NoiseSampler>(
    v: FbView,
    tv: Seq<Vertex>,
    sel: Option<Material>,
    u: Uniforms<N>,
    k: nat,
) -> FbView
    decreases k,
{
    if k == 0 {
        v
    } else {
        spec_composite(
            spec_render_pass(v, tv, sel, u, (k - 1) as nat),
            spec_rasterize(tv[3 * (k - 1)], tv[3 * (k - 1) + 1], tv[3 * (k - 1) + 2]),
            sel,
            u,
        )
    }
}

/// A whole render pass over a vertex array: transform, triangle
/// grouping, rasterization, shading, and depth-tested compositing.
pub open spec fn spec_render_body<N: NoiseSampler>(
    v: FbView,
    verts: Seq<Vertex>,
    sel: Option<Material>,
    u: Uniforms<N>,
) -> FbView {
    spec_render_pass(v, spec_transform_all(verts, u), sel, u, (verts.len() / 3) as nat)
}

/// Committing changes only the color and depth planes.
proof fn lemma_commit_preserves(v: FbView, f: Fragment, c: Color)
    requires
        fb_wf(v),
    ensures
        fb_wf(spec_commit(v, f, c)),
        spec_commit(v, f, c).width == v.width,
        spec_commit(v, f, c).height == v.height,
        spec_commit(v, f, c).emissive == v.emissive,
        spec_commit(v, f, c).background == v.background,
{
    if 0 <= f.x < v.width && 0 <= f.y < v.height {
        lemma_index_in_bounds(f.x as int, f.y as int, v.width as int, v.height as int);
    }
}

/// Compositing changes only the color, depth, and pen planes.
proof fn lemma_composite_preserves<N: NoiseSampler>(
    v: FbView,
    frags: Seq<Fragment>,
    sel: Option<Material>,
    u: Uniforms<N>,
)
    requires
        fb_wf(v),
    ensures
        fb_wf(spec_composite(v, frags, sel, u)),
        spec_composite(v, frags, sel, u).width == v.width,
        spec_composite(v, frags, sel, u).height == v.height,
        spec_composite(v, frags, sel, u).emissive == v.emissive,
        spec_composite(v, frags, sel, u).background == v.background,
    decreases frags.len(),
{
    if frags.len() > 0 {
        lemma_composite_preserves(v, frags.drop_last(), sel, u);
        let f = frags.last();
        lemma_commit_preserves(
            spec_composite(v, frags.drop_last(), sel, u),
            f,
            spec_frag_color(sel, f, u),
        );
    }
}

fn composite_fragments<N: NoiseSampler>(
    fb: &mut Framebuffer,
    frags: &Vec<Fragment>,
    sel: Option<Material>,
    uniforms: &Uniforms<N>,
)
    requires
        fb_wf(old(fb)@),
        forall|i: int| 0 <= i < frags@.len() ==> fragment_bounded(#[trigger] frags@[i]),
    ensures
        fb_wf(final(fb)@),
        final(fb)@ == spec_composite(old(fb)@, frags@, sel, *uniforms),
{
    let n: usize = frags.len();
    let mut i: usize = 0;
    #[verifier::loop_isolation(false)]
    while i < n
        invariant
            i <= n,
            fb_wf(fb@),
            fb@ == spec_composite(old(fb)@, frags@.take(i as int), sel, *uniforms),
        decreases n - i,
    {
        let f: Fragment = frags[i];
        let c: Color = match sel {
            Some(m) => shade(m, &f, uniforms),
            None => fragment_shader(&f, uniforms),
        };
        if f.x >= 0 && f.y >= 0 && (f.x as usize) < fb.width && (f.y as usize) < fb.height {
            let hex: u32 = c.to_hex();
            fb.set_current_color(hex);
            fb.point(f.x as usize, f.y as usize, f.depth);
        }
        proof {
            assert(frags@.take(i + 1).drop_last() =~= frags@.take(i as int));
            assert(frags@.take(i + 1).last() == frags@[i as int]);
        }
        i = i + 1;
    }
    proof {
        assert(frags@.take(n as int) =~= frags@);
    }
}

fn transform_vertices<N>(vertex_array: &Vec<Vertex>, uniforms: &Uniforms<N>) -> (tv: Vec<
    Vertex,
>)
    requires
        uniforms_bounded(*uniforms),
        forall|i: int|
            0 <= i < vertex_array@.len() ==> vertex_bounded(#[trigger] vertex_array@[i]),
    ensures
        tv@ == spec_transform_all(vertex_array@, *uniforms),
        tv@.len() == vertex_array@.len(),
        forall|k: int| 0 <= k < tv@.len() ==> vertex_bounded(#[trigger] tv@[k]),
{
    let vn: usize = vertex_array.len();
    let mut transformed: Vec<Vertex> = Vec::new();
    let mut j: usize = 0;
    #[verifier::loop_isolation(false)]
    while j < vn
        invariant
            j <= vn,
            transformed@.len() == j,
            forall|k: int|
                0 <= k < j ==> transformed@[k] == spec_vertex_shader(
                    vertex_array@[k],
                    *uniforms,
                ),
            forall|k: int| 0 <= k < j ==> vertex_bounded(#[trigger] transformed@[k]),
        decreases vn - j,
    {
        let t: Vertex = vertex_shader(&vertex_array[j], uniforms);
        transformed.push(t);
        j = j + 1;
    }
    proof {
        assert(transformed@ =~= spec_transform_all(vertex_array@, *uniforms));
    }
    transformed
}

#[verifier::rlimit(100)]
fn render_pass<N: NoiseSampler>(
    fb: &mut Framebuffer,
    vertex_array: &Vec<Vertex>,
    uniforms: &Uniforms<N>,
    sel: Option<Material>,
)
    requires
        fb_wf(old(fb)@),
        uniforms_bounded(*uniforms),
        forall|i: int|
            0 <= i < vertex_array@.len() ==> vertex_bounded(#[trigger] vertex_array@[i]),
    ensures
        fb_wf(final(fb)@),
        final(fb)@ == spec_render_body(old(fb)@, vertex_array@, sel, *uniforms),
{
    let ghost tv = spec_transform_all(vertex_array@, *uniforms);
    let transformed: Vec<Vertex> = transform_vertices(vertex_array, uniforms);
    let n: usize = transformed.len();
    let mut i: usize = 0;
    #[verifier::loop_isolation(false)]
    while n > 2 && i < n - 2
        invariant
            i % 3 == 0,
            i <= n,
            fb_wf(fb@),
            fb@ == spec_render_pass(old(fb)@, tv, sel, *uniforms, (i / 3) as nat),
        decreases n - i,
    {
        let frags: Vec<Fragment> = triangle(
            &transformed[i],
            &transformed[i + 1],
            &transformed[i + 2],
        );
        composite_fragments(fb, &frags, sel, uniforms);
        proof {
            assert(3 * ((i / 3) + 1) - 3 == i);
        }
        i = i + 3;
    }
    proof {
        assert((i / 3) as nat == (vertex_array@.len() / 3) as nat);
    }
}

/// Renders a vertex array with the default fragment shader: vertex
/// transform, triangle grouping, rasterization, shading, and the
/// depth-tested commit of every fragment, in order.
pub fn render<N: NoiseSampler>(
    framebuffer: &mut Framebuffer,
    uniforms: &Uniforms<N>,
    vertex_array: &Vec<Vertex>,
)
    requires
        fb_wf(old(framebuffer)@),
        uniforms_bounded(*uniforms),
        forall|i: int|
            0 <= i < vertex_array@.len() ==> vertex_bounded(#[trigger] vertex_array@[i]),
    ensures
        fb_wf(final(framebuffer)@),
        final(framebuffer)@ == spec_render_body(
            old(framebuffer)@,
            vertex_array@,
            None::<Material>,
            *uniforms,
        ),
{
    render_pass(framebuffer, vertex_array, uniforms, None);
}

/// Renders one celestial body: the same pass as `render`, shaded by the
/// body's material.
pub fn render_celestial_body<N: NoiseSampler>(
    framebuffer: &mut Framebuffer,
    vertex_array: &Vec<Vertex>,
    uniforms: &Uniforms<N>,
    material: Material,
)
    requires
        fb_wf(old(framebuffer)@),
        uniforms_bounded(*uniforms),
        forall|i: int|
            0 <= i < vertex_array@.len() ==> vertex_bounded(#[trigger] vertex_array@[i]),
    ensures
        fb_wf(final(framebuffer)@),
        final(framebuffer)@ == spec_render_body(
            old(framebuffer)@,
            vertex_array@,
            Some(material),
            *uniforms,
        ),
{
    render_pass(framebuffer, vertex_array, uniforms, Some(material));
}

/// The red channel of a packed color.
pub open spec fn spec_unpack_r(v: u32) -> u32 {
    (v >> 16u32) & 0xFFu32
}

/// The green channel of a packed color.
pub open spec fn spec_unpack_g(v: u32) -> u32 {
    (v >> 8u32) & 0xFFu32
}

/// The blue channel of a packed color.
pub open spec fn spec_unpack_b(v: u32) -> u32 {
    v & 0xFFu32
}

/// A packed channel value is at most 255.
proof fn lemma_unpack_bounds(v: u32)
    ensures
        spec_unpack_r(v) <= 255,
        spec_unpack_g(v) <= 255,
        spec_unpack_b(v) <= 255,
{
    assert((v >> 16u32) & 0xFFu32 <= 255 && (v >> 8u32) & 0xFFu32 <= 255 && v & 0xFFu32 <= 255)
        by (bit_vector);
}

/// One emissive contribution to the bloom sum: the channel of the
/// emissive pixel at `(x, y)`, or zero outside the pixel rectangle.
pub open spec fn spec_emissive_term(v: FbView, x: int, y: int, ch: int) -> int {
    if 0 <= x < v.width && 0 <= y < v.height {
        let e = v.emissive[y * v.width + x];
        if ch == 0 {
            spec_unpack_r(e) as int
        } else if ch == 1 {
            spec_unpack_g(e) as int
        } else {
            spec_unpack_b(e) as int
        }
    } else {
        0
    }
}

/// The bloom sum of one channel at `(x, y)`: the emissive channel values
/// of the pixel's inclusive 3x3 neighborhood, clipped to bounds.
pub open spec fn spec_bloom_sum(v: FbView, x: int, y: int, ch: int) -> int {
    spec_emissive_term(v, x - 1, y - 1, ch) + spec_emissive_term(v, x, y - 1, ch)
        + spec_emissive_term(v, x + 1, y - 1, ch) + spec_emissive_term(v, x - 1, y, ch)
        + spec_emissive_term(v, x, y, ch) + spec_emissive_term(v, x + 1, y, ch)
        + spec_emissive_term(v, x - 1, y + 1, ch) + spec_emissive_term(v, x, y + 1, ch)
        + spec_emissive_term(v, x + 1, y + 1, ch)
}

/// The color pixel `(x, y)` holds after the bloom pass: each channel is
/// the old channel plus the neighborhood's emissive sum, saturating at
/// 255 (never wrapping).
pub open spec fn spec_bloom_pixel(v: FbView, x: int, y: int) -> u32 {
    let old_color = v.color[y * v.width + x];
    spec_pack(
        clamp255(spec_unpack_r(old_color) + spec_bloom_sum(v, x, y, 0)) as u8,
        clamp255(spec_unpack_g(old_color) + spec_bloom_sum(v, x, y, 1)) as u8,
        clamp255(spec_unpack_b(old_color) + spec_bloom_sum(v, x, y, 2)) as u8,
    )
}

/// The whole bloom pass: every color pixel reads the emissive plane as
/// it stood before the pass (the pass never writes that plane) and takes
/// its saturated sum; nothing else changes.
pub open spec fn spec_bloom(v: FbView) -> FbView {
    FbView {
        color: Seq::new(
            v.color.len(),
            |i: int| spec_bloom_pixel(v, i % (v.width as int), i / (v.width as int)),
        ),
        ..v
    }
}

proof fn lemma_unpack_zero()
    ensures
        spec_unpack_r(0) == 0,
        spec_unpack_g(0) == 0,
        spec_unpack_b(0) == 0,
{
    assert((0u32 >> 16u32) & 0xFFu32 == 0 && (0u32 >> 8u32) & 0xFFu32 == 0 && 0u32 & 0xFFu32 == 0)
        by (bit_vector);
}

proof fn lemma_pack_zero()
    ensures
        spec_pack(0, 0, 0) == 0,
{
    assert(((0u8 as u32) << 16) | ((0u8 as u32) << 8) | (0u8 as u32) == 0) by (bit_vector);
}

/// Unpacking a 24-bit value into channels and packing them again gives
/// the value back.
proof fn lemma_pack_unpack_roundtrip(v: u32)
    requires
        v <= 0xFFFFFF,
    ensures
        spec_pack(
            spec_unpack_r(v) as u8,
            spec_unpack_g(v) as u8,
            spec_unpack_b(v) as u8,
        ) == v,
{
    assert(((((v >> 16u32) & 0xFFu32) as u8 as u32) << 16) | ((((v >> 8u32) & 0xFFu32) as u8
        as u32) << 8) | (((v & 0xFFu32) as u8) as u32) == v) by (bit_vector)
        requires
            v <= 0xFFFFFF,
    ;
}

/// Two distinct in-bounds pixels never share a row-major index.
proof fn lemma_row_major_unique(w: int, x: int, y: int, x0: int, y0: int)
    requires
        0 <= x < w,
        0 <= x0 < w,
        0 <= y,
        0 <= y0,
        y * w + x == y0 * w + x0,
    ensures
        x == x0,
        y == y0,
{
    vstd::arithmetic::div_mod::lemma_fundamental_div_mod_converse(y * w + x, w, y, x);
    vstd::arithmetic::div_mod::lemma_fundamental_div_mod_converse(y0 * w + x0, w, y0, x0);
}

/// With a single emissive source at `(x0, y0)`, the emissive term of any
/// point is that source's channel there and zero everywhere else.
proof fn lemma_term_single(v: FbView, x0: int, y0: int, ev: u32, x: int, y: int, ch: int)
    requires
        fb_wf(v),
        0 <= x0 < v.width,
        0 <= y0 < v.height,
        v.emissive[y0 * v.width + x0] == ev,
        forall|i: int|
            0 <= i < v.emissive.len() && i != y0 * v.width + x0 ==> v.emissive[i] == 0u32,
    ensures
        spec_emissive_term(v, x, y, ch) == if x == x0 && y == y0 {
            spec_emissive_term(v, x0, y0, ch)
        } else {
            0
        },
{
    lemma_unpack_zero();
    if 0 <= x < v.width && 0 <= y < v.height {
        lemma_index_in_bounds(x, y, v.width as int, v.height as int);
        lemma_index_in_bounds(x0, y0, v.width as int, v.height as int);
        if !(x == x0 && y == y0) {
            if y * v.width + x == y0 * v.width + x0 {
                lemma_row_major_unique(v.width as int, x, y, x0, y0);
            }
            assert(v.emissive[y * v.width + x] == 0u32);
        }
    }
}

proof fn lemma_sum_single(v: FbView, x0: int, y0: int, ev: u32, x: int, y: int, ch: int)
    requires
        fb_wf(v),
        0 <= x0 < v.width,
        0 <= y0 < v.height,
        v.emissive[y0 * v.width + x0] == ev,
        forall|i: int|
            0 <= i < v.emissive.len() && i != y0 * v.width + x0 ==> v.emissive[i] == 0u32,
    ensures
        spec_bloom_sum(v, x, y, ch) == if -1 <= x - x0 <= 1 && -1 <= y - y0 <= 1 {
            spec_emissive_term(v, x0, y0, ch)
        } else {
            0
        },
{
    lemma_term_single(v, x0, y0, ev, x - 1, y - 1, ch);
    lemma_term_single(v, x0, y0, ev, x, y - 1, ch);
    lemma_term_single(v, x0, y0, ev, x + 1, y - 1, ch);
    lemma_term_single(v, x0, y0, ev, x - 1, y, ch);
    lemma_term_single(v, x0, y0, ev, x, y, ch);
    lemma_term_single(v, x0, y0, ev, x + 1, y, ch);
    lemma_term_single(v, x0, y0, ev, x - 1, y + 1, ch);
    lemma_term_single(v, x0, y0, ev, x, y + 1, ch);
    lemma_term_single(v, x0, y0, ev, x + 1, y + 1, ch);
}

proof fn lemma_bloom_pixel_single(v: FbView, x0: int, y0: int, ev: u32, x: int, y: int)
    requires
        fb_wf(v),
        0 <= x0 < v.width,
        0 <= y0 < v.height,
        0 <= x < v.width,
        0 <= y < v.height,
        ev <= 0xFFFFFF,
        forall|i: int| 0 <= i < v.color.len() ==> v.color[i] == 0u32,
        v.emissive[y0 * v.width + x0] == ev,
        forall|i: int|
            0 <= i < v.emissive.len() && i != y0 * v.width + x0 ==> v.emissive[i] == 0u32,
    ensures
        spec_bloom(v).color[y * v.width + x] == if -1 <= x - x0 <= 1 && -1 <= y - y0 <= 1 {
            ev
        } else {
            0u32
        },
{
    lemma_index_in_bounds(x, y, v.width as int, v.height as int);
    lemma_index_in_bounds(x0, y0, v.width as int, v.height as int);
    vstd::arithmetic::div_mod::lemma_fundamental_div_mod_converse(
        y * v.width + x,
        v.width as int,
        y,
        x,
    );
    lemma_sum_single(v, x0, y0, ev, x, y, 0);
    lemma_sum_single(v, x0, y0, ev, x, y, 1);
    lemma_sum_single(v, x0, y0, ev, x, y, 2);
    lemma_unpack_zero();
    lemma_unpack_bounds(ev);
    assert(v.color[y * v.width + x] == 0u32);
    if -1 <= x - x0 <= 1 && -1 <= y - y0 <= 1 {
        lemma_pack_unpack_roundtrip(ev);
    } else {
        lemma_pack_zero();
    }
}

/// Bloom additivity for a single emitter: with exactly one non-zero
/// emissive pixel, holding a 24-bit value, over an all-zero color
/// buffer, the pass paints exactly the pixel's inclusive 3x3
/// neighborhood (clipped to bounds) with that value and leaves every
/// other pixel at zero.
pub proof fn lemma_bloom_single_emitter(v: FbView, x0: int, y0: int, ev: u32)
    requires
        fb_wf(v),
        0 <= x0 < v.width,
        0 <= y0 < v.height,
        ev <= 0xFFFFFF,
        forall|i: int| 0 <= i < v.color.len() ==> v.color[i] == 0u32,
        v.emissive[y0 * v.width + x0] == ev,
        forall|i: int|
            0 <= i < v.emissive.len() && i != y0 * v.width + x0 ==> v.emissive[i] == 0u32,
    ensures
        forall|x: int, y: int|
            0 <= x < v.width && 0 <= y < v.height && -1 <= x - x0 <= 1 && -1 <= y - y0 <= 1
                ==> #[trigger] spec_color_at(spec_bloom(v), x, y) == ev,
        forall|x: int, y: int|
            0 <= x < v.width && 0 <= y < v.height && !(-1 <= x - x0 <= 1 && -1 <= y - y0 <= 1)
                ==> #[trigger] spec_color_at(spec_bloom(v), x, y) == 0u32,
{
    assert forall|x: int, y: int|
        0 <= x < v.width && 0 <= y < v.height && -1 <= x - x0 <= 1 && -1 <= y - y0 <= 1
        implies #[trigger] spec_color_at(spec_bloom(v), x, y) == ev by {
        lemma_bloom_pixel_single(v, x0, y0, ev, x, y);
    }
    assert forall|x: int, y: int|
        0 <= x < v.width && 0 <= y < v.height && !(-1 <= x - x0 <= 1 && -1 <= y - y0 <= 1)
        implies #[trigger] spec_color_at(spec_bloom(v), x, y) == 0u32 by {
        lemma_bloom_pixel_single(v, x0, y0, ev, x, y);
    }
}

fn emissive_rgb(fb: &Framebuffer, x: usize, y: usize) -> (t: (u32, u32, u32))
    requires
        fb_wf(fb@),
        x < fb@.width,
        y < fb@.height,
    ensures
        t.0 == spec_emissive_term(fb@, x as int, y as int, 0),
        t.1 == spec_emissive_term(fb@, x as int, y as int, 1),
        t.2 == spec_emissive_term(fb@, x as int, y as int, 2),
        t.0 <= 255 && t.1 <= 255 && t.2 <= 255,
{
    let _buffer_len: usize = fb.emissive_buffer.len();
    proof {
        lemma_index_in_bounds(x as int, y as int, fb@.width as int, fb@.height as int);
    }
    let idx: usize = y * fb.width + x;
    let e: u32 = fb.emissive_buffer[idx];
    proof {
        lemma_unpack_bounds(e);
    }
    ((e >> 16) & 0xFF, (e >> 8) & 0xFF, e & 0xFF)
}

/// The emissive post-process (bloom): every pixel's color channels take
/// the saturating sum of the emissive channels over the pixel's 3x3
/// neighborhood, clipped at the buffer edges; the depth, emissive, and
/// pen state are untouched. Reads of the emissive plane see the state
/// before the pass, since the pass writes only the color plane.
#[verifier::rlimit(100)]
pub fn apply_emissive_postprocess(framebuffer: &mut Framebuffer)
    requires
        fb_wf(old(framebuffer)@),
    ensures
        fb_wf(final(framebuffer)@),
        final(framebuffer)@ == spec_bloom(old(framebuffer)@),
{
    let w: usize = framebuffer.width;
    let h: usize = framebuffer.height;
    let n: usize = framebuffer.buffer.len();
    let mut y: usize = 0;
    #[verifier::loop_isolation(false)]
    while y < h
        invariant
            y <= h,
            w == framebuffer.width,
            h == framebuffer.height,
            framebuffer.zbuffer == old(framebuffer).zbuffer,
            framebuffer.emissive_buffer == old(framebuffer).emissive_buffer,
            framebuffer.background_color == old(framebuffer).background_color,
            framebuffer.current_color == old(framebuffer).current_color,
            framebuffer.buffer@.len() == n,
            forall|idx: int|
                0 <= idx < y * w ==> framebuffer.buffer@[idx] == spec_bloom_pixel(
                    old(framebuffer)@,
                    idx % (w as int),
                    idx / (w as int),
                ),
            forall|idx: int|
                y * w <= idx < n ==> framebuffer.buffer@[idx] == old(framebuffer).buffer@[idx],
        decreases h - y,
    {
        let mut x: usize = 0;
        #[verifier::loop_isolation(false)]
        while x < w
            invariant
                x <= w,
                y < h,
                w == framebuffer.width,
                h == framebuffer.height,
                framebuffer.zbuffer == old(framebuffer).zbuffer,
                framebuffer.emissive_buffer == old(framebuffer).emissive_buffer,
                framebuffer.background_color == old(framebuffer).background_color,
                framebuffer.current_color == old(framebuffer).current_color,
                framebuffer.buffer@.len() == n,
                forall|idx: int|
                    0 <= idx < y * w + x ==> framebuffer.buffer@[idx] == spec_bloom_pixel(
                        old(framebuffer)@,
                        idx % (w as int),
                        idx / (w as int),
                    ),
                forall|idx: int|
                    y * w + x <= idx < n ==> framebuffer.buffer@[idx] == old(
                        framebuffer,
                    ).buffer@[idx],
            decreases w - x,
        {
            proof {
                lemma_index_in_bounds(x as int, y as int, w as int, h as int);
            }
            let idx: usize = y * w + x;
            let mut sr: u32 = 0;
            let mut sg: u32 = 0;
            let mut sb: u32 = 0;
            if x > 0 && y > 0 {
                let t = emissive_rgb(framebuffer, x - 1, y - 1);
                sr = sr + t.0;
                sg = sg + t.1;
                sb = sb + t.2;
            }
            if y > 0 {
                let t = emissive_rgb(framebuffer, x, y - 1);
                sr = sr + t.0;
                sg = sg + t.1;
                sb = sb + t.2;
            }
            if x + 1 < w && y > 0 {
                let t = emissive_rgb(framebuffer, x + 1, y - 1);
                sr = sr + t.0;
                sg = sg + t.1;
                sb = sb + t.2;
            }
            if x > 0 {
                let t = emissive_rgb(framebuffer, x - 1, y);
                sr = sr + t.0;
                sg = sg + t.1;
                sb = sb + t.2;
            }
            {
                let t = emissive_rgb(framebuffer, x, y);
                sr = sr + t.0;
                sg = sg + t.1;
                sb = sb + t.2;
            }
            if x + 1 < w {
                let t = emissive_rgb(framebuffer, x + 1, y);
                sr = sr + t.0;
                sg = sg + t.1;
                sb = sb + t.2;
            }
            if x > 0 && y + 1 < h {
                let t = emissive_rgb(framebuffer, x - 1, y + 1);
                sr = sr + t.0;
                sg = sg + t.1;
                sb = sb + t.2;
            }
            if y + 1 < h {
                let t = emissive_rgb(framebuffer, x, y + 1);
                sr = sr + t.0;
                sg = sg + t.1;
                sb = sb + t.2;
            }
            if x + 1 < w && y + 1 < h {
                let t = emissive_rgb(framebuffer, x + 1, y + 1);
                sr = sr + t.0;
                sg = sg + t.1;
                sb = sb + t.2;
            }
            proof {
                assert(sr == spec_bloom_sum(old(framebuffer)@, x as int, y as int, 0));
                assert(sg == spec_bloom_sum(old(framebuffer)@, x as int, y as int, 1));
                assert(sb == spec_bloom_sum(old(framebuffer)@, x as int, y as int, 2));
            }
            let old_color: u32 = framebuffer.buffer[idx];
            proof {
                lemma_unpack_bounds(old_color);
            }
            let r0: u32 = ((old_color >> 16) & 0xFF) + sr;
            let g0: u32 = ((old_color >> 8) & 0xFF) + sg;
            let b0: u32 = (old_color & 0xFF) + sb;
            let nr: u32 = if r0 > 255 {
                255
            } else {
                r0
            };
            let ng: u32 = if g0 > 255 {
                255
            } else {
                g0
            };
            let nb: u32 = if b0 > 255 {
                255
            } else {
                b0
            };
            let packed: u32 = (nr << 16) | (ng << 8) | nb;
            framebuffer.buffer[idx] = packed;
            proof {
                vstd::arithmetic::div_mod::lemma_fundamental_div_mod_converse(
                    idx as int,
                    w as int,
                    y as int,
                    x as int,
                );
                assert(packed == spec_bloom_pixel(old(framebuffer)@, x as int, y as int));
            }
            x = x + 1;
        }
        proof {
            assert((y + 1) * (w as int) == y * (w as int) + w) by (nonlinear_arith);
        }
        y = y + 1;
    }
    proof {
        assert(h * (w as int) == (w as int) * h) by (nonlinear_arith);
        assert(framebuffer.buffer@ =~= spec_bloom(old(framebuffer)@).color);
    }
}

} // verus!
