//! The rasterizer: bounding-box scan conversion of one triangle into a
//! sequence of fragments.
//!
//! Every integer pixel of the bounding box of the three screen positions
//! is sampled at its center; the pixel is emitted exactly when all three
//! edge functions are non-negative under one consistent winding (so a
//! triangle wound the other way emits nothing). A degenerate triangle —
//! three collinear screen positions, i.e. a zero edge function of the
//! triangle itself — emits no fragments at all. Depth, normal and the
//! shading position are barycentrically interpolated from the three
//! vertices; the base color is taken flat from the first vertex and the
//! lighting factor defaults to one.

use vstd::prelude::*;
use crate::fixed::Fx;
use crate::fixed::FX_HALF;
use crate::fixed::FX_MAX;
use crate::fixed::FX_ONE;
use crate::fixed::fx_add;
use crate::fixed::fx_bounded;
use crate::fixed::fx_div;
use crate::fixed::fx_from_int;
use crate::fixed::fx_max;
use crate::fixed::fx_min;
use crate::fixed::fx_mul;
use crate::fixed::fx_sub;
use crate::fixed::fx_trunc;
use crate::fixed::sfx_add;
use crate::fixed::sfx_div;
use crate::fixed::sfx_mul;
use crate::fixed::sfx_sub;
use crate::fixed::sfx_trunc;
use crate::fragment::Fragment;
use crate::fragment::fragment_bounded;
use crate::vecmat::Vec3Fx;
use crate::vecmat::spec_mac3;
use crate::vertex::Vertex;
use crate::vertex::vertex_bounded;

verus! {

/// The edge function: the 2D cross product `(p - a) x (b - a)`, telling
/// which side of the directed segment `a -> b` the point `p` lies on.
pub open spec fn spec_edge(ax: Fx, ay: Fx, bx: Fx, by: Fx, px: Fx, py: Fx) -> Fx {
    sfx_sub(
        sfx_mul(sfx_sub(px, ax), sfx_sub(by, ay)),
        sfx_mul(sfx_sub(py, ay), sfx_sub(bx, ax)),
    )
}

fn edge_function(v1: &Vec3Fx, v2: &Vec3Fx, point: &Vec3Fx) -> (r: Fx)
    requires
        crate::vecmat::vec3_bounded(*v1),
        crate::vecmat::vec3_bounded(*v2),
        crate::vecmat::vec3_bounded(*point),
    ensures
        r == spec_edge(v1.x, v1.y, v2.x, v2.y, point.x, point.y),
        fx_bounded(r),
{
    fx_sub(
        fx_mul(fx_sub(point.x, v1.x), fx_sub(v2.y, v1.y)),
        fx_mul(fx_sub(point.y, v1.y), fx_sub(v2.x, v1.x)),
    )
}

/// Twice the signed area of the triangle's screen projection: the edge
/// function of the first two screen positions at the third. Zero exactly
/// when the three screen positions are collinear.
pub open spec fn spec_tri_area2(v1: Vertex, v2: Vertex, v3: Vertex) -> Fx {
    spec_edge(
        v1.transformed_position.x,
        v1.transformed_position.y,
        v2.transformed_position.x,
        v2.transformed_position.y,
        v3.transformed_position.x,
        v3.transformed_position.y,
    )
}

/// The center of pixel `x`: the coordinate plus one half, in fixed-point.
pub open spec fn spec_pixel_center(x: int) -> Fx {
    sfx_add(crate::fixed::fx_sat(x * 65536) as i64, FX_HALF)
}

/// Barycentric mix of three vectors by three fixed-point weights.
pub open spec fn spec_bary_vec3(w1: Fx, w2: Fx, w3: Fx, a: Vec3Fx, b: Vec3Fx, c: Vec3Fx) -> Vec3Fx {
    Vec3Fx {
        x: spec_mac3(w1, a.x, w2, b.x, w3, c.x),
        y: spec_mac3(w1, a.y, w2, b.y, w3, c.y),
        z: spec_mac3(w1, a.z, w2, b.z, w3, c.z),
    }
}

/// The fragment emitted for pixel `(x, y)` from the edge values `e1`,
/// `e2`, `e3` and their sum `s`: barycentric weights are the edge values
/// opposite each vertex, normalized by `s`.
pub open spec fn spec_make_fragment(
    v1: Vertex,
    v2: Vertex,
    v3: Vertex,
    x: int,
    y: int,
    e1: Fx,
    e2: Fx,
    e3: Fx,
    s: Fx,
) -> Fragment {
    let w1 = sfx_div(e2, s);
    let w2 = sfx_div(e3, s);
    let w3 = sfx_div(e1, s);
    Fragment {
        x: x as i64,
        y: y as i64,
        color: v1.color,
        depth: spec_mac3(
            w1,
            v1.transformed_position.z,
            w2,
            v2.transformed_position.z,
            w3,
            v3.transformed_position.z,
        ),
        normal: spec_bary_vec3(
            w1,
            w2,
            w3,
            v1.transformed_normal,
            v2.transformed_normal,
            v3.transformed_normal,
        ),
        intensity: FX_ONE,
        vertex_position: spec_bary_vec3(w1, w2, w3, v1.position, v2.position, v3.position),
    }
}

/// The first edge value the inside test of pixel `(x, y)` computes.
pub open spec fn spec_cell_e1(v1: Vertex, v2: Vertex, v3: Vertex, x: int, y: int) -> Fx {
    let p1 = v1.transformed_position;
    let p2 = v2.transformed_position;
    spec_edge(p1.x, p1.y, p2.x, p2.y, spec_pixel_center(x), spec_pixel_center(y))
}

/// The second edge value the inside test of pixel `(x, y)` computes.
pub open spec fn spec_cell_e2(v1: Vertex, v2: Vertex, v3: Vertex, x: int, y: int) -> Fx {
    let p2 = v2.transformed_position;
    let p3 = v3.transformed_position;
    spec_edge(p2.x, p2.y, p3.x, p3.y, spec_pixel_center(x), spec_pixel_center(y))
}

/// The third edge value the inside test of pixel `(x, y)` computes.
pub open spec fn spec_cell_e3(v1: Vertex, v2: Vertex, v3: Vertex, x: int, y: int) -> Fx {
    let p3 = v3.transformed_position;
    let p1 = v1.transformed_position;
    spec_edge(p3.x, p3.y, p1.x, p1.y, spec_pixel_center(x), spec_pixel_center(y))
}

/// The edge-value sum of pixel `(x, y)`, the barycentric normalizer.
pub open spec fn spec_cell_s(v1: Vertex, v2: Vertex, v3: Vertex, x: int, y: int) -> Fx {
    sfx_add(
        sfx_add(spec_cell_e1(v1, v2, v3, x, y), spec_cell_e2(v1, v2, v3, x, y)),
        spec_cell_e3(v1, v2, v3, x, y),
    )
}

/// The fragments pixel `(x, y)` contributes: one when the pixel center
/// passes the inclusive inside test and the edge values have a non-zero
/// sum, none otherwise.
pub open spec fn spec_cell(v1: Vertex, v2: Vertex, v3: Vertex, x: int, y: int) -> Seq<Fragment> {
    let e1 = spec_cell_e1(v1, v2, v3, x, y);
    let e2 = spec_cell_e2(v1, v2, v3, x, y);
    let e3 = spec_cell_e3(v1, v2, v3, x, y);
    let s = spec_cell_s(v1, v2, v3, x, y);
    if e1 >= 0 && e2 >= 0 && e3 >= 0 && s != 0 {
        seq![spec_make_fragment(v1, v2, v3, x, y, e1, e2, e3, s)]
    } else {
        Seq::empty()
    }
}

/// The fragments of one bounding-box row, pixels `x0` through `x1`,
/// in order of increasing `x`.
pub open spec fn spec_row(v1: Vertex, v2: Vertex, v3: Vertex, y: int, x0: int, x1: int) -> Seq<
    Fragment,
>
    decreases x1 - x0 + 1,
{
    if x1 < x0 {
        Seq::empty()
    } else {
        spec_row(v1, v2, v3, y, x0, x1 - 1) + spec_cell(v1, v2, v3, x1, y)
    }
}

/// The fragments of the bounding-box rows `y0` through `y1`, row-major.
pub open spec fn spec_rect(
    v1: Vertex,
    v2: Vertex,
    v3: Vertex,
    y0: int,
    y1: int,
    x0: int,
    x1: int,
) -> Seq<Fragment>
    decreases y1 - y0 + 1,
{
    if y1 < y0 {
        Seq::empty()
    } else {
        spec_rect(v1, v2, v3, y0, y1 - 1, x0, x1) + spec_row(v1, v2, v3, y1, x0, x1)
    }
}

/// The smaller of three values.
pub open spec fn spec_min3(a: Fx, b: Fx, c: Fx) -> Fx {
    let ab = if a <= b {
        a
    } else {
        b
    };
    if ab <= c {
        ab
    } else {
        c
    }
}

/// The larger of three values.
pub open spec fn spec_max3(a: Fx, b: Fx, c: Fx) -> Fx {
    let ab = if a >= b {
        a
    } else {
        b
    };
    if ab >= c {
        ab
    } else {
        c
    }
}

/// The whole rasterization of one triangle: nothing for a degenerate
/// (zero-area) triangle, otherwise the row-major scan of the truncated
/// bounding box of the three screen positions.
#[verifier::opaque]
pub open spec fn spec_rasterize(v1: Vertex, v2: Vertex, v3: Vertex) -> Seq<Fragment> {
    if spec_tri_area2(v1, v2, v3) == 0 {
        Seq::empty()
    } else {
        let p1 = v1.transformed_position;
        let p2 = v2.transformed_position;
        let p3 = v3.transformed_position;
        let min_x = sfx_trunc(spec_min3(p1.x, p2.x, p3.x));
        let max_x = sfx_trunc(spec_max3(p1.x, p2.x, p3.x));
        let min_y = sfx_trunc(spec_min3(p1.y, p2.y, p3.y));
        let max_y = sfx_trunc(spec_max3(p1.y, p2.y, p3.y));
        spec_rect(v1, v2, v3, min_y as int, max_y as int, min_x as int, max_x as int)
    }
}

/// Degenerate triangles rasterize to nothing: three collinear screen
/// positions (zero integer cross product of the edge differences, the
/// differences themselves representable) give a zero area term, and the
/// fragment sequence is empty.
pub proof fn lemma_collinear_rasterizes_empty(v1: Vertex, v2: Vertex, v3: Vertex)
    requires
        ({
            let p1 = v1.transformed_position;
            let p2 = v2.transformed_position;
            let p3 = v3.transformed_position;
            &&& -FX_MAX <= p3.x - p1.x <= FX_MAX
            &&& -FX_MAX <= p2.y - p1.y <= FX_MAX
            &&& -FX_MAX <= p3.y - p1.y <= FX_MAX
            &&& -FX_MAX <= p2.x - p1.x <= FX_MAX
            &&& (p3.x - p1.x) * (p2.y - p1.y) == (p3.y - p1.y) * (p2.x - p1.x)
        }),
    ensures
        spec_tri_area2(v1, v2, v3) == 0,
        spec_rasterize(v1, v2, v3) == Seq::<Fragment>::empty(),
{
    reveal(spec_rasterize);
}

/// One bounding-box row lists only its own pixels' fragments: each entry
/// of `spec_row` carries its pixel coordinates, and is exactly what its
/// pixel's inside test emits.
proof fn lemma_row_sound(v1: Vertex, v2: Vertex, v3: Vertex, y: int, x0: int, x1: int)
    requires
        -16384 <= x0,
        x1 <= 16384,
        -16384 <= y <= 16384,
    ensures
        forall|i: int|
            0 <= i < spec_row(v1, v2, v3, y, x0, x1).len() ==> {
                let f = #[trigger] spec_row(v1, v2, v3, y, x0, x1)[i];
                &&& x0 <= f.x <= x1
                &&& f.y == y
                &&& spec_cell(v1, v2, v3, f.x as int, y) == seq![f]
            },
    decreases x1 - x0 + 1,
{
    if x1 >= x0 {
        lemma_row_sound(v1, v2, v3, y, x0, x1 - 1);
        let prev = spec_row(v1, v2, v3, y, x0, x1 - 1);
        let cur = spec_row(v1, v2, v3, y, x0, x1);
        let cell = spec_cell(v1, v2, v3, x1, y);
        assert forall|i: int| 0 <= i < cur.len() implies {
            let f = #[trigger] cur[i];
            &&& x0 <= f.x <= x1
            &&& f.y == y
            &&& spec_cell(v1, v2, v3, f.x as int, y) == seq![f]
        } by {
            if i < prev.len() {
                assert(cur[i] == prev[i]);
            } else {
                assert(cur[i] == cell[0]);
                assert(cell[0] == spec_make_fragment(
                    v1,
                    v2,
                    v3,
                    x1,
                    y,
                    spec_cell_e1(v1, v2, v3, x1, y),
                    spec_cell_e2(v1, v2, v3, x1, y),
                    spec_cell_e3(v1, v2, v3, x1, y),
                    spec_cell_s(v1, v2, v3, x1, y),
                ));
                assert(seq![cur[i]] =~= cell);
            }
        }
    }
}

/// The bounding-box scan lists only its own pixels' fragments.
proof fn lemma_rect_sound(
    v1: Vertex,
    v2: Vertex,
    v3: Vertex,
    y0: int,
    y1: int,
    x0: int,
    x1: int,
)
    requires
        -16384 <= x0,
        x1 <= 16384,
        -16384 <= y0,
        y1 <= 16384,
    ensures
        forall|i: int|
            0 <= i < spec_rect(v1, v2, v3, y0, y1, x0, x1).len() ==> {
                let f = #[trigger] spec_rect(v1, v2, v3, y0, y1, x0, x1)[i];
                &&& x0 <= f.x <= x1
                &&& y0 <= f.y <= y1
                &&& spec_cell(v1, v2, v3, f.x as int, f.y as int) == seq![f]
            },
    decreases y1 - y0 + 1,
{
    if y1 >= y0 {
        lemma_rect_sound(v1, v2, v3, y0, y1 - 1, x0, x1);
        lemma_row_sound(v1, v2, v3, y1, x0, x1);
        let prev = spec_rect(v1, v2, v3, y0, y1 - 1, x0, x1);
        let row = spec_row(v1, v2, v3, y1, x0, x1);
        let cur = spec_rect(v1, v2, v3, y0, y1, x0, x1);
        assert forall|i: int| 0 <= i < cur.len() implies {
            let f = #[trigger] cur[i];
            &&& x0 <= f.x <= x1
            &&& y0 <= f.y <= y1
            &&& spec_cell(v1, v2, v3, f.x as int, f.y as int) == seq![f]
        } by {
            if i < prev.len() {
                assert(cur[i] == prev[i]);
            } else {
                assert(cur[i] == row[i - prev.len()]);
            }
        }
    }
}

/// A pixel of the row whose inside test emits a fragment has that
/// fragment in the row's sequence.
proof fn lemma_row_complete(v1: Vertex, v2: Vertex, v3: Vertex, y: int, x0: int, x1: int, x: int)
    requires
        x0 <= x <= x1,
        spec_cell(v1, v2, v3, x, y).len() != 0,
    ensures
        spec_row(v1, v2, v3, y, x0, x1).contains(spec_cell(v1, v2, v3, x, y)[0]),
    decreases x1 - x0 + 1,
{
    let f = spec_cell(v1, v2, v3, x, y)[0];
    if x == x1 {
        assert(spec_row(v1, v2, v3, y, x0, x1)[spec_row(v1, v2, v3, y, x0, x1 - 1).len() as int]
            == f);
    } else {
        lemma_row_complete(v1, v2, v3, y, x0, x1 - 1, x);
        let prev = spec_row(v1, v2, v3, y, x0, x1 - 1);
        let i = choose|i: int| 0 <= i < prev.len() && #[trigger] prev[i] == f;
        assert(spec_row(v1, v2, v3, y, x0, x1)[i] == f);
    }
}

/// A pixel of the scanned rectangle whose inside test emits a fragment
/// has that fragment in the scan's sequence.
proof fn lemma_rect_complete(
    v1: Vertex,
    v2: Vertex,
    v3: Vertex,
    y0: int,
    y1: int,
    x0: int,
    x1: int,
    x: int,
    y: int,
)
    requires
        x0 <= x <= x1,
        y0 <= y <= y1,
        spec_cell(v1, v2, v3, x, y).len() != 0,
    ensures
        spec_rect(v1, v2, v3, y0, y1, x0, x1).contains(spec_cell(v1, v2, v3, x, y)[0]),
    decreases y1 - y0 + 1,
{
    let f = spec_cell(v1, v2, v3, x, y)[0];
    if y == y1 {
        lemma_row_complete(v1, v2, v3, y, x0, x1, x);
        let row = spec_row(v1, v2, v3, y, x0, x1);
        let i = choose|i: int| 0 <= i < row.len() && #[trigger] row[i] == f;
        assert(spec_rect(v1, v2, v3, y0, y1, x0, x1)[spec_rect(
            v1,
            v2,
            v3,
            y0,
            y1 - 1,
            x0,
            x1,
        ).len() + i] == f);
    } else {
        lemma_rect_complete(v1, v2, v3, y0, y1 - 1, x0, x1, x, y);
        let prev = spec_rect(v1, v2, v3, y0, y1 - 1, x0, x1);
        let i = choose|i: int| 0 <= i < prev.len() && #[trigger] prev[i] == f;
        assert(spec_rect(v1, v2, v3, y0, y1, x0, x1)[i] == f);
    }
}

/// Rasterizer coverage, the sound half: every fragment the rasterizer
/// emits belongs to a pixel of the truncated bounding box, and is
/// exactly the fragment that pixel's inclusive inside test emits.
pub proof fn lemma_rasterize_sound(v1: Vertex, v2: Vertex, v3: Vertex)
    requires
        vertex_bounded(v1),
        vertex_bounded(v2),
        vertex_bounded(v3),
    ensures
        forall|i: int|
            0 <= i < spec_rasterize(v1, v2, v3).len() ==> {
                let f = #[trigger] spec_rasterize(v1, v2, v3)[i];
                &&& -16384 <= f.x <= 16384
                &&& -16384 <= f.y <= 16384
                &&& spec_cell(v1, v2, v3, f.x as int, f.y as int) == seq![f]
            },
{
    reveal(spec_rasterize);
    if spec_tri_area2(v1, v2, v3) != 0 {
        let p1 = v1.transformed_position;
        let p2 = v2.transformed_position;
        let p3 = v3.transformed_position;
        lemma_rect_sound(
            v1,
            v2,
            v3,
            sfx_trunc(spec_min3(p1.y, p2.y, p3.y)) as int,
            sfx_trunc(spec_max3(p1.y, p2.y, p3.y)) as int,
            sfx_trunc(spec_min3(p1.x, p2.x, p3.x)) as int,
            sfx_trunc(spec_max3(p1.x, p2.x, p3.x)) as int,
        );
    }
}

/// Rasterizer coverage, the complete half: for a non-degenerate
/// triangle, every pixel of the truncated bounding box whose center
/// passes the inclusive inside test has its fragment in the output.
pub proof fn lemma_rasterize_complete(v1: Vertex, v2: Vertex, v3: Vertex, x: int, y: int)
    requires
        spec_tri_area2(v1, v2, v3) != 0,
        ({
            let p1 = v1.transformed_position;
            let p2 = v2.transformed_position;
            let p3 = v3.transformed_position;
            &&& sfx_trunc(spec_min3(p1.x, p2.x, p3.x)) <= x <= sfx_trunc(
                spec_max3(p1.x, p2.x, p3.x),
            )
            &&& sfx_trunc(spec_min3(p1.y, p2.y, p3.y)) <= y <= sfx_trunc(
                spec_max3(p1.y, p2.y, p3.y),
            )
        }),
        spec_cell(v1, v2, v3, x, y).len() != 0,
    ensures
        spec_rasterize(v1, v2, v3).contains(spec_cell(v1, v2, v3, x, y)[0]),
{
    reveal(spec_rasterize);
    let p1 = v1.transformed_position;
    let p2 = v2.transformed_position;
    let p3 = v3.transformed_position;
    lemma_rect_complete(
        v1,
        v2,
        v3,
        sfx_trunc(spec_min3(p1.y, p2.y, p3.y)) as int,
        sfx_trunc(spec_max3(p1.y, p2.y, p3.y)) as int,
        sfx_trunc(spec_min3(p1.x, p2.x, p3.x)) as int,
        sfx_trunc(spec_max3(p1.x, p2.x, p3.x)) as int,
        x,
        y,
    );
}

fn make_fragment(
    v1: &Vertex,
    v2: &Vertex,
    v3: &Vertex,
    x: i64,
    y: i64,
    e1: Fx,
    e2: Fx,
    e3: Fx,
    s: Fx,
) -> (f: Fragment)
    requires
        vertex_bounded(*v1),
        vertex_bounded(*v2),
        vertex_bounded(*v3),
        fx_bounded(e1),
        fx_bounded(e2),
        fx_bounded(e3),
        fx_bounded(s),
        s != 0,
        -16384 <= x <= 16384,
        -16384 <= y <= 16384,
    ensures
        f == spec_make_fragment(*v1, *v2, *v3, x as int, y as int, e1, e2, e3, s),
        fragment_bounded(f),
{
    let w1: Fx = fx_div(e2, s);
    let w2: Fx = fx_div(e3, s);
    let w3: Fx = fx_div(e1, s);
    let depth: Fx = crate::vecmat::dot3(
        &Vec3Fx { x: w1, y: w2, z: w3 },
        &Vec3Fx {
            x: v1.transformed_position.z,
            y: v2.transformed_position.z,
            z: v3.transformed_position.z,
        },
    );
    let normal: Vec3Fx = bary_vec3(
        w1,
        w2,
        w3,
        &v1.transformed_normal,
        &v2.transformed_normal,
        &v3.transformed_normal,
    );
    let vertex_position: Vec3Fx = bary_vec3(w1, w2, w3, &v1.position, &v2.position, &v3.position);
    Fragment { x, y, color: v1.color, depth, normal, intensity: FX_ONE, vertex_position }
}

fn bary_vec3(w1: Fx, w2: Fx, w3: Fx, a: &Vec3Fx, b: &Vec3Fx, c: &Vec3Fx) -> (r: Vec3Fx)
    requires
        fx_bounded(w1),
        fx_bounded(w2),
        fx_bounded(w3),
        crate::vecmat::vec3_bounded(*a),
        crate::vecmat::vec3_bounded(*b),
        crate::vecmat::vec3_bounded(*c),
    ensures
        r == spec_bary_vec3(w1, w2, w3, *a, *b, *c),
        crate::vecmat::vec3_bounded(r),
{
    Vec3Fx {
        x: fx_add(fx_add(fx_mul(w1, a.x), fx_mul(w2, b.x)), fx_mul(w3, c.x)),
        y: fx_add(fx_add(fx_mul(w1, a.y), fx_mul(w2, b.y)), fx_mul(w3, c.y)),
        z: fx_add(fx_add(fx_mul(w1, a.z), fx_mul(w2, b.z)), fx_mul(w3, c.z)),
    }
}

/// Rasterizes one triangle into its fragment sequence.
///
/// Three collinear screen positions (a zero edge function of the triangle
/// itself) produce the empty sequence.
#[verifier::rlimit(100)]
pub fn triangle(v1: &Vertex, v2: &Vertex, v3: &Vertex) -> (frags: Vec<Fragment>)
    requires
        vertex_bounded(*v1),
        vertex_bounded(*v2),
        vertex_bounded(*v3),
    ensures
        frags@ == spec_rasterize(*v1, *v2, *v3),
        spec_tri_area2(*v1, *v2, *v3) == 0 ==> frags@ == Seq::<Fragment>::empty(),
        forall|i: int| 0 <= i < frags@.len() ==> fragment_bounded(#[trigger] frags@[i]),
{
    proof {
        reveal(spec_rasterize);
    }
    let mut frags: Vec<Fragment> = Vec::new();
    let area: Fx = edge_function(
        &v1.transformed_position,
        &v2.transformed_position,
        &v3.transformed_position,
    );
    if area == 0 {
        return frags;
    }
    let min_x: i64 = fx_trunc(fx_min(fx_min(v1.transformed_position.x, v2.transformed_position.x), v3.transformed_position.x));
    let max_x: i64 = fx_trunc(fx_max(fx_max(v1.transformed_position.x, v2.transformed_position.x), v3.transformed_position.x));
    let min_y: i64 = fx_trunc(fx_min(fx_min(v1.transformed_position.y, v2.transformed_position.y), v3.transformed_position.y));
    let max_y: i64 = fx_trunc(fx_max(fx_max(v1.transformed_position.y, v2.transformed_position.y), v3.transformed_position.y));
    let mut y: i64 = min_y;
    #[verifier::loop_isolation(false)]
    while y <= max_y
        invariant
            min_y <= y <= max_y + 1,
            frags@ == spec_rect(*v1, *v2, *v3, min_y as int, y - 1, min_x as int, max_x as int),
            forall|i: int| 0 <= i < frags@.len() ==> fragment_bounded(#[trigger] frags@[i]),
        decreases max_y + 1 - y,
    {
        let mut x: i64 = min_x;
        #[verifier::loop_isolation(false)]
        while x <= max_x
            invariant
                min_x <= x <= max_x + 1,
                min_y <= y <= max_y,
                frags@ == spec_rect(*v1, *v2, *v3, min_y as int, y - 1, min_x as int, max_x as int)
                    + spec_row(*v1, *v2, *v3, y as int, min_x as int, x - 1),
                forall|i: int| 0 <= i < frags@.len() ==> fragment_bounded(#[trigger] frags@[i]),
            decreases max_x + 1 - x,
        {
            let px: Fx = fx_add(fx_from_int(x), FX_HALF);
            let py: Fx = fx_add(fx_from_int(y), FX_HALF);
            let point = Vec3Fx { x: px, y: py, z: 0 };
            let e1: Fx = edge_function(&v1.transformed_position, &v2.transformed_position, &point);
            let e2: Fx = edge_function(&v2.transformed_position, &v3.transformed_position, &point);
            let e3: Fx = edge_function(&v3.transformed_position, &v1.transformed_position, &point);
            let s: Fx = fx_add(fx_add(e1, e2), e3);
            if e1 >= 0 && e2 >= 0 && e3 >= 0 && s != 0 {
                let f: Fragment = make_fragment(v1, v2, v3, x, y, e1, e2, e3, s);
                frags.push(f);
                proof {
                    assert(spec_cell(*v1, *v2, *v3, x as int, y as int) =~= seq![f]);
                    assert(frags@ =~= spec_rect(
                        *v1,
                        *v2,
                        *v3,
                        min_y as int,
                        y - 1,
                        min_x as int,
                        max_x as int,
                    ) + spec_row(*v1, *v2, *v3, y as int, min_x as int, x as int));
                }
            } else {
                proof {
                    assert(spec_cell(*v1, *v2, *v3, x as int, y as int) =~= Seq::<
                        Fragment,
                    >::empty());
                    assert(frags@ =~= spec_rect(
                        *v1,
                        *v2,
                        *v3,
                        min_y as int,
                        y - 1,
                        min_x as int,
                        max_x as int,
                    ) + spec_row(*v1, *v2, *v3, y as int, min_x as int, x as int));
                }
            }
            x = x + 1;
        }
        proof {
            assert(frags@ =~= spec_rect(
                *v1,
                *v2,
                *v3,
                min_y as int,
                y as int,
                min_x as int,
                max_x as int,
            ));
        }
        y = y + 1;
    }
    frags
}

} // verus!
