//! Fragments: the candidate pixels a rasterized triangle emits, each
//! consumed by one shader call and then discarded.

use vstd::prelude::*;
use crate::color::Color;
use crate::fixed::Fx;
use crate::fixed::fx_bounded;
use crate::vecmat::Vec3Fx;
use crate::vecmat::vec3_bounded;

verus! {

/// One candidate pixel of a rasterized triangle: its integer pixel
/// coordinates, interpolated depth and normal, an object-space position
/// for shading, a lighting factor, and a base color.
#[derive(Debug, Clone, Copy, PartialEq, Eq, Structural)]
pub struct Fragment {
    pub x: i64,
    pub y: i64,
    pub color: Color,
    pub depth: Fx,
    pub normal: Vec3Fx,
    pub intensity: Fx,
    pub vertex_position: Vec3Fx,
}

/// All coordinate fields within range: the pixel coordinates fit the
/// truncation range of the rasterizer and the attributes are fixed-point
/// bounded.
pub open spec fn fragment_bounded(f: Fragment) -> bool {
    &&& -16384 <= f.x <= 16384
    &&& -16384 <= f.y <= 16384
    &&& fx_bounded(f.depth)
    &&& vec3_bounded(f.normal)
    &&& fx_bounded(f.intensity)
    &&& vec3_bounded(f.vertex_position)
}

impl Fragment {
    /// A fragment from its parts.
    pub fn new(
        x: i64,
        y: i64,
        color: Color,
        depth: Fx,
        normal: Vec3Fx,
        intensity: Fx,
        vertex_position: Vec3Fx,
    ) -> (f: Fragment)
        ensures
            f == (Fragment { x, y, color, depth, normal, intensity, vertex_position }),
    {
        Fragment { x, y, color, depth, normal, intensity, vertex_position }
    }
}

} // verus!
