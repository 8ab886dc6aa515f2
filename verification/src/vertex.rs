//! Mesh vertices: object-space attributes plus the two fields the
//! transform stage derives (screen-space position and rotated normal).

use vstd::prelude::*;
use crate::color::Color;
use crate::vecmat::Vec2Fx;
use crate::vecmat::Vec3Fx;
use crate::vecmat::vec2_bounded;
use crate::vecmat::vec3_bounded;

verus! {

/// A vertex of a triangle mesh. The transform stage never mutates a
/// vertex in place: it produces a new one with the derived fields set.
#[derive(Debug, Clone, Copy, PartialEq, Eq, Structural)]
pub struct Vertex {
    pub position: Vec3Fx,
    pub normal: Vec3Fx,
    pub tex_coords: Vec2Fx,
    pub color: Color,
    pub transformed_position: Vec3Fx,
    pub transformed_normal: Vec3Fx,
}

/// All coordinate fields within the fixed-point range.
pub open spec fn vertex_bounded(v: Vertex) -> bool {
    &&& vec3_bounded(v.position)
    &&& vec3_bounded(v.normal)
    &&& vec2_bounded(v.tex_coords)
    &&& vec3_bounded(v.transformed_position)
    &&& vec3_bounded(v.transformed_normal)
}

impl Vertex {
    /// A fresh mesh vertex: no texture coordinates, a white base color,
    /// and zeroed derived fields.
    pub fn new(position: Vec3Fx, normal: Vec3Fx) -> (v: Vertex)
        requires
            vec3_bounded(position),
            vec3_bounded(normal),
        ensures
            v == (Vertex {
                position,
                normal,
                tex_coords: Vec2Fx { x: 0, y: 0 },
                color: Color { r: 255, g: 255, b: 255 },
                transformed_position: Vec3Fx { x: 0, y: 0, z: 0 },
                transformed_normal: Vec3Fx { x: 0, y: 0, z: 0 },
            }),
            vertex_bounded(v),
    {
        Vertex {
            position,
            normal,
            tex_coords: Vec2Fx { x: 0, y: 0 },
            color: Color { r: 255, g: 255, b: 255 },
            transformed_position: Vec3Fx { x: 0, y: 0, z: 0 },
            transformed_normal: Vec3Fx { x: 0, y: 0, z: 0 },
        }
    }
}

} // verus!
