//! Mesh vertices, before and after the transform stage.

use vstd::prelude::*;
use crate::color::Color;
use crate::vec3::{Vec2, Vec3};

verus! {

/// A mesh vertex. The first four fields describe it in object space; the
/// last three are filled in by the transform stage.
#[derive(Clone, Copy, Debug, PartialEq, Eq, Structural)]
pub struct Vertex {
    pub position: Vec3,
    pub normal: Vec3,
    pub tex_coords: Vec2,
    pub color: Color,
    /// Position on the screen, with depth in `z`.
    pub transformed_position: Vec3,
    /// Normal in world space.
    pub transformed_normal: Vec3,
    /// Position in world space.
    pub world_position: Vec3,
}

impl Vertex {
    /// A vertex that has not been transformed yet: its transformed position
    /// and normal repeat the object-space ones, and it is black.
    pub fn new(position: Vec3, normal: Vec3, tex_coords: Vec2) -> (v: Vertex)
        ensures
            v == (Vertex {
                position,
                normal,
                tex_coords,
                color: Color { r: 0, g: 0, b: 0 },
                transformed_position: position,
                transformed_normal: normal,
                world_position: position,
            }),
    {
        Vertex {
            position,
            normal,
            tex_coords,
            color: Color { r: 0, g: 0, b: 0 },
            transformed_position: position,
            transformed_normal: normal,
            world_position: position,
        }
    }
}

} // verus!
