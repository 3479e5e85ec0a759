//! Fragments: the samples that rasterization hands to shading.

use vstd::prelude::*;
use crate::color::Color;
use crate::vec3::{Vec2, Vec3};

verus! {

/// One rasterized, interpolated sample of a triangle at one pixel.
#[derive(Clone, Copy, Debug, PartialEq, Eq, Structural)]
pub struct Fragment {
    /// Position on the screen, in pixels.
    pub position: Vec2,
    pub color: Color,
    pub depth: i32,
    pub normal: Vec3,
    pub intensity: i32,
    pub world_position: Vec3,
    pub tex_coords: Vec2,
}

impl Fragment {
    /// The fragment with the given attributes.
    pub fn new(
        position: Vec2,
        color: Color,
        depth: i32,
        normal: Vec3,
        intensity: i32,
        world_position: Vec3,
        tex_coords: Vec2,
    ) -> (f: Fragment)
        ensures
            f == (Fragment { position, color, depth, normal, intensity, world_position, tex_coords }),
    {
        Fragment { position, color, depth, normal, intensity, world_position, tex_coords }
    }
}

} // verus!
