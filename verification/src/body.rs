//! The bodies of the scene.

use vstd::prelude::*;
use crate::fixed::{fixed_mul, fmul, sat, saturate};
use crate::matrix::SinCos;
use crate::shaders::ShaderType;
use crate::vec3::Vec3;
use crate::vertex::Vertex;

verus! {

/// The most past positions that a trail keeps.
pub const TRAIL_CAPACITY: usize = 50;

/// A past position of a body.
#[derive(Clone, Copy, Debug, PartialEq, Eq, Structural)]
pub struct TrailPoint {
    pub position: Vec3,
}

/// A ring around a body.
pub struct Ring {
    pub vertex_arrays: Vec<Vertex>,
    /// Size relative to the body.
    pub scale: i32,
    pub rotation: Vec3,
}

/// A body of the scene.
pub struct CelestialBody {
    pub name: String,
    pub position: Vec3,
    pub scale: i32,
    pub rotation: Vec3,
    pub shader_type: ShaderType,
    pub visible: bool,
    pub orbital_speed: i32,
    pub axial_speed: i32,
    pub orbital_radius: i32,
    pub orbital_offset: i32,
    pub ring: Option<Ring>,
    /// Past positions, oldest first.
    pub trail: Vec<TrailPoint>,
    pub orbital_angle: i32,
    pub orbit_complete: bool,
}

/// A trail after `point` has been recorded: the point goes to the end, and
/// the oldest points leave so that no more than `TRAIL_CAPACITY` stay.
pub open spec fn recorded(trail: Seq<TrailPoint>, point: TrailPoint) -> Seq<TrailPoint> {
    let grown = trail.push(point);
    if grown.len() <= TRAIL_CAPACITY {
        grown
    } else {
        grown.skip(grown.len() - TRAIL_CAPACITY)
    }
}

/// Whether two bodies differ in nothing but their trails.
pub open spec fn same_but_trail(a: CelestialBody, b: CelestialBody) -> bool {
    a == (CelestialBody { trail: a.trail, ..b })
}

impl CelestialBody {
    /// The angle of the body on its orbit at the given frame: the frame
    /// number times the orbital speed, plus the offset.
    pub open spec fn phase(self, time: u32) -> int {
        sat(time * self.orbital_speed + self.orbital_offset)
    }

    /// The place of the body on its orbit, given the sine and cosine of its
    /// phase: on the circle of the orbital radius about the vertical axis,
    /// at the height the body has.
    pub open spec fn orbit_position(self, turn: SinCos) -> Vec3 {
        Vec3 {
            x: fixed_mul(self.orbital_radius as int, turn.cos as int) as i32,
            y: self.position.y,
            z: fixed_mul(self.orbital_radius as int, turn.sin as int) as i32,
        }
    }

    /// Computes the angle of the body on its orbit at the given frame.
    pub fn orbit_phase(&self, time: u32) -> (angle: i32)
        ensures
            angle == self.phase(time),
    {
        assert(-0x8000_0000_0000_0000 <= time * self.orbital_speed <= 0x8000_0000_0000_0000)
            by (nonlinear_arith)
            requires
                0 <= time <= 0xffff_ffff,
                -0x8000_0000 <= self.orbital_speed <= 0x7fff_ffff,
        ;
        saturate((time as i128) * (self.orbital_speed as i128) + self.orbital_offset as i128)
    }

    /// Moves the body to its place on its orbit, given the sine and cosine
    /// of its phase, and turns it about its axis by its axial speed.
    pub fn advance(&mut self, turn: SinCos)
        ensures
            *final(self) == (CelestialBody {
                position: old(self).orbit_position(turn),
                rotation: Vec3 {
                    y: sat(old(self).rotation.y + old(self).axial_speed) as i32,
                    ..old(self).rotation
                },
                ..*old(self)
            }),
    {
        self.position.x = fmul(self.orbital_radius, turn.cos);
        self.position.z = fmul(self.orbital_radius, turn.sin);
        self.rotation.y = saturate(self.rotation.y as i128 + self.axial_speed as i128);
    }

    /// Records the present position at the end of the trail, on every
    /// second frame; the trail never grows beyond `TRAIL_CAPACITY` points.
    pub fn record_trail(&mut self, time: u32)
        ensures
            final(self).trail@ == if time % 2 == 0 {
                recorded(old(self).trail@, TrailPoint { position: old(self).position })
            } else {
                old(self).trail@
            },
            final(self).trail@.len() <= old(self).trail@.len() + 1,
            old(self).trail@.len() <= TRAIL_CAPACITY ==> final(self).trail@.len()
                <= TRAIL_CAPACITY,
            same_but_trail(*final(self), *old(self)),
    {
        if time % 2 != 0 {
            return;
        }
        let point = TrailPoint { position: self.position };
        let ghost grown = self.trail@.push(point);
        let mut kept: Vec<TrailPoint> = Vec::new();
        let len: usize = self.trail.len();
        let first: usize = if len >= TRAIL_CAPACITY {
            len - TRAIL_CAPACITY + 1
        } else {
            0
        };
        let mut i: usize = first;
        while i < len
            invariant
                first <= i <= len,
                len == self.trail@.len(),
                kept@ == self.trail@.subrange(first as int, i as int),
            decreases len - i,
        {
            kept.push(self.trail[i]);
            proof {
                assert(self.trail@.subrange(first as int, i + 1) == self.trail@.subrange(
                    first as int,
                    i as int,
                ).push(self.trail@[i as int]));
            }
            i = i + 1;
        }
        kept.push(point);
        proof {
            assert(kept@ == recorded(self.trail@, point));
        }
        self.trail = kept;
    }
}

} // verus!
