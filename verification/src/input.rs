//! Commands: what the input source asks of the scene, one frame at a time.
//!
//! Which key stands for which command is the caller's business. What a
//! command does, and when it is turned away, is decided here.

use vstd::prelude::*;
use crate::body::CelestialBody;
use crate::camera::{Camera, CameraState};
use crate::vec3::Vec3;

verus! {

/// One request of the input source.
#[derive(Clone, Copy, Debug, PartialEq, Eq, Structural)]
pub enum Command {
    /// Orbit so that the eye lies in the given direction from the centre.
    Orbit(Vec3),
    /// Zoom in by the given amount.
    Zoom(i32),
    /// Pan so that the centre lies in the given direction from the eye.
    Pan(Vec3),
    /// Show the body with the given number if it is hidden, hide it if it
    /// is shown.
    ToggleVisible(usize),
    /// Start a transition to the body with the given number.
    WarpTo(usize),
    /// Put the camera back to its initial pose.
    Reset,
    /// Start a transition to the bird's-eye view.
    BirdEye,
}

/// The camera after a command: moves go to the camera as they are; a warp
/// starts only toward a body that exists; a reset is carried out only while
/// no transition is in progress.
pub open spec fn camera_after(camera: CameraState, bodies: Seq<CelestialBody>, command: Command) -> CameraState {
    match command {
        Command::Orbit(direction) => camera.orbit(direction, bodies),
        Command::Zoom(delta) => camera.zoom(delta as int, bodies),
        Command::Pan(direction) => camera.move_center(direction, bodies),
        Command::ToggleVisible(_) => camera,
        Command::WarpTo(n) => if n < bodies.len() {
            camera.start_warp(bodies[n as int].position)
        } else {
            camera
        },
        Command::Reset => if camera.warp_state is Idle {
            camera.reset()
        } else {
            camera
        },
        Command::BirdEye => camera.bird_eye_view(),
    }
}

/// Whether the body with number `i` is visible after a command.
pub open spec fn visible_after(bodies: Seq<CelestialBody>, command: Command, i: int) -> bool {
    match command {
        Command::ToggleVisible(n) => if n == i {
            !bodies[i].visible
        } else {
            bodies[i].visible
        },
        _ => bodies[i].visible,
    }
}

/// Whether two bodies differ in nothing but their visibility.
pub open spec fn same_but_visibility(a: CelestialBody, b: CelestialBody) -> bool {
    a == (CelestialBody { visible: a.visible, ..b })
}

/// Carries out one command on the camera and the bodies.
pub fn handle_command(camera: &mut Camera, bodies: &mut Vec<CelestialBody>, command: Command)
    ensures
        final(camera)@ == camera_after(old(camera)@, old(bodies)@, command),
        final(bodies)@.len() == old(bodies)@.len(),
        forall|i: int|
            0 <= i < old(bodies)@.len() ==> same_but_visibility(
                #[trigger] final(bodies)@[i],
                old(bodies)@[i],
            ) && final(bodies)@[i].visible == visible_after(old(bodies)@, command, i),
{
    match command {
        Command::Orbit(direction) => camera.orbit(direction, bodies.as_slice()),
        Command::Zoom(delta) => camera.zoom(delta, bodies.as_slice()),
        Command::Pan(direction) => camera.move_center(direction, bodies.as_slice()),
        Command::ToggleVisible(n) => {
            if n < bodies.len() {
                let shown: bool = bodies[n].visible;
                bodies[n].visible = !shown;
            }
        },
        Command::WarpTo(n) => {
            if n < bodies.len() {
                let target = bodies[n].position;
                camera.start_warp(target);
            }
        },
        Command::Reset => {
            if camera.warp_state().is_idle() {
                camera.reset_position();
            }
        },
        Command::BirdEye => camera.bird_eye_view(),
    }
}

} // verus!
