//! The orbit camera and its cinematic transitions.
//!
//! The camera owns an eye, a look-at centre and an up vector. Moves are
//! proposed and then committed only if they respect the camera's bounds and
//! keep the eye clear of every body; a rejected move changes nothing. A
//! transition ("warp") carries the camera to a new vantage point over many
//! ticks, one small step per call.
//!
//! Trigonometry is left to the caller: an orbit or a pan is proposed as the
//! direction in which the moved point shall lie, the easing curve as its
//! value for the current tick. The camera decides lengths, bounds,
//! collisions and the order of the stages.

use vstd::prelude::*;
use crate::body::CelestialBody;
use crate::fixed::{
    clamp, clamp_to, div_toward_zero, lemma_trunc_rem_bound, trunc_div, trunc_rem, ONE,
};
use crate::vec3::{fixed_of_wide, narrow, place, place_at_distance, product, Vec3};
use crate::warp::{
    law_tick_follows_the_cycle, lemma_portal_progress, WarpState, APPROACH_STEP, OVERVIEW_STEP,
    PORTAL_STEP,
};

verus! {

/// The nearest the eye may be zoomed to the centre: `10.0`.
pub const MIN_ZOOM: i32 = 1_000_000;

/// The farthest the eye may be zoomed from the centre: `100.0`.
pub const MAX_ZOOM: i32 = 10_000_000;

/// The farthest the centre may be panned from the world origin: `50.0`.
pub const MAX_CENTER_DISTANCE: i32 = 5_000_000;

/// Height of the overview waypoint above a warp target: `25.0`.
pub const OVERVIEW_HEIGHT: i32 = 2_500_000;

/// Horizontal offset, along `x` and along `z`, of the final waypoint from a
/// warp target: `8.0`.
pub const FINAL_SIDE: i32 = 800_000;

/// Height of the final waypoint above a warp target: `12.0`.
pub const FINAL_HEIGHT: i32 = 1_200_000;

/// A full turn, in radians.
pub const TWO_PI: i32 = 628_318;

/// The steepest pitch an orbit may reach: a tenth of a radian short of
/// straight up or down.
pub const PITCH_LIMIT: i32 = 147_079;

/// A pan turns the view by one twentieth of a radian per unit of direction.
pub const PAN_DIVISOR: i32 = 20;

/// The bird's-eye vantage point: `(-40, 80, 40)`.
pub open spec fn bird_eye() -> Vec3 {
    Vec3 { x: -4_000_000i32, y: 8_000_000i32, z: 4_000_000i32 }
}

/// Whether `p` is nearer to the body's centre than 1.2 times its scale.
pub open spec fn hits(p: Vec3, body: CelestialBody) -> bool {
    body.scale > 0 && 25 * p.dist_sq(body.position) < 36 * (body.scale * body.scale)
}

/// Whether `p` collides with one of `bodies`.
pub open spec fn collides_any(bodies: Seq<CelestialBody>, p: Vec3) -> bool {
    exists|i: int| 0 <= i < bodies.len() && hits(p, #[trigger] bodies[i])
}

/// The yaw after a turn by `delta`, wrapped to less than a full turn.
pub open spec fn wrapped_yaw(yaw: int, delta: int) -> int {
    trunc_rem(yaw + delta, TWO_PI as int)
}

/// The pitch after a turn by `delta`, kept away from the poles.
pub open spec fn clamped_pitch(pitch: int, delta: int) -> int {
    clamp(pitch + delta, -(PITCH_LIMIT as int), PITCH_LIMIT as int)
}

/// One thing that can be asked of a camera.
#[derive(Clone, Copy, Debug, PartialEq, Eq, Structural)]
pub enum Operation {
    /// An orbit that puts the eye in the given direction from the centre.
    Orbit(Vec3),
    /// A zoom by the given amount.
    Zoom(i32),
    /// A pan that puts the centre in the given direction from the eye.
    Pan(Vec3),
    /// The start of a warp to the given target.
    StartWarp(Vec3),
    /// The start of the bird's-eye view.
    BirdEye,
    /// One animation tick, with the given value of the easing curve.
    Tick(i32),
    /// A reading of the dirty flag.
    Acknowledge,
    /// A reset of the pose.
    Reset,
}

/// Everything a camera holds.
pub struct CameraState {
    pub eye: Vec3,
    pub center: Vec3,
    pub up: Vec3,
    pub has_changed: bool,
    pub min_zoom: i32,
    pub max_zoom: i32,
    pub max_center_distance: i32,
    pub warping: bool,
    pub warp_start_eye: Vec3,
    pub warp_start_center: Vec3,
    pub warp_target_eye: Vec3,
    pub warp_target_center: Vec3,
    pub warp_state: WarpState,
    pub portal_radius: i32,
    pub overview_target: Vec3,
    pub final_target: Vec3,
    pub initial_eye: Vec3,
    pub initial_center: Vec3,
    pub initial_up: Vec3,
}

impl CameraState {
    /// The state of a camera that has just been built.
    pub open spec fn initial(eye: Vec3, center: Vec3, up: Vec3) -> CameraState {
        CameraState {
            eye,
            center,
            up,
            has_changed: true,
            min_zoom: MIN_ZOOM,
            max_zoom: MAX_ZOOM,
            max_center_distance: MAX_CENTER_DISTANCE,
            warping: false,
            warp_start_eye: eye,
            warp_start_center: center,
            warp_target_eye: eye,
            warp_target_center: center,
            warp_state: WarpState::Idle,
            portal_radius: 0,
            overview_target: eye,
            final_target: eye,
            initial_eye: eye,
            initial_center: center,
            initial_up: up,
        }
    }

    /// The portal radius that belongs to the warp state: it follows the
    /// progress while the portal opens, stays at `ONE` while the camera
    /// travels, falls with the progress while the portal closes, and is
    /// zero when idle.
    pub open spec fn radius_of_stage(self) -> int {
        match self.warp_state {
            WarpState::Idle => 0,
            WarpState::PortalOpening(p) => p as int,
            WarpState::Overview(_) => ONE as int,
            WarpState::Approaching(_) => ONE as int,
            WarpState::PortalClosing(p) => ONE - p,
        }
    }

    /// What every camera satisfies at all times.
    pub open spec fn valid(self) -> bool {
        &&& self.warp_state.well_formed()
        &&& self.warping == !(self.warp_state is Idle)
        &&& self.portal_radius == self.radius_of_stage()
        &&& self.min_zoom == MIN_ZOOM
        &&& self.max_zoom == MAX_ZOOM
        &&& self.max_center_distance == MAX_CENTER_DISTANCE
    }

    /// The distance from the centre to the eye, rounded down.
    pub open spec fn radius(self) -> int {
        self.eye.dist(self.center)
    }

    /// Whether the pose is within its bounds: the eye is apart from the
    /// centre, its distance from the centre lies between the zoom bounds,
    /// and the centre is within the pan bound of the world origin. Orbits,
    /// zooms and pans keep a pose within its bounds; a camera may be built
    /// outside them, and a transition may carry it outside them.
    pub open spec fn in_bounds(self) -> bool {
        &&& self.eye != self.center
        &&& self.min_zoom <= self.radius() <= self.max_zoom
        &&& self.within_pan_bound(self.center)
    }

    /// The state with the eye moved to `candidate`, unless it would collide.
    pub open spec fn with_eye(self, candidate: Option<Vec3>, bodies: Seq<CelestialBody>) -> CameraState {
        match candidate {
            Some(eye) => if collides_any(bodies, eye) {
                self
            } else {
                CameraState { eye, has_changed: true, ..self }
            },
            None => self,
        }
    }

    /// Where an orbit toward `direction` would put the eye: at the current
    /// radius from the centre, in that direction.
    pub open spec fn orbit_candidate(self, direction: Vec3) -> Option<Vec3> {
        place(
            self.center,
            direction.x as int,
            direction.y as int,
            direction.z as int,
            self.radius(),
        )
    }

    /// The state after an orbit toward `direction`.
    pub open spec fn orbit(self, direction: Vec3, bodies: Seq<CelestialBody>) -> CameraState {
        self.with_eye(self.orbit_candidate(direction), bodies)
    }

    /// The distance a zoom by `delta` aims for.
    pub open spec fn zoom_distance(self, delta: int) -> int {
        clamp(self.radius() - delta, self.min_zoom as int, self.max_zoom as int)
    }

    /// Where a zoom by `delta` would put the eye: on the ray from the centre
    /// through the eye, at the zoom distance.
    pub open spec fn zoom_candidate(self, delta: int) -> Option<Vec3> {
        place(
            self.center,
            self.eye.x - self.center.x,
            self.eye.y - self.center.y,
            self.eye.z - self.center.z,
            self.zoom_distance(delta),
        )
    }

    /// The state after a zoom by `delta`.
    pub open spec fn zoom(self, delta: int, bodies: Seq<CelestialBody>) -> CameraState {
        self.with_eye(self.zoom_candidate(delta), bodies)
    }

    /// Where a pan toward `direction` would put the centre: at the current
    /// radius from the eye, in that direction.
    pub open spec fn pan_candidate(self, direction: Vec3) -> Option<Vec3> {
        place(
            self.eye,
            direction.x as int,
            direction.y as int,
            direction.z as int,
            self.radius(),
        )
    }

    /// Whether `center` is within the pan bound of the world origin.
    pub open spec fn within_pan_bound(self, center: Vec3) -> bool {
        center.length_sq() <= self.max_center_distance * self.max_center_distance
    }

    /// The state after a pan toward `direction`. The collision test is on
    /// the eye as it stands, not on the new centre.
    pub open spec fn move_center(self, direction: Vec3, bodies: Seq<CelestialBody>) -> CameraState {
        match self.pan_candidate(direction) {
            Some(center) => if self.within_pan_bound(center) && !collides_any(bodies, self.eye) {
                CameraState { center, has_changed: true, ..self }
            } else {
                self
            },
            None => self,
        }
    }

    /// The state after the dirty flag has been read.
    pub open spec fn acknowledged(self) -> CameraState {
        CameraState { has_changed: false, ..self }
    }

    /// The state after a transition has been asked for: if the camera is
    /// idle the transition starts, else nothing changes.
    pub open spec fn begin(self, overview: Vec3, look_at: Vec3, last: Vec3) -> CameraState {
        if self.warp_state is Idle {
            CameraState {
                warping: true,
                warp_start_eye: self.eye,
                warp_start_center: self.center,
                warp_target_eye: overview,
                warp_target_center: look_at,
                warp_state: WarpState::PortalOpening(0),
                portal_radius: 0,
                overview_target: overview,
                final_target: last,
                ..self
            }
        } else {
            self
        }
    }

    /// The state after a warp to `target` has been asked for.
    pub open spec fn start_warp(self, target: Vec3) -> CameraState {
        self.begin(
            target.offset(0, OVERVIEW_HEIGHT as int, 0),
            target,
            target.offset(FINAL_SIDE as int, FINAL_HEIGHT as int, FINAL_SIDE as int),
        )
    }

    /// The state after the bird's-eye view has been asked for.
    pub open spec fn bird_eye_view(self) -> CameraState {
        self.begin(bird_eye(), Vec3::zero(), bird_eye())
    }

    /// The state after one animation tick, where `eased` is the value of the
    /// easing curve at the progress that this tick reaches.
    pub open spec fn tick(self, eased: int) -> CameraState {
        let next = self.warp_state.next();
        match self.warp_state {
            WarpState::Idle => CameraState { warping: false, ..self },
            WarpState::PortalOpening(_) => CameraState {
                warp_state: next,
                portal_radius: self.warp_state.advanced() as i32,
                ..self
            },
            WarpState::Overview(_) => if self.warp_state.finishing() {
                CameraState {
                    warp_state: next,
                    warp_start_eye: self.eye,
                    warp_target_eye: self.final_target,
                    ..self
                }
            } else {
                CameraState {
                    warp_state: next,
                    eye: self.warp_start_eye.lerp(self.overview_target, eased),
                    center: self.warp_start_center.lerp(self.warp_target_center, eased),
                    has_changed: true,
                    ..self
                }
            },
            WarpState::Approaching(_) => if self.warp_state.finishing() {
                CameraState { warp_state: next, ..self }
            } else {
                CameraState {
                    warp_state: next,
                    eye: self.warp_start_eye.lerp(self.warp_target_eye, eased),
                    has_changed: true,
                    ..self
                }
            },
            WarpState::PortalClosing(_) => CameraState {
                warp_state: next,
                portal_radius: (ONE - self.warp_state.advanced()) as i32,
                warping: !self.warp_state.finishing(),
                ..self
            },
        }
    }

    /// The opacity of the portal overlay: the portal radius while a
    /// transition is in progress, nothing when idle.
    pub open spec fn portal(self) -> Option<i32> {
        if self.warp_state is Idle {
            None
        } else {
            Some(self.portal_radius)
        }
    }

    /// The progress that the next tick eases the camera to, if that tick
    /// moves the camera.
    pub open spec fn easing_progress(self) -> Option<i32> {
        match self.warp_state {
            WarpState::Overview(_) | WarpState::Approaching(_) => if self.warp_state.finishing() {
                None
            } else {
                Some(self.warp_state.advanced() as i32)
            },
            _ => None,
        }
    }

    /// The unit vector from the eye toward the centre.
    pub open spec fn forward(self) -> Vec3 {
        self.eye.direction_to(self.center)
    }

    /// The unit vector to the right of the view.
    pub open spec fn right(self) -> Vec3 {
        self.forward().cross(self.up).normalized()
    }

    /// The unit vector that points up in the view.
    pub open spec fn view_up(self) -> Vec3 {
        self.right().cross(self.forward()).normalized()
    }

    /// The world-space direction of `vector`, which is given in the
    /// camera's own basis: `x` to the right, `y` up, `z` toward the viewer.
    pub open spec fn basis_change(self, vector: Vec3) -> Vec3 {
        let right = self.right();
        let up = self.view_up();
        let forward = self.forward();
        (Vec3 {
            x: fixed_of_wide(vector.x * right.x + vector.y * up.x - vector.z * forward.x) as i32,
            y: fixed_of_wide(vector.x * right.y + vector.y * up.y - vector.z * forward.y) as i32,
            z: fixed_of_wide(vector.x * right.z + vector.y * up.z - vector.z * forward.z) as i32,
        }).normalized()
    }

    /// The state after a run of ticks, one for each value of the easing
    /// curve in `eased`, first to last.
    pub open spec fn ticked(self, eased: Seq<int>) -> CameraState
        decreases eased.len(),
    {
        if eased.len() == 0 {
            self
        } else {
            self.ticked(eased.drop_last()).tick(eased.last())
        }
    }

    /// The state after the pose has been reset.
    pub open spec fn reset(self) -> CameraState {
        CameraState {
            eye: self.initial_eye,
            center: self.initial_center,
            up: self.initial_up,
            has_changed: true,
            ..self
        }
    }

    /// The state after one operation.
    pub open spec fn applied(self, operation: Operation, bodies: Seq<CelestialBody>) -> CameraState {
        match operation {
            Operation::Orbit(direction) => self.orbit(direction, bodies),
            Operation::Zoom(delta) => self.zoom(delta as int, bodies),
            Operation::Pan(direction) => self.move_center(direction, bodies),
            Operation::StartWarp(target) => self.start_warp(target),
            Operation::BirdEye => self.bird_eye_view(),
            Operation::Tick(eased) => self.tick(eased as int),
            Operation::Acknowledge => self.acknowledged(),
            Operation::Reset => self.reset(),
        }
    }

    /// The state after a sequence of operations, first to last.
    pub open spec fn applied_all(self, operations: Seq<Operation>, bodies: Seq<CelestialBody>) -> CameraState
        decreases operations.len(),
    {
        if operations.len() == 0 {
            self
        } else {
            self.applied_all(operations.drop_last(), bodies).applied(operations.last(), bodies)
        }
    }
}

/// The orbit-and-transition camera.
pub struct Camera {
    eye: Vec3,
    center: Vec3,
    up: Vec3,
    has_changed: bool,
    min_zoom: i32,
    max_zoom: i32,
    max_center_distance: i32,
    warping: bool,
    warp_start_eye: Vec3,
    warp_start_center: Vec3,
    warp_target_eye: Vec3,
    warp_target_center: Vec3,
    warp_state: WarpState,
    portal_radius: i32,
    overview_target: Vec3,
    final_target: Vec3,
    initial_eye: Vec3,
    initial_center: Vec3,
    initial_up: Vec3,
}

impl View for Camera {
    type V = CameraState;

    closed spec fn view(&self) -> CameraState {
        CameraState {
            eye: self.eye,
            center: self.center,
            up: self.up,
            has_changed: self.has_changed,
            min_zoom: self.min_zoom,
            max_zoom: self.max_zoom,
            max_center_distance: self.max_center_distance,
            warping: self.warping,
            warp_start_eye: self.warp_start_eye,
            warp_start_center: self.warp_start_center,
            warp_target_eye: self.warp_target_eye,
            warp_target_center: self.warp_target_center,
            warp_state: self.warp_state,
            portal_radius: self.portal_radius,
            overview_target: self.overview_target,
            final_target: self.final_target,
            initial_eye: self.initial_eye,
            initial_center: self.initial_center,
            initial_up: self.initial_up,
        }
    }
}

impl Camera {
    #[verifier::type_invariant]
    spec fn inv(self) -> bool {
        self@.valid()
    }

    /// Builds a camera at rest, with the pose it will later be reset to.
    pub fn new(eye: Vec3, center: Vec3, up: Vec3) -> (camera: Camera)
        ensures
            camera@ == CameraState::initial(eye, center, up),
            camera@.valid(),
    {
        Camera {
            eye,
            center,
            up,
            has_changed: true,
            min_zoom: MIN_ZOOM,
            max_zoom: MAX_ZOOM,
            max_center_distance: MAX_CENTER_DISTANCE,
            warping: false,
            warp_start_eye: eye,
            warp_start_center: center,
            warp_target_eye: eye,
            warp_target_center: center,
            warp_state: WarpState::Idle,
            portal_radius: 0,
            overview_target: eye,
            final_target: eye,
            initial_eye: eye,
            initial_center: center,
            initial_up: up,
        }
    }

    /// The position of the camera.
    pub fn eye(&self) -> (v: Vec3)
        ensures
            v == self@.eye,
    {
        self.eye
    }

    /// The point the camera looks at.
    pub fn center(&self) -> (v: Vec3)
        ensures
            v == self@.center,
    {
        self.center
    }

    /// The up vector of the camera.
    pub fn up(&self) -> (v: Vec3)
        ensures
            v == self@.up,
    {
        self.up
    }

    /// Whether the pose has changed since the flag was last cleared; the
    /// flag stays as it is.
    pub fn has_changed(&self) -> (b: bool)
        ensures
            b == self@.has_changed,
    {
        self.has_changed
    }

    /// Whether a transition is in progress.
    pub fn warping(&self) -> (b: bool)
        ensures
            b == self@.warping,
            b == !(self@.warp_state is Idle),
    {
        proof {
            use_type_invariant(self);
        }
        self.warping
    }

    /// The stage and progress of the transition.
    pub fn warp_state(&self) -> (s: WarpState)
        ensures
            s == self@.warp_state,
    {
        self.warp_state
    }

    /// The opacity of the portal overlay as last computed.
    pub fn portal_radius(&self) -> (r: i32)
        ensures
            r == self@.portal_radius,
            r == self@.radius_of_stage(),
            0 <= r <= ONE,
    {
        proof {
            use_type_invariant(self);
        }
        self.portal_radius
    }

    /// Turns a direction given in the camera's own basis (`x` to the right,
    /// `y` up, `z` toward the viewer) into a unit direction in world space.
    pub fn basis_change(&self, vector: &Vec3) -> (v: Vec3)
        ensures
            v == self@.basis_change(*vector),
    {
        let forward = self.eye.unit_toward(&self.center);
        let right = forward.cross_product(&self.up).normalize();
        let up = right.cross_product(&forward).normalize();
        let rotated = Vec3 {
            x: narrow(
                product(vector.x, right.x) + product(vector.y, up.x) - product(vector.z, forward.x),
            ),
            y: narrow(
                product(vector.x, right.y) + product(vector.y, up.y) - product(vector.z, forward.y),
            ),
            z: narrow(
                product(vector.x, right.z) + product(vector.y, up.z) - product(vector.z, forward.z),
            ),
        };
        rotated.normalize()
    }

    /// Tells whether `position` is nearer to the centre of one of `bodies`
    /// than 1.2 times that body's scale.
    pub fn check_collision(&self, bodies: &[CelestialBody], position: Vec3) -> (hit: bool)
        ensures
            hit == collides_any(bodies@, position),
    {
        let mut i: usize = 0;
        while i < bodies.len()
            invariant
                i <= bodies.len(),
                forall|j: int| 0 <= j < i ==> !hits(position, #[trigger] bodies@[j]),
            decreases bodies.len() - i,
        {
            if body_hit(position, &bodies[i]) {
                return true;
            }
            i = i + 1;
        }
        false
    }

    /// The yaw and pitch that an orbit by the given deltas leads to: the yaw
    /// wraps at a full turn, the pitch stops short of the poles.
    pub fn orbit_angles(yaw: i32, pitch: i32, delta_yaw: i32, delta_pitch: i32) -> (angles: (i32, i32))
        ensures
            angles.0 == wrapped_yaw(yaw as int, delta_yaw as int),
            angles.1 == clamped_pitch(pitch as int, delta_pitch as int),
    {
        let turned: i64 = yaw as i64 + delta_yaw as i64;
        let turns: i128 = div_toward_zero(turned as i128, TWO_PI as i128);
        proof {
            lemma_trunc_rem_bound(turned as int, TWO_PI as int);
        }
        let wrapped: i128 = turned as i128 - (TWO_PI as i128) * turns;
        let tilted: i64 = clamp_to(
            pitch as i64 + delta_pitch as i64,
            -(PITCH_LIMIT as i64),
            PITCH_LIMIT as i64,
        );
        (wrapped as i32, tilted as i32)
    }

    /// The yaw and pitch, in radians, by which a pan in `direction` turns
    /// the view: a twentieth of its `x` and of its `y`.
    pub fn pan_angles(direction: Vec3) -> (angles: (i32, i32))
        ensures
            angles.0 == trunc_div(direction.x as int, PAN_DIVISOR as int),
            angles.1 == trunc_div(direction.y as int, PAN_DIVISOR as int),
    {
        let yaw: i128 = div_toward_zero(direction.x as i128, PAN_DIVISOR as i128);
        let pitch: i128 = div_toward_zero(direction.y as i128, PAN_DIVISOR as i128);
        (yaw as i32, pitch as i32)
    }

    /// Moves the eye around the centre, keeping its distance: the eye goes
    /// where `direction` points from the centre. Nothing changes if
    /// `direction` is zero, if the new eye would leave the world, or if it
    /// would collide with one of `bodies`.
    pub fn orbit(&mut self, direction: Vec3, bodies: &[CelestialBody])
        ensures
            final(self)@ == old(self)@.orbit(direction, bodies@),
    {
        proof {
            use_type_invariant(&*self);
        }
        let radius: i64 = self.eye.distance(&self.center);
        let candidate = place_at_distance(
            self.center,
            direction.x as i64,
            direction.y as i64,
            direction.z as i64,
            radius,
        );
        self.commit_eye(candidate, bodies);
    }

    /// Moves the eye along the view direction, `delta` nearer to the centre,
    /// but no nearer than the minimum and no farther than the maximum zoom
    /// distance. Nothing changes if the eye is at the centre, if the new eye
    /// would leave the world, or if it would collide with one of `bodies`.
    pub fn zoom(&mut self, delta: i32, bodies: &[CelestialBody])
        ensures
            final(self)@ == old(self)@.zoom(delta as int, bodies@),
    {
        proof {
            use_type_invariant(&*self);
        }
        let current: i64 = self.eye.distance(&self.center);
        let target: i64 = clamp_to(
            current - delta as i64,
            self.min_zoom as i64,
            self.max_zoom as i64,
        );
        let candidate = place_at_distance(
            self.center,
            self.eye.x as i64 - self.center.x as i64,
            self.eye.y as i64 - self.center.y as i64,
            self.eye.z as i64 - self.center.z as i64,
            target,
        );
        self.commit_eye(candidate, bodies);
    }

    /// Turns the view about the eye, keeping the distance: the centre goes
    /// where `direction` points from the eye. Nothing changes if `direction`
    /// is zero, if the new centre would be farther from the world origin
    /// than the pan bound, or if the eye collides with one of `bodies`.
    pub fn move_center(&mut self, direction: Vec3, bodies: &[CelestialBody])
        ensures
            final(self)@ == old(self)@.move_center(direction, bodies@),
    {
        proof {
            use_type_invariant(&*self);
        }
        let radius: i64 = self.eye.distance(&self.center);
        let candidate = place_at_distance(
            self.eye,
            direction.x as i64,
            direction.y as i64,
            direction.z as i64,
            radius,
        );
        match candidate {
            Some(center) => {
                let limit: u128 = self.max_center_distance as u128;
                assert(limit * limit <= 0x4000_0000_0000_0000) by (nonlinear_arith)
                    requires
                        0 <= limit <= 0x7fff_ffff,
                ;
                let bound: u128 = limit * limit;
                if center.magnitude_sq() <= bound && !self.check_collision(bodies, self.eye) {
                    self.center = center;
                    self.has_changed = true;
                }
            },
            None => {},
        }
    }

    /// Reports whether the pose has changed since the last call, and clears
    /// the flag.
    pub fn check_if_changed(&mut self) -> (changed: bool)
        ensures
            changed == old(self)@.has_changed,
            final(self)@ == old(self)@.acknowledged(),
    {
        proof {
            use_type_invariant(&*self);
        }
        if self.has_changed {
            self.has_changed = false;
            true
        } else {
            false
        }
    }

    /// Starts a transition to a vantage point near `target_position`, unless
    /// one is already in progress. The camera will rise to the overview
    /// waypoint above the target, looking at the target, and then descend to
    /// the final waypoint beside it.
    pub fn start_warp(&mut self, target_position: Vec3)
        ensures
            final(self)@ == old(self)@.start_warp(target_position),
    {
        let overview = target_position.translate(0, OVERVIEW_HEIGHT, 0);
        let last = target_position.translate(FINAL_SIDE, FINAL_HEIGHT, FINAL_SIDE);
        self.begin(overview, target_position, last);
    }

    /// Starts a transition to the bird's-eye view of the world origin,
    /// unless one is already in progress.
    pub fn bird_eye_view(&mut self)
        ensures
            final(self)@ == old(self)@.bird_eye_view(),
    {
        let vantage = Vec3 { x: -4_000_000, y: 8_000_000, z: 4_000_000 };
        self.begin(vantage, Vec3 { x: 0, y: 0, z: 0 }, vantage);
    }

    /// The progress that the next tick will ease the camera to, if that
    /// tick moves the camera.
    pub fn easing_progress(&self) -> (p: Option<i32>)
        ensures
            p == self@.easing_progress(),
    {
        proof {
            use_type_invariant(self);
        }
        match self.warp_state {
            WarpState::Overview(q) => {
                if q + OVERVIEW_STEP >= ONE {
                    None
                } else {
                    Some(q + OVERVIEW_STEP)
                }
            },
            WarpState::Approaching(q) => {
                if q + APPROACH_STEP >= ONE {
                    None
                } else {
                    Some(q + APPROACH_STEP)
                }
            },
            _ => None,
        }
    }

    /// Advances the transition by one tick and returns the opacity of the
    /// portal overlay, or nothing once the camera is idle. `eased` is the
    /// value of the easing curve at `easing_progress()`; it is limited to
    /// `0..=ONE` and ignored on ticks that do not move the camera.
    pub fn update_warp(&mut self, eased: i32) -> (portal: Option<i32>)
        ensures
            final(self)@ == old(self)@.tick(eased as int),
            portal == final(self)@.portal(),
            portal.is_none() <==> final(self)@.warp_state is Idle,
    {
        proof {
            use_type_invariant(&*self);
        }
        let state = self.warp_state;
        let next = state.tick();
        proof {
            law_tick_follows_the_cycle(state);
        }
        match state {
            WarpState::Idle => {
                None
            },
            WarpState::PortalOpening(p) => {
                proof {
                    lemma_portal_progress(state);
                }
                let radius: i32 = p + PORTAL_STEP;
                *self = Camera { warp_state: next, portal_radius: radius, ..*self };
                Some(radius)
            },
            WarpState::Overview(p) => {
                if p + OVERVIEW_STEP >= ONE {
                    *self = Camera {
                        warp_state: next,
                        warp_start_eye: self.eye,
                        warp_target_eye: self.final_target,
                        ..*self
                    };
                } else {
                    let eye = self.warp_start_eye.interpolate(&self.overview_target, eased);
                    let center = self.warp_start_center.interpolate(&self.warp_target_center, eased);
                    *self = Camera { warp_state: next, eye, center, has_changed: true, ..*self };
                }
                Some(self.portal_radius)
            },
            WarpState::Approaching(p) => {
                if p + APPROACH_STEP >= ONE {
                    *self = Camera { warp_state: next, ..*self };
                } else {
                    let eye = self.warp_start_eye.interpolate(&self.warp_target_eye, eased);
                    *self = Camera { warp_state: next, eye, has_changed: true, ..*self };
                }
                Some(self.portal_radius)
            },
            WarpState::PortalClosing(p) => {
                proof {
                    lemma_portal_progress(state);
                }
                let radius: i32 = ONE - (p + PORTAL_STEP);
                let done: bool = p + PORTAL_STEP >= ONE;
                *self = Camera { warp_state: next, portal_radius: radius, warping: !done, ..*self };
                if done {
                    None
                } else {
                    Some(radius)
                }
            },
        }
    }

    /// Puts eye, centre and up vector back to the values the camera was
    /// built with, whatever the transition is doing.
    pub fn reset_position(&mut self)
        ensures
            final(self)@ == old(self)@.reset(),
    {
        proof {
            use_type_invariant(&*self);
        }
        self.eye = self.initial_eye;
        self.center = self.initial_center;
        self.up = self.initial_up;
        self.has_changed = true;
    }

    fn commit_eye(&mut self, candidate: Option<Vec3>, bodies: &[CelestialBody])
        ensures
            final(self)@ == old(self)@.with_eye(candidate, bodies@),
    {
        proof {
            use_type_invariant(&*self);
        }
        match candidate {
            Some(eye) => {
                if !self.check_collision(bodies, eye) {
                    self.eye = eye;
                    self.has_changed = true;
                }
            },
            None => {},
        }
    }

    fn begin(&mut self, overview: Vec3, look_at: Vec3, last: Vec3)
        ensures
            final(self)@ == old(self)@.begin(overview, look_at, last),
    {
        proof {
            use_type_invariant(&*self);
        }
        if self.warp_state.is_idle() {
            *self = Camera {
                warping: true,
                warp_start_eye: self.eye,
                warp_start_center: self.center,
                warp_target_eye: overview,
                warp_target_center: look_at,
                warp_state: WarpState::PortalOpening(0),
                portal_radius: 0,
                overview_target: overview,
                final_target: last,
                ..*self
            };
        }
    }
}

fn body_hit(position: Vec3, body: &CelestialBody) -> (hit: bool)
    ensures
        hit == hits(position, *body),
{
    if body.scale <= 0 {
        return false;
    }
    let d2: u128 = position.distance_sq(&body.position);
    let s: u128 = body.scale as u128;
    assert(s * s <= 0x4000_0000_0000_0000) by (nonlinear_arith)
        requires
            0 <= s <= 0x7fff_ffff,
    ;
    25 * d2 < 36 * (s * s)
}

} // verus!
