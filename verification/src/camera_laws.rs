//! What holds of every camera, whatever it is asked to do.

use vstd::prelude::*;
use crate::body::CelestialBody;
use crate::camera::{hits, CameraState, Operation, MAX_ZOOM, MIN_ZOOM};
use crate::fixed::{
    floor_sqrt, lemma_floor_sqrt_exists, lemma_floor_sqrt_unique, lemma_square_monotone,
    magnitude, ONE,
};
use crate::vec3::{
    largest, law_stretched_direction, law_stretched_length, lemma_norm_bound, lemma_square_bound,
    norm_sq3, place, spread, stretched, Vec3,
};
use crate::warp::{
    law_stage_lengths, law_tick_follows_the_cycle, lemma_after_splits, lemma_portal_progress,
    WarpState,
};

verus! {

/// A squared distance is never negative, the distance is its floor square
/// root, it is the same in both directions, and it is zero only between a
/// point and itself.
pub proof fn law_distance_is_a_root(a: Vec3, b: Vec3)
    ensures
        0 <= a.dist_sq(b),
        0 <= a.dist(b) <= 0x2_0000_0000,
        a.dist(b) * a.dist(b) <= a.dist_sq(b),
        a.dist(b) == b.dist(a),
        a.dist(b) > 0 ==> a != b,
{
    let (dx, dy, dz) = (a.x - b.x, a.y - b.y, a.z - b.z);
    assert(dx * dx + dy * dy + dz * dz >= 0) by (nonlinear_arith);
    assert((-dx) * (-dx) == dx * dx && (-dy) * (-dy) == dy * dy && (-dz) * (-dz) == dz * dz)
        by (nonlinear_arith);
    assert(b.dist_sq(a) == a.dist_sq(b));
    lemma_floor_sqrt_exists(a.dist_sq(b));
    lemma_square_bound(dx);
    lemma_square_bound(dy);
    lemma_square_bound(dz);
    lemma_norm_bound(a.dist_sq(b), a.dist(b));
    if a == b {
        lemma_floor_sqrt_unique(0, 0);
    }
}

/// A point placed at distance `len` from `origin` lies at exactly that
/// distance, rounded down.
proof fn lemma_placed_distance(origin: Vec3, dx: int, dy: int, dz: int, len: int)
    requires
        0 <= len < 0x2000_0000_0000_0000,
        place(origin, dx, dy, dz, len) is Some,
    ensures
        place(origin, dx, dy, dz, len)->Some_0.dist(origin) == len,
{
    let p = place(origin, dx, dy, dz, len)->Some_0;
    law_stretched_length(dx, dy, dz, len);
    let (wx, wy, wz) = stretched(dx, dy, dz, len);
    assert(p.dist_sq(origin) == norm_sq3(wx, wy, wz));
}

/// A camera that has just been built is valid, and every operation keeps a
/// valid camera valid: the warp state carries a whole number of steps, the
/// warping flag is set exactly while a transition runs, the portal radius
/// is the one that belongs to the stage, and the bounds are in order.
pub proof fn law_validity_is_kept(
    s: CameraState,
    direction: Vec3,
    delta: int,
    target: Vec3,
    eased: int,
    bodies: Seq<CelestialBody>,
)
    requires
        s.valid(),
    ensures
        CameraState::initial(s.eye, s.center, s.up).valid(),
        s.orbit(direction, bodies).valid(),
        s.zoom(delta, bodies).valid(),
        s.move_center(direction, bodies).valid(),
        s.acknowledged().valid(),
        s.start_warp(target).valid(),
        s.bird_eye_view().valid(),
        s.tick(eased).valid(),
        s.reset().valid(),
{
    law_tick_follows_the_cycle(s.warp_state);
    match s.warp_state {
        WarpState::PortalOpening(p) => {
            lemma_portal_progress(s.warp_state);
        },
        WarpState::PortalClosing(p) => {
            lemma_portal_progress(s.warp_state);
        },
        _ => {},
    }
}

/// An orbit keeps the centre and the distance of the eye from it: the
/// distance, rounded down, is the same after the orbit as before, for every
/// direction and whatever bodies are around.
pub proof fn law_orbit_keeps_radius(s: CameraState, direction: Vec3, bodies: Seq<CelestialBody>)
    ensures
        s.orbit(direction, bodies).center == s.center,
        s.orbit(direction, bodies).up == s.up,
        s.orbit(direction, bodies).radius() == s.radius(),
{
    law_distance_is_a_root(s.eye, s.center);
    if s.orbit_candidate(direction) is Some {
        lemma_placed_distance(
            s.center,
            direction.x as int,
            direction.y as int,
            direction.z as int,
            s.radius(),
        );
    }
}

/// The distance that a zoom aims for lies between the camera's zoom bounds
/// for every delta; and a zoom that moves the eye puts it at exactly that
/// distance from the centre, rounded down, on the ray from the centre
/// through the old eye.
pub proof fn law_zoom_is_clamped(s: CameraState, delta: int, bodies: Seq<CelestialBody>)
    requires
        s.valid(),
    ensures
        ({
            let t = s.zoom(delta, bodies);
            let d = s.zoom_distance(delta);
            &&& s.min_zoom <= d <= s.max_zoom
            &&& t.center == s.center && t.up == s.up
            &&& t.eye != s.eye ==> t.radius() == d && s.eye != s.center
            &&& t.eye != s.eye ==> s.min_zoom <= t.radius() <= s.max_zoom
        }),
{
    law_distance_is_a_root(s.eye, s.center);
    if s.zoom_candidate(delta) is Some {
        lemma_placed_distance(
            s.center,
            s.eye.x - s.center.x,
            s.eye.y - s.center.y,
            s.eye.z - s.center.z,
            s.zoom_distance(delta),
        );
    }
}

/// A component of an offset is no longer than the offset.
proof fn lemma_component_bound(x: int, y: int, z: int, bound: int)
    requires
        0 <= bound,
        norm_sq3(x, y, z) < (bound + 1) * (bound + 1),
    ensures
        -bound <= x <= bound,
        -bound <= y <= bound,
        -bound <= z <= bound,
{
    assert(x * x >= 0 && y * y >= 0 && z * z >= 0) by (nonlinear_arith);
    lemma_square_under(x, bound, norm_sq3(x, y, z));
    lemma_square_under(y, bound, norm_sq3(x, y, z));
    lemma_square_under(z, bound, norm_sq3(x, y, z));
}

proof fn lemma_square_under(x: int, bound: int, total: int)
    requires
        0 <= bound,
        x * x <= total < (bound + 1) * (bound + 1),
    ensures
        -bound <= x <= bound,
{
    if x > bound {
        lemma_square_monotone(bound + 1, x);
    }
    if x < -bound {
        lemma_square_monotone(bound + 1, -x);
        assert((-x) * (-x) == x * x) by (nonlinear_arith);
    }
}

/// A point stretched from an origin within the pan bound, to a length no
/// greater than the largest zoom distance, lies in the world.
proof fn lemma_candidate_in_world(origin: Vec3, dx: int, dy: int, dz: int, len: int)
    requires
        dx != 0 || dy != 0 || dz != 0,
        0 <= len <= MAX_ZOOM,
        -2_000_000_000 <= origin.x <= 2_000_000_000,
        -2_000_000_000 <= origin.y <= 2_000_000_000,
        -2_000_000_000 <= origin.z <= 2_000_000_000,
    ensures
        place(origin, dx, dy, dz, len) is Some,
        place(origin, dx, dy, dz, len)->Some_0.dist(origin) == len,
{
    law_stretched_length(dx, dy, dz, len);
    let (wx, wy, wz) = stretched(dx, dy, dz, len);
    assert(wx * wx + wy * wy + wz * wz >= 0) by (nonlinear_arith);
    lemma_floor_sqrt_exists(norm_sq3(wx, wy, wz));
    lemma_component_bound(wx, wy, wz, len);
    lemma_placed_distance(origin, dx, dy, dz, len);
}

/// With no body in the way, a zoom of a camera whose eye is apart from the
/// centre, and whose centre is within the pan bound, is always carried
/// out: the eye goes to exactly the zoom distance from the centre, rounded
/// down, the dirty flag is raised, and the pose is within its bounds.
pub proof fn law_free_zoom_lands_exactly(s: CameraState, delta: int)
    requires
        s.valid(),
        s.eye != s.center,
        s.within_pan_bound(s.center),
    ensures
        ({
            let t = s.zoom(delta, Seq::empty());
            &&& t.radius() == s.zoom_distance(delta)
            &&& MIN_ZOOM <= t.radius() <= MAX_ZOOM
            &&& t.has_changed
            &&& t.center == s.center && t.up == s.up
            &&& t.in_bounds()
        }),
{
    lemma_center_in_reach(s);
    lemma_candidate_in_world(
        s.center,
        s.eye.x - s.center.x,
        s.eye.y - s.center.y,
        s.eye.z - s.center.z,
        s.zoom_distance(delta),
    );
    let t = s.zoom(delta, Seq::empty());
    law_distance_is_a_root(t.eye, t.center);
}

/// With no body in the way, an orbit of a camera whose pose is within its
/// bounds is carried out for every direction that is not zero: the eye
/// goes where the direction points, at exactly the distance from the
/// centre that it had, and the dirty flag is raised.
pub proof fn law_free_orbit_lands_exactly(s: CameraState, direction: Vec3)
    requires
        s.valid(),
        s.in_bounds(),
        direction != Vec3::zero(),
    ensures
        ({
            let t = s.orbit(direction, Seq::empty());
            &&& s.orbit_candidate(direction) == Some(t.eye)
            &&& t.radius() == s.radius()
            &&& t.has_changed
            &&& t.center == s.center && t.up == s.up
            &&& t.in_bounds()
        }),
{
    lemma_center_in_reach(s);
    law_distance_is_a_root(s.eye, s.center);
    lemma_candidate_in_world(
        s.center,
        direction.x as int,
        direction.y as int,
        direction.z as int,
        s.radius(),
    );
    let t = s.orbit(direction, Seq::empty());
    law_distance_is_a_root(t.eye, t.center);
}

/// A centre within the pan bound has small components.
proof fn lemma_center_in_reach(s: CameraState)
    requires
        s.valid(),
        s.within_pan_bound(s.center),
    ensures
        -2_000_000_000 <= s.center.x <= 2_000_000_000,
        -2_000_000_000 <= s.center.y <= 2_000_000_000,
        -2_000_000_000 <= s.center.z <= 2_000_000_000,
{
    let c = s.center;
    assert(s.max_center_distance * s.max_center_distance < 5_000_001 * 5_000_001)
        by (nonlinear_arith)
        requires
            s.max_center_distance == 5_000_000,
    ;
    lemma_component_bound(c.x as int, c.y as int, c.z as int, 5_000_000);
}

/// A zoom that moves the eye keeps it on the ray from the centre through
/// the old eye: the new offset of the eye from the centre is the old one
/// stretched to the zoom distance, so each of its components has the sign
/// of the old one and is within one unit of the old one scaled by the ratio
/// of the distances.
pub proof fn law_zoom_keeps_direction(s: CameraState, delta: int, bodies: Seq<CelestialBody>)
    requires
        s.valid(),
        s.zoom(delta, bodies).eye != s.eye,
    ensures
        ({
            let t = s.zoom(delta, bodies);
            let (dx, dy, dz) = (
                s.eye.x - s.center.x,
                s.eye.y - s.center.y,
                s.eye.z - s.center.z,
            );
            let (wx, wy, wz) = (
                t.eye.x - t.center.x,
                t.eye.y - t.center.y,
                t.eye.z - t.center.z,
            );
            let k = spread(largest(dx, dy, dz));
            let n = floor_sqrt(
                norm_sq3(magnitude(dx) * k, magnitude(dy) * k, magnitude(dz) * k),
            );
            let d = s.zoom_distance(delta);
            &&& (wx, wy, wz) == stretched(dx, dy, dz, d)
            &&& (dx == 0 ==> wx == 0) && (dx > 0 ==> wx >= 0) && (dx < 0 ==> wx <= 0)
            &&& (dy == 0 ==> wy == 0) && (dy > 0 ==> wy >= 0) && (dy < 0 ==> wy <= 0)
            &&& (dz == 0 ==> wz == 0) && (dz > 0 ==> wz >= 0) && (dz < 0 ==> wz <= 0)
            &&& (magnitude(wx) - 1) * n <= magnitude(dx) * k * d < (magnitude(wx) + 1) * n
            &&& (magnitude(wy) - 1) * n <= magnitude(dy) * k * d < (magnitude(wy) + 1) * n
            &&& (magnitude(wz) - 1) * n <= magnitude(dz) * k * d < (magnitude(wz) + 1) * n
        }),
{
    let (dx, dy, dz) = (s.eye.x - s.center.x, s.eye.y - s.center.y, s.eye.z - s.center.z);
    let d = s.zoom_distance(delta);
    law_stretched_length(dx, dy, dz, d);
    law_stretched_direction(dx, dy, dz, d);
}

/// A pan keeps the eye, and never leaves the centre farther from the world
/// origin than the pan bound: a centre that the pan has moved is within the
/// bound, and a centre that was within the bound stays within it.
pub proof fn law_pan_stays_in_bound(s: CameraState, direction: Vec3, bodies: Seq<CelestialBody>)
    ensures
        ({
            let t = s.move_center(direction, bodies);
            &&& t.eye == s.eye
            &&& t.up == s.up
            &&& t.max_center_distance == s.max_center_distance
            &&& t.center != s.center ==> t.within_pan_bound(t.center)
            &&& s.within_pan_bound(s.center) ==> t.within_pan_bound(t.center)
        }),
{
}

/// A pan keeps the distance between eye and centre: rounded down, it is
/// the same after the pan as before.
pub proof fn law_pan_keeps_radius(s: CameraState, direction: Vec3, bodies: Seq<CelestialBody>)
    ensures
        s.move_center(direction, bodies).radius() == s.radius(),
{
    law_distance_is_a_root(s.eye, s.center);
    if s.pan_candidate(direction) is Some {
        lemma_placed_distance(
            s.eye,
            direction.x as int,
            direction.y as int,
            direction.z as int,
            s.radius(),
        );
        law_distance_is_a_root(s.eye, s.pan_candidate(direction)->Some_0);
    }
}

/// Orbits, zooms and pans keep the pose within its bounds: if the eye is
/// apart from the centre, its distance from it lies between the zoom
/// bounds and the centre is within the pan bound of the world origin, then
/// the same holds after the move, whether it was carried out or turned
/// away.
pub proof fn law_moves_keep_the_pose_in_bounds(
    s: CameraState,
    direction: Vec3,
    delta: int,
    bodies: Seq<CelestialBody>,
)
    requires
        s.valid(),
        s.in_bounds(),
    ensures
        s.orbit(direction, bodies).in_bounds(),
        s.zoom(delta, bodies).in_bounds(),
        s.move_center(direction, bodies).in_bounds(),
{
    law_orbit_keeps_radius(s, direction, bodies);
    law_zoom_is_clamped(s, delta, bodies);
    law_pan_stays_in_bound(s, direction, bodies);
    law_pan_keeps_radius(s, direction, bodies);
    let o = s.orbit(direction, bodies);
    let z = s.zoom(delta, bodies);
    let p = s.move_center(direction, bodies);
    law_distance_is_a_root(o.eye, o.center);
    law_distance_is_a_root(z.eye, z.center);
    law_distance_is_a_root(p.eye, p.center);
}

/// A zoom that moves the eye brings the pose within the zoom bounds,
/// wherever the eye was before.
pub proof fn law_zoom_restores_the_bounds(s: CameraState, delta: int, bodies: Seq<CelestialBody>)
    requires
        s.valid(),
        s.within_pan_bound(s.center),
        s.zoom(delta, bodies).eye != s.eye,
    ensures
        s.zoom(delta, bodies).in_bounds(),
{
    law_zoom_is_clamped(s, delta, bodies);
    let z = s.zoom(delta, bodies);
    law_distance_is_a_root(z.eye, z.center);
}

/// A body of positive scale collides with its own centre.
pub proof fn law_body_hits_its_centre(body: CelestialBody)
    requires
        body.scale > 0,
    ensures
        hits(body.position, body),
{
    assert(body.scale * body.scale > 0) by (nonlinear_arith)
        requires
            body.scale > 0,
    ;
}

/// An orbit or a zoom whose candidate eye is nearer to some body than 1.2
/// times its scale leaves the camera as it was; so does a pan while the eye
/// itself is that near to a body.
pub proof fn law_collision_rejects_move(
    s: CameraState,
    direction: Vec3,
    delta: int,
    bodies: Seq<CelestialBody>,
    i: int,
)
    requires
        0 <= i < bodies.len(),
    ensures
        s.orbit_candidate(direction) matches Some(p) && hits(p, bodies[i]) ==> s.orbit(
            direction,
            bodies,
        ) == s,
        s.zoom_candidate(delta) matches Some(p) && hits(p, bodies[i]) ==> s.zoom(delta, bodies)
            == s,
        hits(s.eye, bodies[i]) ==> s.move_center(direction, bodies) == s,
{
}

/// A body of positive scale that sits exactly where an orbit or a zoom
/// would put the eye keeps the camera as it was.
pub proof fn law_body_at_candidate_blocks(
    s: CameraState,
    direction: Vec3,
    delta: int,
    bodies: Seq<CelestialBody>,
    i: int,
)
    requires
        0 <= i < bodies.len(),
        bodies[i].scale > 0,
    ensures
        s.orbit_candidate(direction) == Some(bodies[i].position) ==> s.orbit(direction, bodies)
            == s,
        s.zoom_candidate(delta) == Some(bodies[i].position) ==> s.zoom(delta, bodies) == s,
{
    law_body_hits_its_centre(bodies[i]);
}

/// With no body in the way, an orbit or a zoom that has a candidate eye
/// moves the eye there and raises the dirty flag.
pub proof fn law_free_move_commits(s: CameraState, direction: Vec3, delta: int)
    ensures
        s.orbit_candidate(direction) matches Some(p) ==> s.orbit(direction, Seq::empty()).eye == p
            && s.orbit(direction, Seq::empty()).has_changed,
        s.zoom_candidate(delta) matches Some(p) ==> s.zoom(delta, Seq::empty()).eye == p && s.zoom(
            delta,
            Seq::empty(),
        ).has_changed,
{
}

/// Asking for a transition while one is in progress changes nothing.
pub proof fn law_busy_camera_ignores_requests(s: CameraState, target: Vec3)
    requires
        !(s.warp_state is Idle),
    ensures
        s.start_warp(target) == s,
        s.bird_eye_view() == s,
{
}

/// A tick moves the warp state as the stage machine says, whatever the
/// easing value; and the portal opacity is absent exactly when the state
/// after the tick is idle.
pub proof fn law_tick_steps_the_machine(s: CameraState, eased: int)
    ensures
        s.tick(eased).warp_state == s.warp_state.next(),
        s.tick(eased).portal() is None <==> s.tick(eased).warp_state is Idle,
{
}

/// A run of ticks moves the warp state as that many steps of the stage
/// machine, and keeps a valid camera valid.
pub proof fn law_ticks_step_the_machine(s: CameraState, eased: Seq<int>)
    ensures
        s.ticked(eased).warp_state == s.warp_state.after(eased.len()),
        s.valid() ==> s.ticked(eased).valid(),
    decreases eased.len(),
{
    if eased.len() > 0 {
        let before = s.ticked(eased.drop_last());
        law_ticks_step_the_machine(s, eased.drop_last());
        lemma_after_splits(s.warp_state, (eased.len() - 1) as nat, 1);
        let mid = s.warp_state.after((eased.len() - 1) as nat);
        assert(mid.after(1) == mid.next().after(0));
        if s.valid() {
            law_validity_is_kept(before, Vec3::zero(), 0, Vec3::zero(), eased.last(), Seq::empty());
        }
    }
}

/// A transition that has just started has its portal fully open after
/// twenty ticks, and the camera then begins to rise: the state is
/// `Overview(0)` and the portal radius is `ONE`.
pub proof fn law_portal_opens_in_twenty_ticks(s: CameraState, eased: Seq<int>)
    requires
        s.valid(),
        s.warp_state == WarpState::PortalOpening(0),
        eased.len() == 20,
    ensures
        s.ticked(eased).warp_state == WarpState::Overview(0),
        s.ticked(eased).portal_radius == ONE,
        s.ticked(eased).portal() == Some(ONE),
{
    law_ticks_step_the_machine(s, eased);
    law_stage_lengths();
}

/// A transition that has just started is over after 157 ticks: the camera
/// is idle again, no longer warping, and the portal is gone.
pub proof fn law_transition_ends(s: CameraState, eased: Seq<int>)
    requires
        s.valid(),
        s.warp_state == WarpState::PortalOpening(0),
        eased.len() == 157,
    ensures
        s.ticked(eased).warp_state is Idle,
        !s.ticked(eased).warping,
        s.ticked(eased).portal_radius == 0,
        s.ticked(eased).portal() is None,
{
    law_ticks_step_the_machine(s, eased);
    law_stage_lengths();
}

/// Whether two states remember the same initial pose.
pub open spec fn same_initial_pose(a: CameraState, b: CameraState) -> bool {
    a.initial_eye == b.initial_eye && a.initial_center == b.initial_center && a.initial_up
        == b.initial_up
}

/// No operation touches the pose that the camera was built with, and none
/// makes a valid camera invalid.
pub proof fn law_operation_keeps_initial_pose(
    s: CameraState,
    operation: Operation,
    bodies: Seq<CelestialBody>,
)
    ensures
        same_initial_pose(s.applied(operation, bodies), s),
        s.valid() ==> s.applied(operation, bodies).valid(),
{
    if s.valid() {
        match operation {
            Operation::Orbit(direction) => law_validity_is_kept(s, direction, 0, direction, 0, bodies),
            Operation::Zoom(delta) => law_validity_is_kept(
                s,
                Vec3::zero(),
                delta as int,
                Vec3::zero(),
                0,
                bodies,
            ),
            Operation::Pan(direction) => law_validity_is_kept(s, direction, 0, direction, 0, bodies),
            Operation::StartWarp(target) => law_validity_is_kept(s, target, 0, target, 0, bodies),
            Operation::Tick(eased) => law_validity_is_kept(
                s,
                Vec3::zero(),
                0,
                Vec3::zero(),
                eased as int,
                bodies,
            ),
            _ => law_validity_is_kept(s, Vec3::zero(), 0, Vec3::zero(), 0, bodies),
        }
    }
}

/// Whatever a camera has been asked to do since it was built, it is valid
/// and remembers the pose it was built with.
pub proof fn law_cameras_stay_valid(
    eye: Vec3,
    center: Vec3,
    up: Vec3,
    operations: Seq<Operation>,
    bodies: Seq<CelestialBody>,
)
    ensures
        ({
            let t = CameraState::initial(eye, center, up).applied_all(operations, bodies);
            t.valid() && t.initial_eye == eye && t.initial_center == center && t.initial_up == up
        }),
    decreases operations.len(),
{
    if operations.len() > 0 {
        law_cameras_stay_valid(eye, center, up, operations.drop_last(), bodies);
        law_operation_keeps_initial_pose(
            CameraState::initial(eye, center, up).applied_all(operations.drop_last(), bodies),
            operations.last(),
            bodies,
        );
    }
}

/// After any sequence of operations (orbits, zooms, pans, warps, ticks), a
/// reset puts eye, centre and up vector back to exactly the values the
/// camera was built with.
pub proof fn law_reset_restores_pose(
    eye: Vec3,
    center: Vec3,
    up: Vec3,
    operations: Seq<Operation>,
    bodies: Seq<CelestialBody>,
)
    ensures
        ({
            let t = CameraState::initial(eye, center, up).applied_all(operations, bodies).reset();
            t.eye == eye && t.center == center && t.up == up
        }),
{
    law_cameras_stay_valid(eye, center, up, operations, bodies);
}

} // verus!
