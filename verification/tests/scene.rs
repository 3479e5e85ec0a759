use orrery::body::{CelestialBody, Ring, TrailPoint, TRAIL_CAPACITY};
use orrery::camera::Camera;
use orrery::fixed::ONE;
use orrery::input::{handle_command, Command};
use orrery::matrix::SinCos;
use orrery::shaders::ShaderType;
use orrery::vec3::Vec3;
use orrery::warp::WarpState;

fn body(name: &str, x: i32, scale: i32, shader_type: ShaderType) -> CelestialBody {
    CelestialBody {
        name: String::from(name),
        position: Vec3::new(x, 0, 0),
        scale,
        rotation: Vec3::new(0, 0, 0),
        shader_type,
        visible: true,
        orbital_speed: 1_000,
        axial_speed: 300,
        orbital_radius: if x < 0 { -x } else { x },
        orbital_offset: 0,
        ring: None,
        trail: Vec::new(),
        orbital_angle: 0,
        orbit_complete: false,
    }
}

fn small_system() -> Vec<CelestialBody> {
    vec![
        body("Sun", 0, 200_000, ShaderType::Star),
        body("Mercury", 500_000, 50_000, ShaderType::Mercury),
        body("Venus", -900_000, 60_000, ShaderType::Venus),
        body("Earth", 1_300_000, 60_000, ShaderType::Earth),
    ]
}

fn scene_camera() -> Camera {
    Camera::new(Vec3::new(0, 2_500_000, 4_000_000), Vec3::new(0, 0, 0), Vec3::new(0, ONE, 0))
}

#[test]
fn trail_grows_on_even_frames_only() {
    let mut earth = body("Earth", 1_300_000, 60_000, ShaderType::Earth);
    earth.record_trail(0);
    assert_eq!(earth.trail, vec![TrailPoint { position: Vec3::new(1_300_000, 0, 0) }]);
    earth.record_trail(1);
    assert_eq!(earth.trail.len(), 1);
    earth.position = Vec3::new(7, 8, 9);
    earth.record_trail(2);
    assert_eq!(earth.trail.len(), 2);
    assert_eq!(earth.trail[1].position, Vec3::new(7, 8, 9));
    earth.record_trail(u32::MAX);
    assert_eq!(earth.trail.len(), 2);
}

#[test]
fn trail_is_capped_and_keeps_the_newest_in_order() {
    let mut earth = body("Earth", 0, 60_000, ShaderType::Earth);
    for step in 0..120 {
        earth.position = Vec3::new(step, 0, 0);
        earth.record_trail(2 * step as u32);
        assert!(earth.trail.len() <= TRAIL_CAPACITY);
    }
    assert_eq!(TRAIL_CAPACITY, 50);
    assert_eq!(earth.trail.len(), 50);
    for (i, point) in earth.trail.iter().enumerate() {
        assert_eq!(point.position, Vec3::new(70 + i as i32, 0, 0));
    }
}

#[test]
fn overlong_trail_is_cut_back() {
    let mut earth = body("Earth", 0, 60_000, ShaderType::Earth);
    earth.trail = (0..80).map(|i| TrailPoint { position: Vec3::new(i, 0, 0) }).collect();
    earth.position = Vec3::new(999, 0, 0);
    earth.record_trail(4);
    assert_eq!(earth.trail.len(), 50);
    assert_eq!(earth.trail[0].position, Vec3::new(31, 0, 0));
    assert_eq!(earth.trail[49].position, Vec3::new(999, 0, 0));
}

#[test]
fn record_trail_leaves_the_rest_of_the_body() {
    let mut saturn = body("Saturn", -2_800_000, 200_000, ShaderType::Saturn);
    saturn.ring = Some(Ring { vertex_arrays: Vec::new(), scale: ONE, rotation: Vec3::new(40_000, 0, 0) });
    saturn.record_trail(6);
    assert_eq!(saturn.name, "Saturn");
    assert_eq!(saturn.position, Vec3::new(-2_800_000, 0, 0));
    assert_eq!(saturn.scale, 200_000);
    assert!(saturn.visible);
    assert_eq!(saturn.ring.as_ref().unwrap().scale, ONE);
}

#[test]
fn orbit_phase_is_speed_times_time_plus_offset() {
    let mut earth = body("Earth", 1_300_000, 60_000, ShaderType::Earth);
    assert_eq!(earth.orbit_phase(0), 0);
    assert_eq!(earth.orbit_phase(250), 250_000);
    earth.orbital_offset = -7;
    assert_eq!(earth.orbit_phase(250), 249_993);
    earth.orbital_speed = i32::MAX;
    assert_eq!(earth.orbit_phase(u32::MAX), i32::MAX);
    earth.orbital_speed = i32::MIN;
    assert_eq!(earth.orbit_phase(u32::MAX), i32::MIN);
}

#[test]
fn advance_moves_the_body_along_its_orbit() {
    let mut earth = body("Earth", 1_300_000, 60_000, ShaderType::Earth);
    earth.position.y = 55;
    earth.advance(SinCos { sin: 80_000, cos: 60_000 });
    assert_eq!(earth.position, Vec3::new(780_000, 55, 1_040_000));
    assert_eq!(earth.rotation, Vec3::new(0, 300, 0));
    earth.advance(SinCos { sin: -ONE, cos: 0 });
    assert_eq!(earth.position, Vec3::new(0, 55, -1_300_000));
    assert_eq!(earth.rotation, Vec3::new(0, 600, 0));
    earth.rotation.y = i32::MAX;
    earth.advance(SinCos { sin: 0, cos: ONE });
    assert_eq!(earth.rotation.y, i32::MAX);
    assert_eq!(earth.name, "Earth");
    assert!(earth.trail.is_empty());
}

#[test]
fn toggle_flips_one_body() {
    let mut camera = scene_camera();
    let mut bodies = small_system();
    handle_command(&mut camera, &mut bodies, Command::ToggleVisible(2));
    assert_eq!(bodies.iter().map(|b| b.visible).collect::<Vec<_>>(), vec![true, true, false, true]);
    handle_command(&mut camera, &mut bodies, Command::ToggleVisible(2));
    assert!(bodies.iter().all(|b| b.visible));
    handle_command(&mut camera, &mut bodies, Command::ToggleVisible(4));
    handle_command(&mut camera, &mut bodies, Command::ToggleVisible(usize::MAX));
    assert!(bodies.iter().all(|b| b.visible));
    assert_eq!(bodies[2].name, "Venus");
    assert_eq!(bodies[2].position, Vec3::new(-900_000, 0, 0));
}

#[test]
fn warp_command_targets_the_body() {
    let mut camera = scene_camera();
    let mut bodies = small_system();
    handle_command(&mut camera, &mut bodies, Command::WarpTo(3));
    assert_eq!(camera.warp_state(), WarpState::PortalOpening(0));
    for _ in 0..21 {
        camera.update_warp(ONE);
    }
    assert_eq!(camera.center(), Vec3::new(1_300_000, 0, 0));
    assert_eq!(camera.eye(), Vec3::new(1_300_000, 2_500_000, 0));
}

#[test]
fn warp_command_to_a_missing_body_does_nothing() {
    let mut camera = scene_camera();
    let mut bodies = small_system();
    handle_command(&mut camera, &mut bodies, Command::WarpTo(4));
    assert!(camera.warp_state().is_idle());
    let mut nobody: Vec<CelestialBody> = Vec::new();
    handle_command(&mut camera, &mut nobody, Command::WarpTo(0));
    assert!(camera.warp_state().is_idle());
}

#[test]
fn reset_command_waits_for_the_transition_to_end() {
    let mut camera = scene_camera();
    let mut bodies = small_system();
    handle_command(&mut camera, &mut bodies, Command::Zoom(3 * ONE));
    let zoomed = camera.eye();
    assert_ne!(zoomed, Vec3::new(0, 2_500_000, 4_000_000));
    handle_command(&mut camera, &mut bodies, Command::BirdEye);
    assert!(camera.warping());
    handle_command(&mut camera, &mut bodies, Command::Reset);
    assert_eq!(camera.eye(), zoomed);
    for _ in 0..157 {
        camera.update_warp(0);
    }
    assert!(!camera.warping());
    handle_command(&mut camera, &mut bodies, Command::Reset);
    assert_eq!(camera.eye(), Vec3::new(0, 2_500_000, 4_000_000));
    assert_eq!(camera.center(), Vec3::new(0, 0, 0));
}

#[test]
fn move_commands_respect_the_bodies() {
    let mut camera = scene_camera();
    let mut bodies = small_system();
    handle_command(&mut camera, &mut bodies, Command::Orbit(Vec3::new(ONE, 0, 0)));
    assert_eq!(camera.eye(), Vec3::new(4_716_990, 0, 0));
    handle_command(&mut camera, &mut bodies, Command::Zoom(34 * ONE));
    assert_eq!(camera.eye(), Vec3::new(4_716_990, 0, 0));
    handle_command(&mut camera, &mut bodies, Command::Zoom(30 * ONE));
    assert_eq!(camera.eye(), Vec3::new(1_716_990, 0, 0));
    handle_command(&mut camera, &mut bodies, Command::Pan(Vec3::new(-ONE, 1_000, 0)));
    assert_ne!(camera.center(), Vec3::new(0, 0, 0));
    assert!(bodies.iter().all(|b| b.visible && b.trail.is_empty()));
}
