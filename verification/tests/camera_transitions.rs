use orrery::camera::Camera;
use orrery::fixed::ONE;
use orrery::vec3::Vec3;
use orrery::warp::WarpState;

fn scene_camera() -> Camera {
    Camera::new(Vec3::new(0, 2_500_000, 4_000_000), Vec3::new(0, 0, 0), Vec3::new(0, ONE, 0))
}

fn stage(state: WarpState) -> u8 {
    match state {
        WarpState::Idle => 0,
        WarpState::PortalOpening(_) => 1,
        WarpState::Overview(_) => 2,
        WarpState::Approaching(_) => 3,
        WarpState::PortalClosing(_) => 4,
    }
}

#[test]
fn warp_to_earth_reaches_overview_after_twenty_ticks() {
    let mut camera = scene_camera();
    camera.start_warp(Vec3::new(1_300_000, 0, 0));
    assert_eq!(camera.warp_state(), WarpState::PortalOpening(0));
    assert!(camera.warping());
    let mut last = None;
    for _ in 0..20 {
        last = camera.update_warp(0);
    }
    assert_eq!(camera.warp_state(), WarpState::Overview(0));
    assert_eq!(camera.portal_radius(), ONE);
    assert_eq!(last, Some(ONE));
}

#[test]
fn nineteen_ticks_do_not_open_the_portal() {
    let mut camera = scene_camera();
    camera.start_warp(Vec3::new(1_300_000, 0, 0));
    let mut last = None;
    for _ in 0..19 {
        last = camera.update_warp(0);
    }
    assert_eq!(camera.warp_state(), WarpState::PortalOpening(95_000));
    assert_eq!(last, Some(95_000));
}

#[test]
fn portal_radius_ramps_up_holds_and_ramps_down() {
    let mut camera = scene_camera();
    camera.start_warp(Vec3::new(1_300_000, 0, 0));
    for tick in 1..=20 {
        assert_eq!(camera.update_warp(0), Some(5_000 * tick));
    }
    for _ in 0..117 {
        assert_eq!(camera.update_warp(0), Some(ONE));
    }
    for tick in 1..=19 {
        assert_eq!(camera.update_warp(0), Some(ONE - 5_000 * tick));
    }
    assert_eq!(camera.update_warp(0), None);
    assert_eq!(camera.portal_radius(), 0);
    assert!(!camera.warping());
    assert_eq!(camera.update_warp(0), None);
}

#[test]
fn stages_come_in_order_without_skips_or_repeats() {
    let mut camera = scene_camera();
    camera.bird_eye_view();
    let mut seen = vec![stage(camera.warp_state())];
    let mut ticks = 0;
    while !camera.warp_state().is_idle() {
        let portal = camera.update_warp(50_000);
        ticks += 1;
        assert_eq!(portal.is_none(), camera.warp_state().is_idle());
        let now = stage(camera.warp_state());
        if *seen.last().unwrap() != now {
            seen.push(now);
        }
        assert!(ticks <= 157);
    }
    assert_eq!(ticks, 157);
    assert_eq!(seen, vec![1, 2, 3, 4, 0]);
}

#[test]
fn update_warp_when_idle_returns_nothing() {
    let mut camera = scene_camera();
    camera.check_if_changed();
    assert_eq!(camera.update_warp(73_000), None);
    assert!(camera.warp_state().is_idle());
    assert_eq!(camera.eye(), Vec3::new(0, 2_500_000, 4_000_000));
    assert!(!camera.check_if_changed());
}

#[test]
fn starting_a_warp_while_one_runs_changes_nothing() {
    let mut camera = scene_camera();
    camera.start_warp(Vec3::new(1_300_000, 0, 0));
    for _ in 0..25 {
        camera.update_warp(0);
    }
    let state = camera.warp_state();
    assert_eq!(state, WarpState::Overview(10_000));
    camera.start_warp(Vec3::new(-1_700_000, 0, 0));
    assert_eq!(camera.warp_state(), state);
    camera.bird_eye_view();
    assert_eq!(camera.warp_state(), state);
    for _ in 0..45 {
        camera.update_warp(ONE);
    }
    assert_eq!(camera.warp_state(), WarpState::Approaching(0));
    assert_eq!(camera.eye(), Vec3::new(1_300_000, 2_500_000, 0));
    assert_eq!(camera.center(), Vec3::new(1_300_000, 0, 0));
}

#[test]
fn overview_eases_eye_and_centre_toward_the_waypoint() {
    let mut camera = scene_camera();
    camera.start_warp(Vec3::new(1_300_000, 0, 0));
    for _ in 0..20 {
        camera.update_warp(0);
    }
    camera.check_if_changed();
    assert_eq!(camera.easing_progress(), Some(2_000));
    camera.update_warp(50_000);
    assert_eq!(camera.warp_state(), WarpState::Overview(2_000));
    assert_eq!(camera.eye(), Vec3::new(650_000, 2_500_000, 2_000_000));
    assert_eq!(camera.center(), Vec3::new(650_000, 0, 0));
    assert!(camera.check_if_changed());
    camera.update_warp(ONE);
    assert_eq!(camera.eye(), Vec3::new(1_300_000, 2_500_000, 0));
    assert_eq!(camera.center(), Vec3::new(1_300_000, 0, 0));
    camera.update_warp(0);
    assert_eq!(camera.eye(), Vec3::new(0, 2_500_000, 4_000_000));
    assert_eq!(camera.center(), Vec3::new(0, 0, 0));
}

#[test]
fn approach_eases_the_eye_toward_the_final_waypoint() {
    let mut camera = scene_camera();
    camera.start_warp(Vec3::new(1_300_000, 0, 0));
    for _ in 0..20 {
        camera.update_warp(0);
    }
    for _ in 0..49 {
        camera.update_warp(ONE);
    }
    assert_eq!(camera.warp_state(), WarpState::Overview(98_000));
    assert_eq!(camera.easing_progress(), None);
    camera.update_warp(0);
    assert_eq!(camera.warp_state(), WarpState::Approaching(0));
    assert_eq!(camera.eye(), Vec3::new(1_300_000, 2_500_000, 0));
    assert_eq!(camera.easing_progress(), Some(1_500));
    camera.update_warp(50_000);
    assert_eq!(camera.eye(), Vec3::new(1_700_000, 1_850_000, 400_000));
    assert_eq!(camera.center(), Vec3::new(1_300_000, 0, 0));
    camera.update_warp(ONE);
    assert_eq!(camera.eye(), Vec3::new(2_100_000, 1_200_000, 800_000));
    for _ in 0..64 {
        camera.update_warp(ONE);
    }
    assert_eq!(camera.warp_state(), WarpState::Approaching(99_000));
    assert_eq!(camera.easing_progress(), None);
    camera.update_warp(0);
    assert_eq!(camera.warp_state(), WarpState::PortalClosing(0));
    assert_eq!(camera.eye(), Vec3::new(2_100_000, 1_200_000, 800_000));
}

#[test]
fn easing_values_outside_the_unit_range_are_limited() {
    let mut camera = scene_camera();
    camera.start_warp(Vec3::new(1_300_000, 0, 0));
    for _ in 0..20 {
        camera.update_warp(0);
    }
    camera.update_warp(i32::MAX);
    assert_eq!(camera.eye(), Vec3::new(1_300_000, 2_500_000, 0));
    camera.update_warp(i32::MIN);
    assert_eq!(camera.eye(), Vec3::new(0, 2_500_000, 4_000_000));
}

#[test]
fn bird_eye_view_heads_for_the_fixed_vantage_point() {
    let mut camera = scene_camera();
    camera.bird_eye_view();
    assert_eq!(camera.warp_state(), WarpState::PortalOpening(0));
    for _ in 0..20 {
        camera.update_warp(0);
    }
    camera.update_warp(ONE);
    assert_eq!(camera.eye(), Vec3::new(-4_000_000, 8_000_000, 4_000_000));
    assert_eq!(camera.center(), Vec3::new(0, 0, 0));
    for _ in 0..49 {
        camera.update_warp(ONE);
    }
    assert_eq!(camera.warp_state(), WarpState::Approaching(0));
    camera.update_warp(30_000);
    assert_eq!(camera.eye(), Vec3::new(-4_000_000, 8_000_000, 4_000_000));
}

#[test]
fn warp_waypoints_saturate_at_the_edge_of_the_world() {
    let mut camera = scene_camera();
    camera.start_warp(Vec3::new(i32::MAX, i32::MAX, i32::MAX));
    for _ in 0..20 {
        camera.update_warp(0);
    }
    camera.update_warp(ONE);
    assert_eq!(camera.eye(), Vec3::new(i32::MAX, i32::MAX, i32::MAX));
    assert_eq!(camera.center(), Vec3::new(i32::MAX, i32::MAX, i32::MAX));
}

#[test]
fn reset_does_not_touch_the_transition() {
    let mut camera = scene_camera();
    camera.start_warp(Vec3::new(1_300_000, 0, 0));
    for _ in 0..30 {
        camera.update_warp(ONE);
    }
    let state = camera.warp_state();
    camera.reset_position();
    assert_eq!(camera.warp_state(), state);
    assert_eq!(camera.eye(), Vec3::new(0, 2_500_000, 4_000_000));
    assert!(camera.warping());
}

#[test]
fn a_second_warp_can_start_once_the_first_is_over() {
    let mut camera = scene_camera();
    camera.start_warp(Vec3::new(1_300_000, 0, 0));
    for _ in 0..157 {
        camera.update_warp(ONE);
    }
    assert!(camera.warp_state().is_idle());
    camera.start_warp(Vec3::new(-1_700_000, 0, 0));
    assert_eq!(camera.warp_state(), WarpState::PortalOpening(0));
    assert_eq!(camera.portal_radius(), 0);
}
