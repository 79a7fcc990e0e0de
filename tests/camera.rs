use game_logic::camera::{
    orbit_camera_controls, DampingFactors, Offset, OrbitCamera, OrbitInput, FACTOR_ONE, PITCH_MAX,
    PITCH_MIN, RADIUS_MAX, RADIUS_MIN,
};

fn scene_camera() -> OrbitCamera {
    OrbitCamera::new(8_000_000, 0, -300_000, 12_000, 10_000, 14_000, Offset { x: 0, y: 1_200_000, z: 0 })
}

const INSTANT: DampingFactors = DampingFactors { rotation: FACTOR_ONE, zoom: FACTOR_ONE };
const IDLE: OrbitInput = OrbitInput { motion_x: 0, motion_y: 0, scroll: 0, orbit_held: false };

#[test]
fn drag_turns_yaw_and_converges() {
    let mut cams = vec![scene_camera()];
    let drag = OrbitInput::from_events(&vec![(100_000, 0)], &vec![], true);
    assert!(orbit_camera_controls(&mut cams, &vec![INSTANT], 1, &drag));
    assert_eq!(cams[0].target_yaw, -500_000);
    for _ in 0..10 {
        orbit_camera_controls(&mut cams, &vec![INSTANT], 1, &IDLE);
    }
    assert_eq!(cams[0].yaw, -500_000);
    assert_eq!(cams[0].pitch, -300_000);
    assert_eq!(cams[0].radius, 8_000_000);
}

#[test]
fn pitch_clamped_both_ways() {
    let mut c = scene_camera();
    c.tick(&OrbitInput { motion_x: 0, motion_y: -10_000_000, scroll: 0, orbit_held: true }, &INSTANT);
    assert_eq!(c.target_pitch, PITCH_MAX);
    assert_eq!(c.pitch, PITCH_MAX);
    c.tick(&OrbitInput { motion_x: 0, motion_y: i64::MAX, scroll: 0, orbit_held: true }, &INSTANT);
    assert_eq!(c.target_pitch, PITCH_MIN);
}

#[test]
fn motion_ignored_without_button() {
    let mut c = scene_camera();
    c.tick(&OrbitInput { motion_x: 9_000, motion_y: 9_000, scroll: 0, orbit_held: false }, &INSTANT);
    assert_eq!(c, scene_camera());
}

#[test]
fn radius_clamped_under_any_scroll() {
    let mut c = scene_camera();
    c.tick(&OrbitInput { motion_x: 0, motion_y: 0, scroll: 1_000, orbit_held: false }, &INSTANT);
    assert_eq!(c.target_radius, 7_400_000);
    for _ in 0..100 {
        c.tick(&OrbitInput { motion_x: 0, motion_y: 0, scroll: 1_000, orbit_held: false }, &INSTANT);
    }
    assert_eq!(c.target_radius, RADIUS_MIN);
    c.tick(&OrbitInput { motion_x: 0, motion_y: 0, scroll: i64::MIN, orbit_held: false }, &INSTANT);
    assert_eq!(c.target_radius, RADIUS_MAX);
    assert_eq!(c.radius, RADIUS_MAX);
}

#[test]
fn no_update_without_exactly_one_target() {
    let before = vec![scene_camera(), scene_camera()];
    let factors = vec![INSTANT, INSTANT];
    let drag = OrbitInput { motion_x: 50_000, motion_y: 0, scroll: 2_000, orbit_held: true };
    for count in [0usize, 2] {
        let mut cams = before.clone();
        assert!(!orbit_camera_controls(&mut cams, &factors, count, &drag));
        assert_eq!(cams, before);
    }
    let mut cams = before.clone();
    assert!(orbit_camera_controls(&mut cams, &factors, 1, &drag));
    assert_eq!(cams[0].yaw, -250_000);
    assert_eq!(cams[1].yaw, -250_000);
}

#[test]
fn damping_approaches_without_overshoot() {
    let mut c = scene_camera();
    c.target_yaw = 1_000_000;
    c.target_radius = 10_000_000;
    let half = DampingFactors { rotation: 500_000, zoom: 250_000 };
    c.tick(&IDLE, &half);
    assert_eq!(c.yaw, 500_000);
    assert_eq!(c.radius, 8_500_000);
    let mut last = c.yaw;
    for _ in 0..60 {
        c.tick(&IDLE, &half);
        assert!(c.yaw >= last && c.yaw <= 1_000_000);
        last = c.yaw;
    }
    assert_eq!(c.yaw, 1_000_000);
    c.target_yaw = -3;
    c.tick(&IDLE, &half);
    assert_eq!(c.yaw, 499_998);
}

#[test]
fn small_factor_still_progresses() {
    let mut c = scene_camera();
    c.target_yaw = 2;
    let tiny = DampingFactors { rotation: 1, zoom: 1 };
    c.tick(&IDLE, &tiny);
    assert_eq!(c.yaw, 1);
    c.tick(&IDLE, &tiny);
    assert_eq!(c.yaw, 2);
    c.tick(&IDLE, &tiny);
    assert_eq!(c.yaw, 2);
}

#[test]
fn zero_factor_holds_still() {
    let mut c = scene_camera();
    c.target_yaw = 700;
    c.tick(&IDLE, &DampingFactors { rotation: 0, zoom: 0 });
    assert_eq!(c.yaw, 0);
}

#[test]
fn events_are_summed() {
    let i = OrbitInput::from_events(&vec![(1, 2), (3, -4)], &vec![5, -1, 2], true);
    assert_eq!(i, OrbitInput { motion_x: 4, motion_y: -2, scroll: 6, orbit_held: true });
    let i = OrbitInput::from_events(&vec![(i64::MAX, i64::MIN), (1, -1)], &vec![], false);
    assert_eq!(i.motion_x, i64::MAX);
    assert_eq!(i.motion_y, i64::MIN);
    assert_eq!(i.scroll, 0);
}
