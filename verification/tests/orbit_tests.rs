use torus_cam::fx::SCALE;
use torus_cam::linear::FxVec3;
use torus_cam::orbit::CameraOrbitState;
use torus_cam::orbit::OrbitInput;
use torus_cam::orbit::RADIUS_FLOOR;

fn origin() -> FxVec3 {
    FxVec3 { x: 0, y: 0, z: 0 }
}

fn idle_input() -> OrbitInput {
    OrbitInput {
        orbit_held: false,
        pan_held: false,
        orbit_edge: false,
        dx: 0,
        dy: 0,
        scroll: 0,
        width: 1_000_000_000,
        height: 1_000_000_000,
        fov: SCALE,
        aspect: SCALE,
    }
}

#[test]
fn new_state_clamps_radius_to_floor() {
    let s = CameraOrbitState::new(origin(), 10);
    assert_eq!(s.radius, RADIUS_FLOOR);
    let s = CameraOrbitState::new(origin(), SCALE);
    assert_eq!(s.radius, SCALE);
}

#[test]
fn zoom_shrinks_radius_by_a_fifth_per_scroll_unit() {
    let mut s = CameraOrbitState::new(origin(), SCALE);
    let mut inp = idle_input();
    inp.scroll = SCALE;
    s.tick(&inp);
    assert_eq!(s.radius, 800_000);
}

#[test]
fn zoom_never_reaches_the_floor() {
    let mut s = CameraOrbitState::new(origin(), SCALE);
    let mut inp = idle_input();
    inp.scroll = 4 * SCALE;
    for _ in 0..200 {
        s.tick(&inp);
        assert!(s.radius >= RADIUS_FLOOR);
    }
    assert_eq!(s.radius, RADIUS_FLOOR);
}

#[test]
fn zoom_out_grows_radius() {
    let mut s = CameraOrbitState::new(origin(), SCALE);
    let mut inp = idle_input();
    inp.scroll = -SCALE;
    s.tick(&inp);
    assert_eq!(s.radius, 1_200_000);
}

#[test]
fn orbit_converts_pointer_deltas_to_angles() {
    let mut s = CameraOrbitState::new(origin(), SCALE);
    let mut inp = idle_input();
    inp.orbit_held = true;
    // A quarter of the window width: a quarter turn of yaw, applied in the
    // direction that matches the drag.
    inp.dx = 250_000_000;
    // Half the window height: a quarter turn of pitch.
    inp.dy = 500_000_000;
    s.tick(&inp);
    assert_eq!(s.yaw, 750_000);
    assert_eq!(s.pitch, 750_000);
    assert_eq!(s.radius, SCALE);
    assert_eq!(s.focus, origin());
}

#[test]
fn orbit_yaw_reverses_when_upside_down() {
    let mut s = CameraOrbitState::new(origin(), SCALE);
    s.upside_down = true;
    let mut inp = idle_input();
    inp.orbit_held = true;
    inp.dx = 250_000_000;
    s.tick(&inp);
    assert_eq!(s.yaw, 250_000);
}

#[test]
fn upside_down_recomputed_only_at_edges() {
    let mut s = CameraOrbitState::new(origin(), SCALE);
    s.pitch = 500_000;
    let inp = idle_input();
    // No edge: the flag keeps its old value even though the camera hangs
    // upside down.
    s.tick(&inp);
    assert!(!s.upside_down);
    // An edge recomputes it from the pitch.
    let mut edge = idle_input();
    edge.orbit_edge = true;
    s.tick(&edge);
    assert!(s.upside_down);
    // Upright again: the next edge clears it.
    s.pitch = 0;
    s.tick(&edge);
    assert!(!s.upside_down);
}

#[test]
fn upside_down_boundaries_are_the_quarter_turns() {
    let mut edge = idle_input();
    edge.orbit_edge = true;
    for (pitch, expected) in
        [(0, false), (249_999, false), (250_000, true), (500_000, true), (750_000, true), (750_001, false)]
    {
        let mut s = CameraOrbitState::new(origin(), SCALE);
        s.pitch = pitch;
        s.tick(&edge);
        assert_eq!(s.upside_down, expected, "pitch {pitch}");
    }
}

#[test]
fn pan_moves_focus_along_local_axes() {
    let mut s = CameraOrbitState::new(origin(), SCALE);
    let mut inp = idle_input();
    inp.pan_held = true;
    inp.dx = 100_000_000;
    inp.aspect = 2 * SCALE;
    s.tick(&inp);
    // 100 px of 1000, fov 1, aspect 2, radius 1: the focus slides 0.2
    // units against the local right axis, which at identity is world X.
    assert_eq!(s.focus, FxVec3 { x: -200_000, y: 0, z: 0 });
    assert_eq!(s.radius, SCALE);
    assert_eq!(s.yaw, 0);
    assert_eq!(s.pitch, 0);
}

#[test]
fn pan_vertical_follows_local_up() {
    let mut s = CameraOrbitState::new(origin(), SCALE);
    let mut inp = idle_input();
    inp.pan_held = true;
    inp.dy = 100_000_000;
    s.tick(&inp);
    // At identity the local up axis is world Y: 0.1 units upward.
    assert_eq!(s.focus, FxVec3 { x: 0, y: 100_000, z: 0 });
}

#[test]
fn orbit_takes_priority_over_pan_and_zoom() {
    let mut s = CameraOrbitState::new(origin(), SCALE);
    let mut inp = idle_input();
    inp.orbit_held = true;
    inp.pan_held = true;
    inp.scroll = SCALE;
    inp.dx = 250_000_000;
    s.tick(&inp);
    // The orbit fired; pan and zoom did not.
    assert_eq!(s.yaw, 750_000);
    assert_eq!(s.focus, origin());
    assert_eq!(s.radius, SCALE);
}

#[test]
fn idle_tick_changes_nothing() {
    let mut s = CameraOrbitState::new(origin(), SCALE);
    let before = s;
    s.tick(&idle_input());
    assert_eq!(s, before);
}

#[test]
fn world_transform_at_identity() {
    let s = CameraOrbitState::new(origin(), SCALE);
    let (eye, ori) = s.world_transform();
    assert_eq!(eye, FxVec3 { x: 0, y: 0, z: SCALE });
    assert_eq!(ori.x, 0);
    assert_eq!(ori.y, 0);
    assert_eq!(ori.z, 0);
    assert_eq!(ori.w, SCALE);
}

#[test]
fn world_transform_quarter_yaw() {
    let mut s = CameraOrbitState::new(origin(), SCALE);
    s.yaw = 250_000;
    let (eye, ori) = s.world_transform();
    // The eye swings to the +X side of the focus.
    assert_eq!(eye, FxVec3 { x: SCALE, y: 0, z: 0 });
    // The orientation is a rotation about Y by an eighth-turn half-angle:
    // sine and cosine of 125000 turn ticks.
    assert_eq!(ori.x, 0);
    assert_eq!(ori.y, torus_cam::fx::sin_turns(125_000));
    assert_eq!(ori.z, 0);
    assert_eq!(ori.w, torus_cam::fx::cos_turns(125_000));
}
