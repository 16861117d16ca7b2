use torus_cam::fx::SCALE;
use torus_cam::fx::cos_turns;
use torus_cam::fx::i64_div_trunc;
use torus_cam::fx::sin_turns;
use torus_cam::linear::FxVec3;
use torus_cam::rig::BoomGimbalState;
use torus_cam::rig::RigInput;
use torus_cam::rig::SCALE_EPSILON;

fn idle_input() -> RigInput {
    RigInput { scroll: 0, boom_key: false, gimbal_key: false, dx: 0, dy: 0 }
}

#[test]
fn zoom_moves_scale_by_a_hundredth_per_scroll_unit() {
    let mut s = BoomGimbalState::new();
    let mut inp = idle_input();
    inp.scroll = SCALE;
    s.tick(&inp);
    assert_eq!(s.boom_scale, FxVec3 { x: 990_000, y: 990_000, z: 990_000 });
    inp.scroll = -SCALE;
    s.tick(&inp);
    assert_eq!(s.boom_scale, FxVec3 { x: SCALE, y: SCALE, z: SCALE });
}

#[test]
fn zoom_past_the_floor_is_dropped_whole() {
    let mut s = BoomGimbalState::new();
    let mut inp = idle_input();
    // A hundred million lines of scroll would push the scale far below
    // zero: the update is rejected and the old scale kept, tick after tick.
    inp.scroll = 1_000_000_000;
    for _ in 0..50 {
        s.tick(&inp);
        assert_eq!(s.boom_scale, FxVec3 { x: SCALE, y: SCALE, z: SCALE });
        assert!(s.boom_scale.x > SCALE_EPSILON);
    }
}

#[test]
fn zoom_freezes_at_the_last_valid_value() {
    let mut s = BoomGimbalState::new();
    let mut inp = idle_input();
    // 9999 ticks of scale per step leave 100 ticks after the 100th step;
    // the 101st would cross the floor and is dropped.
    inp.scroll = 999_980;
    for _ in 0..100 {
        s.tick(&inp);
    }
    assert_eq!(s.boom_scale.x, 1_000_000 - 100 * 9_999);
    let frozen = s.boom_scale;
    for _ in 0..10 {
        s.tick(&inp);
        assert_eq!(s.boom_scale, frozen);
    }
}

#[test]
fn boom_rotates_only_while_its_key_is_held() {
    let mut s = BoomGimbalState::new();
    let mut inp = idle_input();
    inp.dx = 100_000_000;
    s.tick(&inp);
    let fresh = BoomGimbalState::new();
    assert_eq!(s.boom_rotation, fresh.boom_rotation);
    assert_eq!(s.gimbal_rotation, fresh.gimbal_rotation);
    inp.boom_key = true;
    s.tick(&inp);
    assert_ne!(s.boom_rotation, fresh.boom_rotation);
    assert_eq!(s.gimbal_rotation, fresh.gimbal_rotation);
}

#[test]
fn horizontal_drag_turns_the_boom_about_its_y_axis() {
    let mut s = BoomGimbalState::new();
    let mut inp = idle_input();
    inp.boom_key = true;
    // 100 pixels of drag at the documented sensitivity: 159200 turn ticks,
    // applied negated.
    inp.dx = 100_000_000;
    s.tick(&inp);
    let half = i64_div_trunc(-159_200, 2);
    assert_eq!(s.boom_rotation.x, 0);
    assert_eq!(s.boom_rotation.y, sin_turns(half));
    assert_eq!(s.boom_rotation.z, 0);
    assert_eq!(s.boom_rotation.w, cos_turns(half));
}

#[test]
fn vertical_drag_turns_the_gimbal_about_its_x_axis() {
    let mut s = BoomGimbalState::new();
    let mut inp = idle_input();
    inp.gimbal_key = true;
    inp.dy = 100_000_000;
    s.tick(&inp);
    let half = i64_div_trunc(-159_200, 2);
    assert_eq!(s.gimbal_rotation.x, sin_turns(half));
    assert_eq!(s.gimbal_rotation.y, 0);
    assert_eq!(s.gimbal_rotation.z, 0);
    assert_eq!(s.gimbal_rotation.w, cos_turns(half));
    let fresh = BoomGimbalState::new();
    assert_eq!(s.boom_rotation, fresh.boom_rotation);
}

#[test]
fn both_keys_rotate_both_transforms_in_one_tick() {
    let mut s = BoomGimbalState::new();
    let mut inp = idle_input();
    inp.boom_key = true;
    inp.gimbal_key = true;
    inp.dx = 50_000_000;
    inp.dy = 25_000_000;
    s.tick(&inp);
    let fresh = BoomGimbalState::new();
    assert_ne!(s.boom_rotation, fresh.boom_rotation);
    assert_ne!(s.gimbal_rotation, fresh.gimbal_rotation);
    assert_eq!(s.boom_rotation, s.gimbal_rotation);
}

#[test]
fn tiny_motion_is_ignored() {
    let mut s = BoomGimbalState::new();
    let mut inp = idle_input();
    inp.boom_key = true;
    inp.gimbal_key = true;
    // A thousandth of a pixel: the scaled delta stays at the epsilon.
    inp.dx = 1_000;
    inp.dy = 1_000;
    s.tick(&inp);
    let fresh = BoomGimbalState::new();
    assert_eq!(s.boom_rotation, fresh.boom_rotation);
    assert_eq!(s.gimbal_rotation, fresh.gimbal_rotation);
}

#[test]
fn world_orientation_composes_boom_then_gimbal() {
    let mut s = BoomGimbalState::new();
    assert_eq!(s.world_orientation(), s.boom_rotation);
    let mut inp = idle_input();
    inp.boom_key = true;
    inp.dx = 100_000_000;
    s.tick(&inp);
    // With the gimbal still at identity, the world orientation is exactly
    // the boom's rotation.
    assert_eq!(s.world_orientation(), s.boom_rotation);
    inp.boom_key = false;
    inp.gimbal_key = true;
    inp.dx = 0;
    inp.dy = 80_000_000;
    s.tick(&inp);
    let world = s.world_orientation();
    assert_ne!(world, s.boom_rotation);
    assert_ne!(world, s.gimbal_rotation);
}

#[test]
fn zoom_and_rotation_compose_in_one_tick() {
    let mut s = BoomGimbalState::new();
    let mut inp = idle_input();
    inp.scroll = SCALE;
    inp.boom_key = true;
    inp.dx = 100_000_000;
    s.tick(&inp);
    let fresh = BoomGimbalState::new();
    assert_eq!(s.boom_scale, FxVec3 { x: 990_000, y: 990_000, z: 990_000 });
    assert_ne!(s.boom_rotation, fresh.boom_rotation);
}
