//! Rotation and flip state behaviour.

use noctua::transform::{rotation_diff_degrees, FlipDirection, Rotation, TransformState};

#[test]
fn rotate_cw_steps_through_quarters() {
    assert_eq!(Rotation::Cw0.rotate_cw(), Rotation::Cw90);
    assert_eq!(Rotation::Cw90.rotate_cw(), Rotation::Cw180);
    assert_eq!(Rotation::Cw180.rotate_cw(), Rotation::Cw270);
    assert_eq!(Rotation::Cw270.rotate_cw(), Rotation::Cw0);
}

#[test]
fn rotate_ccw_steps_back() {
    assert_eq!(Rotation::Cw0.rotate_ccw(), Rotation::Cw270);
    assert_eq!(Rotation::Cw270.rotate_ccw(), Rotation::Cw180);
    assert_eq!(Rotation::Cw180.rotate_ccw(), Rotation::Cw90);
    assert_eq!(Rotation::Cw90.rotate_ccw(), Rotation::Cw0);
}

#[test]
fn four_cw_turns_return_to_start() {
    let mut r = Rotation::Cw90;
    for _ in 0..4 {
        r = r.rotate_cw();
    }
    assert_eq!(r, Rotation::Cw90);
}

#[test]
fn to_degrees_values() {
    assert_eq!(Rotation::Cw0.to_degrees(), 0);
    assert_eq!(Rotation::Cw90.to_degrees(), 90);
    assert_eq!(Rotation::Cw180.to_degrees(), 180);
    assert_eq!(Rotation::Cw270.to_degrees(), 270);
}

#[test]
fn rotation_diff_is_minimal_turn() {
    assert_eq!(rotation_diff_degrees(Rotation::Cw0, Rotation::Cw0), 0);
    assert_eq!(rotation_diff_degrees(Rotation::Cw0, Rotation::Cw90), 90);
    assert_eq!(rotation_diff_degrees(Rotation::Cw270, Rotation::Cw0), 90);
    assert_eq!(rotation_diff_degrees(Rotation::Cw90, Rotation::Cw0), 270);
    assert_eq!(rotation_diff_degrees(Rotation::Cw180, Rotation::Cw90), 270);
    assert_eq!(rotation_diff_degrees(Rotation::Cw90, Rotation::Cw270), 180);
}

#[test]
fn default_transform_is_identity() {
    let t = TransformState::default();
    assert_eq!(t.rotation, Rotation::Cw0);
    assert!(!t.flip_h);
    assert!(!t.flip_v);
}

#[test]
fn flips_are_independent_toggles() {
    let mut t = TransformState::default();
    t = TransformState {
        flip_h: !t.flip_h,
        ..t
    };
    assert!(t.flip_h);
    assert!(!t.flip_v);
    let _ = FlipDirection::Horizontal;
    let _ = FlipDirection::Vertical;
}
