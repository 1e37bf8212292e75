use bevy::input::keyboard::KeyCode;
use bevy::input::ButtonInput;
use bevy::math::Quat;
use bevy::math::Vec3;
use rps_arena::input::move_keys;
use rps_arena::input::MoveKeys;
use rps_arena::movement::movement_dir;
use rps_arena::movement::player_movement;
use rps_arena::movement::MoveDir;
use rps_arena::movement::MOVEMENT_STRENGTH;

fn held(forward: bool, back: bool, left: bool, right: bool) -> MoveKeys {
    MoveKeys { forward, back, left, right }
}

fn keyboard(down: &[KeyCode]) -> ButtonInput<KeyCode> {
    let mut keys = ButtonInput::default();
    for key in down {
        keys.press(*key);
    }
    keys
}

fn as_vec3(dir: MoveDir) -> Vec3 {
    Vec3::new(f32::from(dir.x), 0.0, f32::from(dir.z))
}

#[test]
fn no_keys_no_heading() {
    assert_eq!(movement_dir(held(false, false, false, false)), MoveDir { x: 0, z: 0 });
    assert_eq!(player_movement(&keyboard(&[])), MoveDir { x: 0, z: 0 });
}

#[test]
fn each_key_pushes_one_step_along_its_axis() {
    assert_eq!(movement_dir(held(true, false, false, false)), MoveDir { x: 0, z: 1 });
    assert_eq!(movement_dir(held(false, true, false, false)), MoveDir { x: 0, z: -1 });
    assert_eq!(movement_dir(held(false, false, true, false)), MoveDir { x: 1, z: 0 });
    assert_eq!(movement_dir(held(false, false, false, true)), MoveDir { x: -1, z: 0 });
}

#[test]
fn opposite_keys_cancel() {
    assert_eq!(movement_dir(held(true, true, false, false)), MoveDir { x: 0, z: 0 });
    assert_eq!(movement_dir(held(false, false, true, true)), MoveDir { x: 0, z: 0 });
    assert_eq!(movement_dir(held(true, true, true, true)), MoveDir { x: 0, z: 0 });
    assert_eq!(movement_dir(held(true, true, true, false)), MoveDir { x: 1, z: 0 });
    assert_eq!(movement_dir(held(true, false, true, true)), MoveDir { x: 0, z: 1 });
}

#[test]
fn two_axes_combine() {
    assert_eq!(movement_dir(held(true, false, true, false)), MoveDir { x: 1, z: 1 });
    assert_eq!(movement_dir(held(true, false, false, true)), MoveDir { x: -1, z: 1 });
    assert_eq!(movement_dir(held(false, true, true, false)), MoveDir { x: 1, z: -1 });
    assert_eq!(movement_dir(held(false, true, false, true)), MoveDir { x: -1, z: -1 });
}

#[test]
fn every_heading_is_made_of_whole_steps() {
    for bits in 0u8..16 {
        let keys = held(bits & 1 != 0, bits & 2 != 0, bits & 4 != 0, bits & 8 != 0);
        let dir = movement_dir(keys);
        assert_eq!(dir.z, i8::from(keys.forward) - i8::from(keys.back));
        assert_eq!(dir.x, i8::from(keys.left) - i8::from(keys.right));
        assert_eq!(dir == MoveDir { x: 0, z: 0 }, keys.forward == keys.back && keys.left == keys.right);
    }
}

#[test]
fn movement_keys_are_read_from_the_keyboard() {
    assert_eq!(move_keys(&keyboard(&[])), held(false, false, false, false));
    assert_eq!(move_keys(&keyboard(&[KeyCode::KeyW])), held(true, false, false, false));
    assert_eq!(move_keys(&keyboard(&[KeyCode::KeyS])), held(false, true, false, false));
    assert_eq!(move_keys(&keyboard(&[KeyCode::KeyA])), held(false, false, true, false));
    assert_eq!(move_keys(&keyboard(&[KeyCode::KeyD])), held(false, false, false, true));
    assert_eq!(
        move_keys(&keyboard(&[KeyCode::KeyW, KeyCode::KeyA, KeyCode::KeyS, KeyCode::KeyD])),
        held(true, true, true, true)
    );
}

#[test]
fn keys_without_a_binding_are_ignored() {
    let keys = keyboard(&[KeyCode::Space, KeyCode::ArrowUp, KeyCode::KeyQ, KeyCode::KeyE]);
    assert_eq!(move_keys(&keys), held(false, false, false, false));
    assert_eq!(player_movement(&keys), MoveDir { x: 0, z: 0 });
}

#[test]
fn held_keys_keep_pushing_after_the_frame_they_went_down() {
    let mut keys = keyboard(&[KeyCode::KeyW, KeyCode::KeyD]);
    assert_eq!(player_movement(&keys), MoveDir { x: -1, z: 1 });
    keys.clear();
    assert_eq!(player_movement(&keys), MoveDir { x: -1, z: 1 });
    keys.release(KeyCode::KeyD);
    assert_eq!(player_movement(&keys), MoveDir { x: 0, z: 1 });
    keys.release(KeyCode::KeyW);
    assert_eq!(player_movement(&keys), MoveDir { x: 0, z: 0 });
}

#[test]
fn forward_and_left_give_a_diagonal_of_unit_length() {
    let dir = player_movement(&keyboard(&[KeyCode::KeyW, KeyCode::KeyA]));
    assert_eq!(dir, MoveDir { x: 1, z: 1 });
    let heading = as_vec3(dir).normalize_or_zero();
    assert!((heading.length() - 1.0).abs() < 1e-6);
    assert!((heading.x - heading.z).abs() < 1e-6);
    assert_eq!(heading.y, 0.0);
}

#[test]
fn no_keys_leave_only_the_vertical_force() {
    let dir = player_movement(&keyboard(&[]));
    let before = Vec3::new(3.0, -9.81, 2.0);
    let mut force = Quat::from_rotation_y(0.7) * as_vec3(dir).normalize_or_zero() * f32::from(MOVEMENT_STRENGTH);
    force.y = before.y;
    assert_eq!(force.x, 0.0);
    assert_eq!(force.z, 0.0);
    assert_eq!(force.y, -9.81);
}

#[test]
fn strength_is_four() {
    assert_eq!(MOVEMENT_STRENGTH, 4);
    let dir = movement_dir(held(true, false, false, false));
    let force = as_vec3(dir).normalize_or_zero() * f32::from(MOVEMENT_STRENGTH);
    assert_eq!(force, Vec3::new(0.0, 0.0, 4.0));
}
