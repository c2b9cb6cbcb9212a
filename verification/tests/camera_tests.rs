use cube_scene::camera::CameraPose;
use cube_scene::camera::KeyPresses;
use cube_scene::camera::camera_movement;
use cube_scene::camera::horizontal;
use cube_scene::geometry::Vec3i;

fn v(x: i64, y: i64, z: i64) -> Vec3i {
    Vec3i { x, y, z }
}

fn no_keys() -> KeyPresses {
    KeyPresses {
        forward: false,
        back: false,
        right: false,
        left: false,
        up: false,
        down: false,
        yaw_left: false,
        yaw_right: false,
    }
}

fn pose(x: i64, y: i64, z: i64, yaw: i64) -> CameraPose {
    CameraPose { translation: v(x, y, z), yaw }
}

// the demo camera starts at world (0, 0, 5) looking at the origin, so its
// horizontal forward is -z, its right +x and its up +y
const FWD: Vec3i = Vec3i { x: 0, y: 0, z: -1000 };
const RIGHT: Vec3i = Vec3i { x: 1000, y: 0, z: 0 };
const UP: Vec3i = Vec3i { x: 0, y: 1000, z: 0 };

#[test]
fn zero_elapsed_time_moves_nothing() {
    // all eight keys down, but no time has passed
    let keys = KeyPresses {
        forward: true,
        back: true,
        right: true,
        left: true,
        up: true,
        down: true,
        yaw_left: true,
        yaw_right: true,
    };
    let start = pose(12, -7, 99, 40);
    let mut p = start;
    camera_movement(&mut p, keys, 0, FWD, RIGHT, UP);
    assert_eq!(p, start);
}

#[test]
fn opposing_keys_cancel() {
    let keys = KeyPresses { forward: true, back: true, right: true, left: true, ..no_keys() };
    let start = pose(5, 6, 7, 8);
    let mut p = start;
    camera_movement(&mut p, keys, 11, FWD, RIGHT, UP);
    assert_eq!(p, start);
}

#[test]
fn forward_moves_along_the_forward_direction() {
    let keys = KeyPresses { forward: true, ..no_keys() };
    let mut p = pose(0, 0, 0, 0);
    camera_movement(&mut p, keys, 2, FWD, RIGHT, UP);
    // speed 3, time 2: six times the forward direction
    assert_eq!(p.translation, v(0, 0, -6000));
    assert_eq!(p.yaw, 0);
}

#[test]
fn strafe_and_rise_combine() {
    let keys = KeyPresses { right: true, up: true, ..no_keys() };
    let mut p = pose(100, 200, 300, 0);
    camera_movement(&mut p, keys, 1, FWD, RIGHT, UP);
    assert_eq!(p.translation, v(3100, 3200, 300));
}

#[test]
fn back_and_down_negate_forward_and_up() {
    let keys = KeyPresses { back: true, down: true, ..no_keys() };
    let mut p = pose(0, 0, 0, 0);
    camera_movement(&mut p, keys, 3, FWD, RIGHT, UP);
    assert_eq!(p.translation, v(0, -9000, 9000));
}

#[test]
fn yaw_left_turns_by_speed_times_time() {
    let keys = KeyPresses { yaw_left: true, ..no_keys() };
    let mut p = pose(1, 2, 3, 1000);
    camera_movement(&mut p, keys, 10, FWD, RIGHT, UP);
    // rotate speed 3, time 10
    assert_eq!(p.yaw, 1030);
    assert_eq!(p.translation, v(1, 2, 3));
}

#[test]
fn yaw_right_negates_yaw_left() {
    let left = KeyPresses { yaw_left: true, ..no_keys() };
    let right = KeyPresses { yaw_right: true, ..no_keys() };
    let start = pose(0, 0, 0, 500);
    let mut pl = start;
    let mut pr = start;
    camera_movement(&mut pl, left, 7, FWD, RIGHT, UP);
    camera_movement(&mut pr, right, 7, FWD, RIGHT, UP);
    assert_eq!(pl.yaw - start.yaw, 21);
    assert_eq!(pr.yaw - start.yaw, -21);
    assert_eq!(pl.yaw - start.yaw, -(pr.yaw - start.yaw));
}

#[test]
fn both_yaw_keys_cancel() {
    let keys = KeyPresses { yaw_left: true, yaw_right: true, ..no_keys() };
    let mut p = pose(0, 0, 0, 77);
    camera_movement(&mut p, keys, 9, FWD, RIGHT, UP);
    assert_eq!(p.yaw, 77);
}

#[test]
fn translations_are_order_insensitive() {
    // pressing two keys in one frame equals pressing each alone and
    // summing the motions
    let both = KeyPresses { forward: true, right: true, ..no_keys() };
    let only_f = KeyPresses { forward: true, ..no_keys() };
    let only_r = KeyPresses { right: true, ..no_keys() };
    let start = pose(0, 0, 0, 0);
    let mut pb = start;
    let mut pf = start;
    let mut pr = start;
    camera_movement(&mut pb, both, 4, FWD, RIGHT, UP);
    camera_movement(&mut pf, only_f, 4, FWD, RIGHT, UP);
    camera_movement(&mut pr, only_r, 4, FWD, RIGHT, UP);
    assert_eq!(
        pb.translation,
        v(
            pf.translation.x + pr.translation.x,
            pf.translation.y + pr.translation.y,
            pf.translation.z + pr.translation.z,
        )
    );
}

#[test]
fn horizontal_drops_the_vertical_component() {
    let r = horizontal(v(3, 7, -2));
    assert_eq!(r, v(3, 0, -2));
}
