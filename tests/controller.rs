use ray_camera::controller::{CameraController, Key};

#[test]
fn new_controller_takes_a_still_step() {
    let mut c = CameraController::new();
    let step = c.update_camera();
    assert_eq!(step.forward, 0);
    assert_eq!(step.right, 0);
    assert_eq!(step.up, 0);
    assert_eq!(step.rotate_horizontal, 0);
    assert_eq!(step.rotate_vertical, 0);
    assert_eq!(c.last_pointer(), (0, 0));
}

#[test]
fn pressing_w_moves_forward() {
    let mut c = CameraController::new();
    assert!(c.process_keyboard(Key::W, true));
    let step = c.update_camera();
    assert_eq!(step.forward, 1);
    assert_eq!(step.right, 0);
    assert_eq!(step.up, 0);
}

#[test]
fn each_key_drives_its_axis() {
    let cases = [
        (Key::W, 1, 0, 0),
        (Key::Up, 1, 0, 0),
        (Key::S, -1, 0, 0),
        (Key::Down, -1, 0, 0),
        (Key::D, 0, 1, 0),
        (Key::Right, 0, 1, 0),
        (Key::A, 0, -1, 0),
        (Key::Left, 0, -1, 0),
        (Key::Space, 0, 0, 1),
        (Key::LShift, 0, 0, -1),
    ];
    for (key, f, r, u) in cases {
        let mut c = CameraController::new();
        assert!(c.process_keyboard(key, true));
        let step = c.update_camera();
        assert_eq!((step.forward, step.right, step.up), (f, r, u));
    }
}

#[test]
fn release_stops_the_motion() {
    let mut c = CameraController::new();
    c.process_keyboard(Key::D, true);
    c.process_keyboard(Key::Right, false);
    let step = c.update_camera();
    assert_eq!(step.right, 0);
}

#[test]
fn opposite_keys_cancel() {
    let mut c = CameraController::new();
    c.process_keyboard(Key::W, true);
    c.process_keyboard(Key::S, true);
    c.process_keyboard(Key::Space, true);
    c.process_keyboard(Key::LShift, true);
    let step = c.update_camera();
    assert_eq!(step.forward, 0);
    assert_eq!(step.up, 0);
}

#[test]
fn unrecognized_keys_are_ignored() {
    let mut c = CameraController::new();
    assert!(!c.process_keyboard(Key::Other, true));
    assert!(!c.process_keyboard(Key::Escape, true));
    let step = c.update_camera();
    assert_eq!((step.forward, step.right, step.up), (0, 0, 0));
}

#[test]
fn pointer_offset_becomes_rotation() {
    let mut c = CameraController::new();
    c.process_mouse((12, -7));
    assert_eq!(c.last_pointer(), (12, -7));
    c.process_mouse((20, -10));
    let step = c.update_camera();
    assert_eq!(step.rotate_horizontal, 8);
    assert_eq!(step.rotate_vertical, -3);
}

#[test]
fn same_pointer_twice_gives_no_rotation() {
    let mut c = CameraController::new();
    c.process_mouse((40, 25));
    c.process_mouse((40, 25));
    let step = c.update_camera();
    assert_eq!(step.rotate_horizontal, 0);
    assert_eq!(step.rotate_vertical, 0);
}

#[test]
fn rotation_is_cleared_by_each_frame() {
    let mut c = CameraController::new();
    c.process_keyboard(Key::A, true);
    c.process_mouse((3, 4));
    let first = c.update_camera();
    assert_eq!((first.rotate_horizontal, first.rotate_vertical), (3, 4));
    let second = c.update_camera();
    assert_eq!((second.rotate_horizontal, second.rotate_vertical), (0, 0));
    assert_eq!(second.right, -1);
}

#[test]
fn extreme_pointer_positions_do_not_overflow() {
    let mut c = CameraController::new();
    c.process_mouse((i32::MIN, i32::MAX));
    c.process_mouse((i32::MAX, i32::MIN));
    let step = c.update_camera();
    assert_eq!(step.rotate_horizontal, i32::MAX as i64 - i32::MIN as i64);
    assert_eq!(step.rotate_vertical, i32::MIN as i64 - i32::MAX as i64);
}
