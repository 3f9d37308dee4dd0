use chess::camera::{maybe_move_camera, Camera, EventResult, Extent, Offset};
use chess::input::{step_for, Axis, Key, KeyInput, KeyState, Step};
use glam::{self, Mat4, Quat, Vec3};

#[test]
fn test_camera() {
    let eye = Vec3::new(1.5, -5.0, 3.0);
    let looking_at = Vec3::ZERO;
    let top = Vec3::Z;
    let view = Mat4::look_at_rh(eye, looking_at, top);

    let (scale, rotation, translation) = view.to_scale_rotation_translation();

    let euler_rotation = glam::EulerRot::YXZ;
    let (yaw, pitch, roll) = rotation.to_euler(euler_rotation);

    println!("{yaw} {pitch} {roll}");
    println!("{scale} {translation}");

    let rebuilt_rotation = Quat::from_euler(euler_rotation, yaw, pitch, roll);
    let rebuilt = Mat4::from_scale_rotation_translation(scale, rebuilt_rotation, translation);
    assert!(rebuilt.abs_diff_eq(view, 1e-5));
}

fn press(key: Key) -> KeyInput {
    KeyInput { state: KeyState::Pressed, key }
}

fn release(key: Key) -> KeyInput {
    KeyInput { state: KeyState::Released, key }
}

#[test]
fn directional_keys_map_to_axes() {
    assert_eq!(step_for(press(Key::ArrowUp)), Some(Step { axis: Axis::Y, forward: true }));
    assert_eq!(step_for(press(Key::ArrowDown)), Some(Step { axis: Axis::Y, forward: false }));
    assert_eq!(step_for(press(Key::ArrowLeft)), Some(Step { axis: Axis::X, forward: true }));
    assert_eq!(step_for(press(Key::ArrowRight)), Some(Step { axis: Axis::X, forward: false }));
    assert_eq!(step_for(press(Key::Space)), Some(Step { axis: Axis::Z, forward: true }));
    assert_eq!(step_for(press(Key::ShiftRight)), Some(Step { axis: Axis::Z, forward: false }));
}

#[test]
fn releases_and_other_keys_ask_for_nothing() {
    assert_eq!(step_for(release(Key::ArrowUp)), None);
    assert_eq!(step_for(release(Key::Space)), None);
    assert_eq!(step_for(press(Key::Other)), None);
    assert_eq!(step_for(press(Key::Unidentified)), None);
}

#[test]
fn new_camera_is_current_at_default_pose() {
    let aspect = Extent { width: 800, height: 600 };
    let c = Camera::new(aspect);
    assert_eq!(c.aspect, aspect);
    assert_eq!(c.offset, Offset { x: 0, y: 0, z: 0 });
    assert_eq!(c.view.aspect, aspect);
    assert_eq!(c.view.offset, c.offset);
}

#[test]
fn up_press_moves_one_step_and_release_does_nothing() {
    let mut c = Camera::new(Extent { width: 800, height: 800 });
    assert_eq!(maybe_move_camera(&mut c, press(Key::ArrowUp)), EventResult::Redraw);
    assert_eq!(c.offset, Offset { x: 0, y: 1, z: 0 });
    let after_press = c;
    assert_eq!(maybe_move_camera(&mut c, release(Key::ArrowUp)), EventResult::Ignored);
    assert_eq!(c, after_press);
}

#[test]
fn move_leaves_view_stale_until_update_view() {
    let mut c = Camera::new(Extent { width: 4, height: 3 });
    maybe_move_camera(&mut c, press(Key::ShiftRight));
    assert_eq!(c.offset, Offset { x: 0, y: 0, z: -1 });
    assert_eq!(c.view.offset, Offset { x: 0, y: 0, z: 0 });
    c.update_view();
    assert_eq!(c.view.offset, Offset { x: 0, y: 0, z: -1 });
    assert_eq!(c.view.aspect, Extent { width: 4, height: 3 });
}

#[test]
fn each_direction_moves_its_axis() {
    let mut c = Camera::new(Extent { width: 1, height: 1 });
    maybe_move_camera(&mut c, press(Key::ArrowLeft));
    maybe_move_camera(&mut c, press(Key::ArrowLeft));
    maybe_move_camera(&mut c, press(Key::ArrowRight));
    maybe_move_camera(&mut c, press(Key::ArrowDown));
    maybe_move_camera(&mut c, press(Key::Space));
    assert_eq!(c.offset, Offset { x: 1, y: -1, z: 1 });
}

#[test]
fn step_at_end_of_range_stays() {
    let mut c = Camera::new(Extent { width: 1, height: 1 });
    c.offset.y = i64::MAX;
    assert_eq!(maybe_move_camera(&mut c, press(Key::ArrowUp)), EventResult::Redraw);
    assert_eq!(c.offset.y, i64::MAX);
    c.offset.y = i64::MIN;
    maybe_move_camera(&mut c, press(Key::ArrowDown));
    assert_eq!(c.offset.y, i64::MIN);
}

#[test]
fn other_key_is_ignored() {
    let mut c = Camera::new(Extent { width: 1, height: 1 });
    let before = c;
    assert_eq!(maybe_move_camera(&mut c, press(Key::Other)), EventResult::Ignored);
    assert_eq!(c, before);
}

#[test]
fn update_projection_takes_new_aspect_and_keeps_pose() {
    let mut c = Camera::new(Extent { width: 800, height: 800 });
    maybe_move_camera(&mut c, press(Key::ArrowUp));
    c.update_projection(Extent { width: 1920, height: 1080 });
    assert_eq!(c.aspect, Extent { width: 1920, height: 1080 });
    assert_eq!(c.offset, Offset { x: 0, y: 1, z: 0 });
    assert_eq!(c.view.aspect, c.aspect);
    assert_eq!(c.view.offset, c.offset);
}

#[test]
fn same_settings_give_same_view() {
    let mut a = Camera::new(Extent { width: 640, height: 480 });
    let mut b = Camera::new(Extent { width: 10, height: 10 });
    maybe_move_camera(&mut a, press(Key::Space));
    b.update_projection(Extent { width: 640, height: 480 });
    maybe_move_camera(&mut b, press(Key::Space));
    a.update_view();
    b.update_view();
    a.update_view();
    assert_eq!(a.view, b.view);
}

#[test]
fn grid_input_uses_present_settings() {
    let mut c = Camera::new(Extent { width: 2, height: 1 });
    maybe_move_camera(&mut c, press(Key::ArrowRight));
    let g = c.grid_input(80);
    assert_eq!(g.scale, 80);
    assert_eq!(g.transform.offset, Offset { x: -1, y: 0, z: 0 });
    assert_eq!(g.transform.aspect, Extent { width: 2, height: 1 });
}
