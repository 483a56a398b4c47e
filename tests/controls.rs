use mandelbulb_view::camera::{dispatch_key, position_from_slice, Viewport};
use mandelbulb_view::fractal::FractalParams;
use mandelbulb_view::input::{is_exit, key_axis, Axis, Key, KeyState};
use mandelbulb_view::movement::Movement;

#[test]
fn movement_starts_still() {
    let m = Movement::new();
    assert_eq!(m, Movement { forward: 0, right: 0, up: 0 });
}

#[test]
fn strafe_keys_set_and_clear_right_axis() {
    let mut m = Movement::new();
    m.handle_keyboard_input(Key::StrafeLeft, KeyState::Pressed);
    assert_eq!(m.right, 1);
    m.handle_keyboard_input(Key::StrafeLeft, KeyState::Released);
    assert_eq!(m.right, 0);
    m.handle_keyboard_input(Key::StrafeRight, KeyState::Pressed);
    assert_eq!(m.right, -1);
    assert_eq!(m.forward, 0);
    assert_eq!(m.up, 0);
}

#[test]
fn forward_and_vertical_keys() {
    let mut m = Movement::new();
    m.handle_keyboard_input(Key::Forward, KeyState::Pressed);
    m.handle_keyboard_input(Key::Ascend, KeyState::Pressed);
    assert_eq!(m, Movement { forward: 1, right: 0, up: 1 });
    m.handle_keyboard_input(Key::Backward, KeyState::Pressed);
    m.handle_keyboard_input(Key::Descend, KeyState::Pressed);
    assert_eq!(m, Movement { forward: -1, right: 0, up: -1 });
}

#[test]
fn opposite_keys_last_event_wins() {
    let mut m = Movement::new();
    m.handle_keyboard_input(Key::Forward, KeyState::Pressed);
    m.handle_keyboard_input(Key::Backward, KeyState::Pressed);
    assert_eq!(m.forward, -1);
    // Releasing the first key zeroes the axis although the second is held.
    m.handle_keyboard_input(Key::Forward, KeyState::Released);
    assert_eq!(m.forward, 0);
}

#[test]
fn unbound_keys_leave_movement_alone() {
    let mut m = Movement { forward: 1, right: -1, up: 0 };
    for key in [Key::PowerUp, Key::PowerDown, Key::Exit, Key::Other] {
        m.handle_keyboard_input(key, KeyState::Pressed);
        m.handle_keyboard_input(key, KeyState::Released);
    }
    assert_eq!(m, Movement { forward: 1, right: -1, up: 0 });
}

#[test]
fn key_axis_table() {
    assert_eq!(key_axis(Key::StrafeLeft), Some((Axis::Right, 1)));
    assert_eq!(key_axis(Key::StrafeRight), Some((Axis::Right, -1)));
    assert_eq!(key_axis(Key::Forward), Some((Axis::Forward, 1)));
    assert_eq!(key_axis(Key::Backward), Some((Axis::Forward, -1)));
    assert_eq!(key_axis(Key::Ascend), Some((Axis::Up, 1)));
    assert_eq!(key_axis(Key::Descend), Some((Axis::Up, -1)));
    assert_eq!(key_axis(Key::PowerUp), None);
    assert_eq!(key_axis(Key::Other), None);
}

#[test]
fn exit_only_on_press() {
    assert!(is_exit(Key::Exit, KeyState::Pressed));
    assert!(!is_exit(Key::Exit, KeyState::Released));
    assert!(!is_exit(Key::Forward, KeyState::Pressed));
}

#[test]
fn fractal_defaults() {
    let p = FractalParams::new();
    assert_eq!(p.iterations, 8);
    assert_eq!(p.max_ray_march_iterations, 150);
    assert_eq!(p.power_hundredths, 700);
}

#[test]
fn power_keys_step_by_one_hundredth() {
    let mut p = FractalParams::new();
    assert!(p.handle_keyboard_input(Key::PowerUp, KeyState::Pressed));
    assert_eq!(p.power_hundredths, 701);
    assert!(p.handle_keyboard_input(Key::PowerDown, KeyState::Pressed));
    assert!(p.handle_keyboard_input(Key::PowerDown, KeyState::Pressed));
    assert_eq!(p.power_hundredths, 699);
}

#[test]
fn repeated_power_increases_accumulate_exactly() {
    let mut p = FractalParams::new();
    for _ in 0..100 {
        assert!(p.handle_keyboard_input(Key::PowerUp, KeyState::Pressed));
    }
    assert_eq!(p.power_hundredths, 800);
    for _ in 0..1000 {
        p.handle_keyboard_input(Key::PowerDown, KeyState::Pressed);
    }
    // No lower bound: the exponent goes through zero and below.
    assert_eq!(p.power_hundredths, -200);
    assert_eq!(p.iterations, 8);
    assert_eq!(p.max_ray_march_iterations, 150);
}

#[test]
fn power_key_releases_are_not_consumed() {
    let mut p = FractalParams::new();
    assert!(!p.handle_keyboard_input(Key::PowerUp, KeyState::Released));
    assert!(!p.handle_keyboard_input(Key::PowerDown, KeyState::Released));
    assert!(!p.handle_keyboard_input(Key::Forward, KeyState::Pressed));
    assert_eq!(p, FractalParams::new());
}

#[test]
fn set_power_is_additive() {
    let mut p = FractalParams::new();
    p.set_power(-250);
    assert_eq!(p.power_hundredths, 450);
    p.set_power(-1000);
    assert_eq!(p.power_hundredths, -550);
}

#[test]
fn dispatch_gives_power_keys_to_fractal_only() {
    let mut p = FractalParams::new();
    let mut m = Movement::new();
    assert!(dispatch_key(&mut p, &mut m, Key::PowerUp, KeyState::Pressed));
    assert_eq!(p.power_hundredths, 701);
    assert_eq!(m, Movement::new());
    assert!(!dispatch_key(&mut p, &mut m, Key::StrafeLeft, KeyState::Pressed));
    assert_eq!(m.right, 1);
    assert_eq!(p.power_hundredths, 701);
}

#[test]
fn position_needs_three_coordinates() {
    assert_eq!(position_from_slice(&[-1.5f32, 0.0, 0.0]), Some([-1.5f32, 0.0, 0.0]));
    assert_eq!(position_from_slice(&[1.0f32, 2.0]), None);
    assert_eq!(position_from_slice(&[1.0f32, 2.0, 3.0, 4.0]), None);
    let empty: [f32; 0] = [];
    assert_eq!(position_from_slice(&empty), None);
}

#[test]
fn viewport_rejects_zero_sides() {
    assert_eq!(Viewport::new(800, 600), Some(Viewport { width: 800, height: 600 }));
    assert_eq!(Viewport::new(0, 600), None);
    assert_eq!(Viewport::new(800, 0), None);
    let mut v = Viewport { width: 800, height: 600 };
    assert!(!v.set_size(0, 0));
    assert_eq!(v, Viewport { width: 800, height: 600 });
    assert!(v.set_size(1024, 768));
    assert_eq!(v, Viewport { width: 1024, height: 768 });
}
