use vstd::prelude::*;

verus! {

/// Logical keys that the viewer reacts to; every other key is `Other`.
#[derive(Clone, Copy, Debug, PartialEq, Eq, Structural)]
pub enum Key {
    StrafeLeft,
    StrafeRight,
    Forward,
    Backward,
    Ascend,
    Descend,
    PowerUp,
    PowerDown,
    Exit,
    Other,
}

/// Transition of a key.
#[derive(Clone, Copy, Debug, PartialEq, Eq, Structural)]
pub enum KeyState {
    Pressed,
    Released,
}

/// Translation axes of the camera, in its own frame.
#[derive(Clone, Copy, Debug, PartialEq, Eq, Structural)]
pub enum Axis {
    Forward,
    Right,
    Up,
}

/// The axis a key drives and the sign it drives it with, if any.
pub open spec fn axis_binding(key: Key) -> Option<(Axis, i8)> {
    match key {
        Key::StrafeLeft => Some((Axis::Right, 1i8)),
        Key::StrafeRight => Some((Axis::Right, -1i8)),
        Key::Forward => Some((Axis::Forward, 1i8)),
        Key::Backward => Some((Axis::Forward, -1i8)),
        Key::Ascend => Some((Axis::Up, 1i8)),
        Key::Descend => Some((Axis::Up, -1i8)),
        _ => None,
    }
}

/// The value an axis takes after a bound key event: the key's sign while
/// pressed, zero once released.
pub open spec fn axis_value(sign: i8, state: KeyState) -> i8 {
    match state {
        KeyState::Pressed => sign,
        KeyState::Released => 0i8,
    }
}

/// Looks up the axis binding of a key.
pub fn key_axis(key: Key) -> (r: Option<(Axis, i8)>)
    ensures
        r == axis_binding(key),
{
    match key {
        Key::StrafeLeft => Some((Axis::Right, 1i8)),
        Key::StrafeRight => Some((Axis::Right, -1i8)),
        Key::Forward => Some((Axis::Forward, 1i8)),
        Key::Backward => Some((Axis::Forward, -1i8)),
        Key::Ascend => Some((Axis::Up, 1i8)),
        Key::Descend => Some((Axis::Up, -1i8)),
        _ => None,
    }
}

/// Whether an event asks the viewer to quit: the exit key going down.
pub fn is_exit(key: Key, state: KeyState) -> (r: bool)
    ensures
        r == (key == Key::Exit && state == KeyState::Pressed),
{
    match (key, state) {
        (Key::Exit, KeyState::Pressed) => true,
        _ => false,
    }
}

} // verus!
