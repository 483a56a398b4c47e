use vstd::prelude::*;

use crate::input::{Axis, KeyState, Key, axis_binding, axis_value, key_axis};

verus! {

/// Level-triggered translation intents of the camera: each axis is -1, 0 or 1
/// and keeps its value until a key event on that axis changes it.
#[derive(Clone, Copy, Debug, PartialEq, Eq, Structural)]
pub struct Movement {
    pub forward: i8,
    pub right: i8,
    pub up: i8,
}

/// Whether `v` is a valid axis intent.
pub open spec fn is_intent(v: i8) -> bool {
    -1 <= v <= 1
}

impl Movement {
    pub open spec fn wf(&self) -> bool {
        is_intent(self.forward) && is_intent(self.right) && is_intent(self.up)
    }

    /// The intent on one axis.
    pub open spec fn axis(&self, a: Axis) -> i8 {
        match a {
            Axis::Forward => self.forward,
            Axis::Right => self.right,
            Axis::Up => self.up,
        }
    }

    /// `self` with the intent on axis `a` replaced by `v`.
    pub open spec fn with_axis(self, a: Axis, v: i8) -> Movement {
        match a {
            Axis::Forward => Movement { forward: v, ..self },
            Axis::Right => Movement { right: v, ..self },
            Axis::Up => Movement { up: v, ..self },
        }
    }

    /// The intents after one key event: a bound key sets its axis, any other
    /// key leaves every axis as it was.
    pub open spec fn after_key(self, key: Key, state: KeyState) -> Movement {
        match axis_binding(key) {
            Some((a, sign)) => self.with_axis(a, axis_value(sign, state)),
            None => self,
        }
    }

    /// No intent on any axis.
    pub fn new() -> (r: Movement)
        ensures
            r.wf(),
            r.forward == 0 && r.right == 0 && r.up == 0,
    {
        Movement { forward: 0, right: 0, up: 0 }
    }

    /// Applies one key event; the last event on an axis wins.
    pub fn handle_keyboard_input(&mut self, key: Key, state: KeyState)
        requires
            old(self).wf(),
        ensures
            final(self).wf(),
            *final(self) == old(self).after_key(key, state),
    {
        match key_axis(key) {
            Some((a, sign)) => {
                let v: i8 = match state {
                    KeyState::Pressed => sign,
                    KeyState::Released => 0,
                };
                match a {
                    Axis::Forward => self.forward = v,
                    Axis::Right => self.right = v,
                    Axis::Up => self.up = v,
                }
            },
            None => {},
        }
    }
}

} // verus!
