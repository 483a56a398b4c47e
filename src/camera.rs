use vstd::prelude::*;

use crate::fractal::{FractalParams, consumes, power_editable};
use crate::input::{Key, KeyState};
use crate::movement::Movement;

verus! {

/// Viewport size in pixels; both sides are positive.
#[derive(Clone, Copy, Debug, PartialEq, Eq, Structural)]
pub struct Viewport {
    pub width: u32,
    pub height: u32,
}

impl Viewport {
    pub open spec fn wf(&self) -> bool {
        self.width > 0 && self.height > 0
    }

    /// A viewport of the given size, or `None` when a side is zero.
    pub fn new(width: u32, height: u32) -> (r: Option<Viewport>)
        ensures
            r is Some <==> (width > 0 && height > 0),
            r matches Some(v) ==> v.wf() && v.width == width && v.height == height,
    {
        if width > 0 && height > 0 {
            Some(Viewport { width, height })
        } else {
            None
        }
    }

    /// Replaces the size after a resize event; a size with a zero side (a
    /// minimised window) is ignored. Returns whether the size was taken.
    pub fn set_size(&mut self, width: u32, height: u32) -> (taken: bool)
        requires
            old(self).wf(),
        ensures
            final(self).wf(),
            taken == (width > 0 && height > 0),
            taken ==> final(self).width == width && final(self).height == height,
            !taken ==> *final(self) == *old(self),
    {
        if width > 0 && height > 0 {
            self.width = width;
            self.height = height;
            true
        } else {
            false
        }
    }
}

/// A camera position: exactly three coordinates, or `None` for any other
/// length.
pub fn position_from_slice<T: Copy>(v: &[T]) -> (r: Option<[T; 3]>)
    ensures
        r is Some <==> v@.len() == 3,
        r matches Some(p) ==> p@ == v@,
{
    if v.len() == 3 {
        let p: [T; 3] = [v[0], v[1], v[2]];
        assert(p@ =~= v@);
        Some(p)
    } else {
        None
    }
}

/// Routes one key event: the fractal controls see it first, and only an
/// event they do not consume reaches the movement intents. Returns whether
/// the fractal controls consumed it.
pub fn dispatch_key(fractal: &mut FractalParams, movement: &mut Movement, key: Key, state: KeyState) -> (consumed: bool)
    requires
        power_editable(old(fractal).power_hundredths),
        old(movement).wf(),
    ensures
        consumed == consumes(key, state),
        *final(fractal) == old(fractal).after_key(key, state),
        final(movement).wf(),
        consumed ==> *final(movement) == *old(movement),
        !consumed ==> *final(movement) == old(movement).after_key(key, state),
{
    let consumed = fractal.handle_keyboard_input(key, state);
    if !consumed {
        movement.handle_keyboard_input(key, state);
    }
    consumed
}

} // verus!
