use vstd::prelude::*;

use crate::input::{Key, KeyState};

verus! {

/// Iteration cap of the distance estimator at startup.
pub const DEFAULT_ITERATIONS: i32 = 8;

/// Ray-march step cap handed to the shading stage at startup.
pub const DEFAULT_MAX_RAY_MARCH_ITERATIONS: i32 = 150;

/// Exponent of the fractal map at startup, in hundredths (7.0).
pub const DEFAULT_POWER_HUNDREDTHS: i64 = 700;

/// The integer part of the fractal's configuration. The exponent is kept in
/// hundredths, so that each edit adds or removes exactly 0.01.
#[derive(Clone, Copy, Debug, PartialEq, Eq, Structural)]
pub struct FractalParams {
    pub iterations: i32,
    pub max_ray_march_iterations: i32,
    pub power_hundredths: i64,
}

/// Change of the exponent, in hundredths, that a key event asks for.
pub open spec fn power_step(key: Key, state: KeyState) -> int {
    match (key, state) {
        (Key::PowerUp, KeyState::Pressed) => 1,
        (Key::PowerDown, KeyState::Pressed) => -1,
        _ => 0,
    }
}

/// Whether the fractal controls take a key event for themselves: only the two
/// power keys going down.
pub open spec fn consumes(key: Key, state: KeyState) -> bool {
    state == KeyState::Pressed && (key == Key::PowerUp || key == Key::PowerDown)
}

/// Whether the exponent can move by one hundredth either way within `i64`.
pub open spec fn power_editable(p: i64) -> bool {
    i64::MIN < p < i64::MAX
}

impl FractalParams {
    pub open spec fn wf(&self) -> bool {
        self.iterations >= 0 && self.max_ray_march_iterations >= 0
    }

    /// The parameters after one key event.
    pub open spec fn after_key(self, key: Key, state: KeyState) -> FractalParams {
        FractalParams { power_hundredths: (self.power_hundredths + power_step(key, state)) as i64, ..self }
    }

    /// The parameters after `n` identical key events.
    pub open spec fn after_repeated_key(self, key: Key, state: KeyState, n: nat) -> FractalParams
        decreases n,
    {
        if n == 0 {
            self
        } else {
            self.after_repeated_key(key, state, (n - 1) as nat).after_key(key, state)
        }
    }

    /// The startup configuration: 8 iterations, 150 ray-march steps, power 7.0.
    pub fn new() -> (r: FractalParams)
        ensures
            r.wf(),
            r.iterations == DEFAULT_ITERATIONS,
            r.max_ray_march_iterations == DEFAULT_MAX_RAY_MARCH_ITERATIONS,
            r.power_hundredths == DEFAULT_POWER_HUNDREDTHS,
    {
        FractalParams {
            iterations: DEFAULT_ITERATIONS,
            max_ray_march_iterations: DEFAULT_MAX_RAY_MARCH_ITERATIONS,
            power_hundredths: DEFAULT_POWER_HUNDREDTHS,
        }
    }

    /// Adds `delta` hundredths to the exponent, without any bound of its own.
    pub fn set_power(&mut self, delta: i64)
        requires
            i64::MIN <= old(self).power_hundredths + delta <= i64::MAX,
        ensures
            final(self).power_hundredths == old(self).power_hundredths + delta,
            final(self).iterations == old(self).iterations,
            final(self).max_ray_march_iterations == old(self).max_ray_march_iterations,
    {
        self.power_hundredths = self.power_hundredths + delta;
    }

    /// Applies a key event: the power-up key adds 0.01 to the exponent and the
    /// power-down key removes 0.01 when pressed. Returns whether the event was
    /// consumed; releases never are.
    pub fn handle_keyboard_input(&mut self, key: Key, state: KeyState) -> (consumed: bool)
        requires
            power_editable(old(self).power_hundredths),
        ensures
            consumed == consumes(key, state),
            *final(self) == old(self).after_key(key, state),
            final(self).power_hundredths == old(self).power_hundredths + power_step(key, state),
    {
        match state {
            KeyState::Released => false,
            KeyState::Pressed => match key {
                Key::PowerDown => {
                    self.power_hundredths = self.power_hundredths - 1;
                    true
                },
                Key::PowerUp => {
                    self.power_hundredths = self.power_hundredths + 1;
                    true
                },
                _ => false,
            },
        }
    }
}

/// Power edits accumulate exactly: `n` presses of the power-up key add `n`
/// hundredths to the exponent, `n` presses of the power-down key remove `n`,
/// and nothing else about the parameters changes.
pub proof fn lemma_power_edits_accumulate(p: FractalParams, key: Key, n: nat)
    requires
        key == Key::PowerUp || key == Key::PowerDown,
        i64::MIN <= p.power_hundredths - n,
        p.power_hundredths + n <= i64::MAX,
    ensures
        p.after_repeated_key(key, KeyState::Pressed, n).power_hundredths
            == p.power_hundredths + n * power_step(key, KeyState::Pressed),
        p.after_repeated_key(key, KeyState::Pressed, n).iterations == p.iterations,
        p.after_repeated_key(key, KeyState::Pressed, n).max_ray_march_iterations
            == p.max_ray_march_iterations,
    decreases n,
{
    if n > 0 {
        lemma_power_edits_accumulate(p, key, (n - 1) as nat);
    }
}

/// Releasing a key, or pressing one that is not a power key, leaves the
/// parameters as they were.
pub proof fn lemma_unconsumed_events_are_inert(p: FractalParams, key: Key, state: KeyState)
    requires
        !consumes(key, state),
    ensures
        p.after_key(key, state) == p,
{
}

} // verus!
