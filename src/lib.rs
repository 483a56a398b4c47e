use vstd::prelude::*;

pub mod input;
pub mod movement;
pub mod fractal;
pub mod layout;
pub mod camera;

verus! {

} // verus!
