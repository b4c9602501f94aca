use vstd::prelude::*;

verus! {

/// Advances the physics simulation and copies where movables went back
/// into their rows. All of it is measured in floating point and runs in
/// the caller, around the simulation.
pub struct MovementSystem;

} // verus!
