use vstd::prelude::*;

verus! {

/// The points a player earned in the running game, counted in halves of a
/// point (a hit scored is worth one point, being hit costs half a point).
pub struct Stat {
    pub name: String,
    pub half_points: i32,
}

} // verus!
