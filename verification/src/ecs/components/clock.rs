use vstd::prelude::*;

verus! {

/// The game clock. It counts milliseconds: up towards zero while the next
/// game is pending (negative values), down towards zero while a game runs.
pub struct Clock {
    pub id: u8,
    pub remaining_ms: i32,
}

} // verus!
