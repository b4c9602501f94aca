use vstd::prelude::*;

use crate::ecs::entities::EntityKind;

verus! {

/// The identity of a connected client, as its 256 bits in two halves.
#[derive(PartialEq, Eq, Structural, Clone, Copy, Debug)]
pub struct Identity {
    pub high: u128,
    pub low: u128,
}

impl Identity {
    /// The identity that nobody has: a player name with it is free.
    pub open spec fn spec_zero() -> Identity {
        Identity { high: 0, low: 0 }
    }

    pub fn zero() -> (id: Identity)
        ensures
            id == Identity::spec_zero(),
    {
        Identity { high: 0, low: 0 }
    }
}

/// A player name and the client that has claimed it.
pub struct Identifiable {
    pub name: String,
    pub kind: EntityKind,
    pub identity: Identity,
}

} // verus!
