use vstd::prelude::*;

use crate::ecs::entities::{EntityKind, EntityState};

verus! {

/// A player or a ball, as far as the rules look at it: its name, what it
/// is and the state it is in. Where it is and how fast it goes belongs to
/// the physics simulation of the caller.
pub struct Movable {
    pub name: String,
    pub kind: EntityKind,
    pub state: EntityState,
}

/// The states in which a ball that touches a player can hit or be caught.
pub open spec fn state_can_be_hit(state: EntityState) -> bool {
    state is Moving || state is ReadyToMove || state is ReadyToThrow || state is Throwing
}

impl Movable {
    pub open spec fn spec_is_player(&self, entity_state: EntityState) -> bool {
        self.kind.spec_is_player() && self.state == entity_state
    }

    /// A player (of either team) in the given state.
    pub fn is_player(&self, entity_state: EntityState) -> (r: bool)
        ensures
            r == self.spec_is_player(entity_state),
    {
        (self.kind == EntityKind::SpacePlayer || self.kind == EntityKind::TimePlayer)
            && self.state == entity_state
    }

    /// Whether a ball touching this entity counts (catch or hit).
    pub fn can_be_hit(&self) -> (r: bool)
        ensures
            r == state_can_be_hit(self.state),
    {
        self.state == EntityState::Moving || self.state == EntityState::ReadyToMove
            || self.state == EntityState::ReadyToThrow || self.state == EntityState::Throwing
    }
}

} // verus!
