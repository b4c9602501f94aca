use vstd::prelude::*;

use crate::ecs::entities::GameState;

verus! {

/// The single game row: scores, the whole seconds shown to players, the
/// phase, and the most valuable player of the last finished game.
pub struct Game {
    pub id: u8,
    pub name: String,
    pub space_score: i32,
    pub time_score: i32,
    pub remaining: i8,
    pub state: GameState,
    pub mvp: String,
}

/// A game is running in exactly these phases.
pub open spec fn state_has_started(state: GameState) -> bool {
    state is GameStarted || state is SpaceScored || state is TimeScored
}

impl Game {
    pub open spec fn spec_has_started(&self) -> bool {
        state_has_started(self.state)
    }

    /// Whether a game is under way (started, possibly with a point just scored).
    pub fn has_started(&self) -> (started: bool)
        ensures
            started == self.spec_has_started(),
    {
        self.state == GameState::GameStarted || self.state == GameState::SpaceScored
            || self.state == GameState::TimeScored
    }
}

} // verus!
