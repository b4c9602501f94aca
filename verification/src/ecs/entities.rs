use vstd::prelude::*;

verus! {

/// What a movable entity is.
#[derive(PartialEq, Eq, Structural, Clone, Copy, Debug)]
pub enum EntityKind {
    SpacePlayer,
    TimePlayer,
    Ball,
}

/// The phases a game goes through.
#[derive(PartialEq, Eq, Structural, Clone, Copy, Debug)]
pub enum GameState {
    Waiting,
    Reset,
    GameStarted,
    SpaceScored,
    TimeScored,
    GameEndedInSpaceWin,
    GameEndedInTimeWin,
    GameEndedInTie,
}

/// The life states of a movable entity (player or ball).
#[derive(PartialEq, Eq, Structural, Clone, Copy, Debug)]
pub enum EntityState {
    Spawning,
    ReadyToMove,
    Moving,
    ReadyToThrow,
    Throwing,
    Hit,
    LostGame,
    WonGame,
    Standby,
    Despawning,
}

/// What a pending order of a player is about.
#[derive(PartialEq, Eq, Structural, Clone, Copy, Debug)]
pub enum RouteAction {
    Move,
    Throw,
    Hit,
}

/// The two halves of the field, one per team.
#[derive(PartialEq, Eq, Structural, Clone, Copy, Debug)]
pub enum Side {
    Space,
    Time,
}

impl EntityKind {
    /// Players are the entities of the two teams; everything else is a ball.
    pub open spec fn spec_is_player(self) -> bool {
        self is SpacePlayer || self is TimePlayer
    }
}

} // verus!
