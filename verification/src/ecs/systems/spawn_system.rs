use vstd::prelude::*;

use crate::ecs::components::game::Game;
use crate::ecs::components::movable::Movable;
use crate::ecs::entities::{EntityKind, EntityState, GameState, Side};

verus! {

/// Brings movables into the simulation and out of it, and lays out the
/// field for a new match.
pub struct SpawnSystem;

/// What to do with a movable at the start of a tick.
#[derive(PartialEq, Eq, Structural, Clone, Copy, Debug)]
pub enum SpawnAction {
    /// Put the player on the field (see `SpawnSystem::reset_player`).
    SpawnPlayer,
    /// Put the ball into the simulation (see `SpawnSystem::spawn_ball`).
    SpawnBall,
    /// Take the player out, with its pending order.
    DespawnPlayer,
    /// Take the ball out.
    DespawnBall,
    /// Leave it alone.
    Nothing,
}

/// What happens to the entity that was joined to a movable taken out.
#[derive(PartialEq, Eq, Structural, Clone, Copy, Debug)]
pub enum RelatedAction {
    /// A player that held the ball: it is ready to move again.
    Release,
    /// A ball held by the player: it goes too.
    RemoveBall,
    /// Anything else stays as it is.
    Keep,
}

/// What a new match does with one movable.
#[derive(PartialEq, Eq, Structural, Clone, Copy, Debug)]
pub enum MatchSetup {
    /// A ball is taken out.
    DespawnBall,
    /// A player is put back at the given place of its side (see
    /// `SpawnSystem::reset_player`), and a ball is added on its side.
    PlacePlayer { side: Side, slot: usize },
}

pub open spec fn spec_spawn_action(m: Movable) -> SpawnAction {
    if m.state is Spawning {
        if m.kind is Ball { SpawnAction::SpawnBall } else { SpawnAction::SpawnPlayer }
    } else if m.state is Despawning {
        if m.kind is Ball { SpawnAction::DespawnBall } else { SpawnAction::DespawnPlayer }
    } else {
        SpawnAction::Nothing
    }
}

/// The state of a player put (back) on the field: standing by until a game
/// runs, then ready to throw when players start with a ball, else ready to move.
pub open spec fn spec_reset_state(game_started: bool, spawn_with_ball: bool) -> EntityState {
    if !game_started {
        EntityState::Standby
    } else if spawn_with_ball {
        EntityState::ReadyToThrow
    } else {
        EntityState::ReadyToMove
    }
}

pub open spec fn spec_related_action(related: Movable) -> RelatedAction {
    if related.spec_is_player(EntityState::ReadyToThrow) {
        RelatedAction::Release
    } else if related.kind is Ball {
        RelatedAction::RemoveBall
    } else {
        RelatedAction::Keep
    }
}

/// The number of movables of `kind` among the first `n` of `movables`.
pub open spec fn count_kind(movables: Seq<Movable>, kind: EntityKind, n: int) -> nat
    decreases n,
{
    if n <= 0 {
        0
    } else {
        count_kind(movables, kind, n - 1) + if movables[n - 1].kind == kind { 1nat } else { 0nat }
    }
}

/// How a new match lays out one movable: balls go, players take the next
/// place of their side, in the order they come.
pub open spec fn spec_match_setup(movables: Seq<Movable>, i: int) -> MatchSetup {
    let m = movables[i];
    if m.kind is Ball {
        MatchSetup::DespawnBall
    } else if m.kind is SpacePlayer {
        MatchSetup::PlacePlayer { side: Side::Space, slot: count_kind(movables, m.kind, i) as usize }
    } else {
        MatchSetup::PlacePlayer { side: Side::Time, slot: count_kind(movables, m.kind, i) as usize }
    }
}

impl SpawnSystem {
    /// Spawning movables come in, despawning ones go out.
    pub fn spawn_action(movable: &Movable) -> (action: SpawnAction)
        ensures
            action == spec_spawn_action(*movable),
    {
        match movable.state {
            EntityState::Spawning => {
                match movable.kind {
                    EntityKind::SpacePlayer | EntityKind::TimePlayer => SpawnAction::SpawnPlayer,
                    EntityKind::Ball => SpawnAction::SpawnBall,
                }
            },
            EntityState::Despawning => {
                match movable.kind {
                    EntityKind::SpacePlayer | EntityKind::TimePlayer => SpawnAction::DespawnPlayer,
                    EntityKind::Ball => SpawnAction::DespawnBall,
                }
            },
            _ => SpawnAction::Nothing,
        }
    }

    /// A ball put into the simulation is moving.
    pub fn spawn_ball(ball: &mut Movable)
        ensures
            *final(ball) == (Movable { state: EntityState::Moving, ..*old(ball) }),
    {
        ball.state = EntityState::Moving;
    }

    /// Puts a player (back) on the field for `game`; returns whether the
    /// player starts with a ball in hand, which the caller then creates.
    pub fn reset_player(player: &mut Movable, game: &Game, spawn_with_ball: bool) -> (with_ball: bool)
        ensures
            *final(player) == (Movable {
                state: spec_reset_state(game.spec_has_started(), spawn_with_ball),
                ..*old(player)
            }),
            with_ball == (final(player).state is ReadyToThrow),
    {
        let state = match (game.has_started(), spawn_with_ball) {
            (false, _) => EntityState::Standby,
            (true, true) => EntityState::ReadyToThrow,
            (true, false) => EntityState::ReadyToMove,
        };
        player.state = state;
        state == EntityState::ReadyToThrow
    }

    /// What becomes of the entity joined to a movable that was taken out.
    pub fn related_entity_action(related: &Movable) -> (action: RelatedAction)
        ensures
            action == spec_related_action(*related),
    {
        if related.is_player(EntityState::ReadyToThrow) {
            RelatedAction::Release
        } else if related.kind == EntityKind::Ball {
            RelatedAction::RemoveBall
        } else {
            RelatedAction::Keep
        }
    }

    /// A released player is ready to move.
    pub fn release(player: &mut Movable)
        ensures
            *final(player) == (Movable { state: EntityState::ReadyToMove, ..*old(player) }),
    {
        player.state = EntityState::ReadyToMove;
    }

    /// When the game is in `Reset`, lays out a new match: one entry per
    /// movable, in order, and the game goes back to `Waiting`. Otherwise
    /// nothing happens (`None`).
    pub fn reset_movables_for_new_match_if_needed(game: &mut Game, movables: &Vec<Movable>) -> (plan:
        Option<Vec<MatchSetup>>)
        ensures
            !(old(game).state is Reset) ==> plan is None && *final(game) == *old(game),
            old(game).state is Reset ==> {
                &&& plan is Some
                &&& *final(game) == (Game { state: GameState::Waiting, ..*old(game) })
                &&& plan->0@.len() == movables@.len()
                &&& forall|i: int|
                    0 <= i < movables@.len() ==> #[trigger] plan->0@[i] == spec_match_setup(
                        movables@,
                        i,
                    )
            },
    {
        if game.state != GameState::Reset {
            return None;
        }
        let mut plan: Vec<MatchSetup> = Vec::new();
        let mut space_player_count: usize = 0;
        let mut time_player_count: usize = 0;
        let mut i: usize = 0;
        while i < movables.len()
            invariant
                0 <= i <= movables@.len(),
                plan@.len() == i,
                space_player_count == count_kind(movables@, EntityKind::SpacePlayer, i as int),
                time_player_count == count_kind(movables@, EntityKind::TimePlayer, i as int),
                forall|j: int| 0 <= j < i ==> #[trigger] plan@[j] == spec_match_setup(movables@, j),
            decreases movables@.len() - i,
        {
            proof {
                lemma_count_kind_bounded(movables@, EntityKind::SpacePlayer, i as int);
                lemma_count_kind_bounded(movables@, EntityKind::TimePlayer, i as int);
            }
            match movables[i].kind {
                EntityKind::Ball => {
                    plan.push(MatchSetup::DespawnBall);
                },
                EntityKind::SpacePlayer => {
                    plan.push(MatchSetup::PlacePlayer { side: Side::Space, slot: space_player_count });
                    space_player_count += 1;
                },
                EntityKind::TimePlayer => {
                    plan.push(MatchSetup::PlacePlayer { side: Side::Time, slot: time_player_count });
                    time_player_count += 1;
                },
            }
            i += 1;
        }
        game.state = GameState::Waiting;
        Some(plan)
    }
}

/// Among `n` movables there are at most `n` of any kind.
pub proof fn lemma_count_kind_bounded(movables: Seq<Movable>, kind: EntityKind, n: int)
    requires
        0 <= n,
    ensures
        count_kind(movables, kind, n) <= n,
    decreases n,
{
    if n > 0 {
        lemma_count_kind_bounded(movables, kind, n - 1);
    }
}

proof fn lemma_count_kind_grows(movables: Seq<Movable>, kind: EntityKind, i: int, j: int)
    requires
        0 <= i < j <= movables.len(),
        movables[i].kind == kind,
    ensures
        count_kind(movables, kind, i) < count_kind(movables, kind, j),
    decreases j - i,
{
    if j > i + 1 {
        lemma_count_kind_grows(movables, kind, i, j - 1);
    }
}

/// A new match gives the players of each side the places 0, 1, 2, ... in
/// the order they come: two players of the same side never share a place,
/// and every place is below the number of players of that side.
pub proof fn lemma_match_places_are_distinct(movables: Seq<Movable>, i: int, j: int)
    requires
        0 <= i < j < movables.len() <= usize::MAX,
        movables[i].kind == movables[j].kind,
        movables[i].kind.spec_is_player(),
    ensures
        spec_match_setup(movables, i) matches MatchSetup::PlacePlayer { side: side_i, slot: slot_i }
            && spec_match_setup(movables, j) matches MatchSetup::PlacePlayer {
            side: side_j,
            slot: slot_j,
        } && side_i == side_j && slot_i < slot_j && slot_j < count_kind(
            movables,
            movables[j].kind,
            movables.len() as int,
        ),
{
    let kind = movables[i].kind;
    lemma_count_kind_grows(movables, kind, i, j);
    lemma_count_kind_grows(movables, kind, j, movables.len() as int);
    lemma_count_kind_bounded(movables, kind, j);
    lemma_count_kind_bounded(movables, kind, i);
}

/// A despawning movable is always taken out and a spawning one always
/// brought in, whatever its team: a player of either side by the player
/// action, a ball by the ball action. Everything else is left alone.
pub proof fn lemma_despawning_movables_are_taken_out(m: Movable, other: Movable)
    ensures
        m.state is Despawning && !(m.kind is Ball) ==> spec_spawn_action(m) is DespawnPlayer,
        m.state is Despawning && m.kind is Ball ==> spec_spawn_action(m) is DespawnBall,
        m.state is Spawning && !(m.kind is Ball) ==> spec_spawn_action(m) is SpawnPlayer,
        m.state is Spawning && m.kind is Ball ==> spec_spawn_action(m) is SpawnBall,
        !(m.state is Spawning || m.state is Despawning) ==> spec_spawn_action(m) is Nothing,
        m.state == other.state && !(m.kind is Ball) && !(other.kind is Ball) ==> spec_spawn_action(m)
            == spec_spawn_action(other),
{
}

/// A player put on the field while no game runs stands by, whether or not
/// players start with a ball; once a game runs it is never left standing
/// by, and it holds a ball exactly when players start with one.
pub proof fn lemma_players_stand_by_until_a_game_runs(game: Game, spawn_with_ball: bool)
    ensures
        !game.spec_has_started() ==> spec_reset_state(game.spec_has_started(), spawn_with_ball) is Standby,
        game.spec_has_started() ==> !(spec_reset_state(game.spec_has_started(), spawn_with_ball) is Standby),
        game.spec_has_started() ==> (spec_reset_state(game.spec_has_started(), spawn_with_ball) is ReadyToThrow
            <==> spawn_with_ball),
        game.spec_has_started() && !spawn_with_ball ==> spec_reset_state(game.spec_has_started(), spawn_with_ball) is ReadyToMove,
{
}

} // verus!
