use vstd::prelude::*;

use crate::ecs::components::game::Game;
use crate::ecs::components::movable::Movable;
use crate::ecs::components::routable::Routable;
use crate::ecs::components::stat::Stat;
use crate::ecs::entities::{EntityKind, EntityState, GameState, RouteAction};

verus! {

/// Decides what happens when balls touch players, and keeps the score.
pub struct ScoringSystem;

/// How fast a ball met a player, relative to the player, as measured by
/// the simulation: slow enough to be caught for sure, fast enough to hit
/// for sure, or in between, where a draw (made by the caller) decided
/// whether the catch succeeds.
#[derive(PartialEq, Eq, Structural, Clone, Copy, Debug)]
pub enum ImpactSpeed {
    Catchable,
    Unstoppable,
    Uncertain { caught: bool },
}

/// Whether a ball that met a player is caught or hits.
#[derive(PartialEq, Eq, Structural, Clone, Copy, Debug)]
pub enum ImpactResult {
    Hit,
    Catch,
}

/// What the meeting of a ball and a player comes to.
#[derive(PartialEq, Eq, Structural, Clone, Copy, Debug)]
pub enum CollisionResponse {
    /// The player catches the ball (see `ScoringSystem::catch`).
    Catch,
    /// The ball hits the player and scores (see `ScoringSystem::score_hit`).
    Hit,
    /// The ball only pushes the player.
    Bump,
}

/// The balls that were caught or scored during one tick, by name; each
/// name is held once.
pub struct HandledBalls {
    names: Vec<String>,
}

pub open spec fn spec_impact_result(player_state: EntityState, speed: ImpactSpeed) -> ImpactResult {
    if player_state is Moving || player_state is ReadyToMove || player_state is Standby {
        match speed {
            ImpactSpeed::Catchable => ImpactResult::Catch,
            ImpactSpeed::Unstoppable => ImpactResult::Hit,
            ImpactSpeed::Uncertain { caught } => if caught {
                ImpactResult::Catch
            } else {
                ImpactResult::Hit
            },
        }
    } else {
        ImpactResult::Hit
    }
}

/// A ball is caught or scores at most once a tick; a ball that already
/// bounced off something cannot score; everything else is a bump.
pub open spec fn spec_collision_response(
    impact: ImpactResult,
    ball_was_handled: bool,
    ball_has_rebounded: bool,
) -> CollisionResponse {
    if impact is Catch && !ball_was_handled {
        CollisionResponse::Catch
    } else if impact is Hit && !ball_was_handled && !ball_has_rebounded {
        CollisionResponse::Hit
    } else {
        CollisionResponse::Bump
    }
}

/// The game after `player` was hit: a point for the other team, which is
/// shown as having scored.
pub open spec fn scored_game(game: Game, player_kind: EntityKind) -> Game {
    if player_kind is SpacePlayer {
        Game { time_score: (game.time_score + 1) as i32, state: GameState::TimeScored, ..game }
    } else {
        Game { space_score: (game.space_score + 1) as i32, state: GameState::SpaceScored, ..game }
    }
}

pub open spec fn clamp_points(x: int) -> i32 {
    if x > i32::MAX { i32::MAX } else if x < i32::MIN { i32::MIN } else { x as i32 }
}

impl View for HandledBalls {
    type V = Seq<Seq<char>>;

    closed spec fn view(&self) -> Seq<Seq<char>> {
        self.names@.map_values(|n: String| n@)
    }
}

impl HandledBalls {
    /// No ball is held twice.
    #[verifier::type_invariant]
    spec fn names_are_distinct(self) -> bool {
        self@.no_duplicates()
    }

    pub fn new() -> (r: HandledBalls)
        ensures
            r@ == Seq::<Seq<char>>::empty(),
    {
        let r = HandledBalls { names: Vec::new() };
        assert(r@ =~= Seq::<Seq<char>>::empty());
        r
    }

    pub fn contains(&self, name: &String) -> (r: bool)
        ensures
            r == self@.contains(name@),
    {
        let mut i: usize = 0;
        while i < self.names.len()
            invariant
                0 <= i <= self.names@.len(),
                forall|j: int| 0 <= j < i ==> self.names@[j]@ != name@,
            decreases self.names@.len() - i,
        {
            if self.names[i] == *name {
                assert(self@[i as int] == name@);
                return true;
            }
            i += 1;
        }
        assert forall|j: int| 0 <= j < self@.len() implies self@[j] != name@ by {
            assert(self@[j] == self.names@[j]@);
        }
        false
    }

    /// Adds `name`, unless it is already held.
    pub fn insert(&mut self, name: String)
        ensures
            final(self)@ == (if old(self)@.contains(name@) {
                old(self)@
            } else {
                old(self)@.push(name@)
            }),
            final(self)@.no_duplicates(),
    {
        proof {
            use_type_invariant(&*self);
        }
        if !self.contains(&name) {
            let ghost before = self@;
            let mut names: Vec<String> = Vec::new();
            std::mem::swap(&mut names, &mut self.names);
            assert(names@.map_values(|n: String| n@) == before);
            names.push(name);
            assert(names@.map_values(|n: String| n@) =~= before.push(name@));
            self.names = names;
        }
        proof {
            use_type_invariant(&*self);
        }
    }
}

impl ScoringSystem {
    /// Whether the ball is caught or hits. A player on the move (or standing
    /// by) catches a slow ball and is hit by a fast one; in between, the draw
    /// decides. A player doing anything else is always hit.
    pub fn determine_impact_result(player_state: EntityState, speed: ImpactSpeed) -> (r:
        ImpactResult)
        ensures
            r == spec_impact_result(player_state, speed),
    {
        match player_state {
            EntityState::Moving | EntityState::ReadyToMove | EntityState::Standby => {
                match speed {
                    ImpactSpeed::Catchable => ImpactResult::Catch,
                    ImpactSpeed::Unstoppable => ImpactResult::Hit,
                    ImpactSpeed::Uncertain { caught } => {
                        if caught {
                            ImpactResult::Catch
                        } else {
                            ImpactResult::Hit
                        }
                    },
                }
            },
            _ => ImpactResult::Hit,
        }
    }

    /// What the meeting of `ball_name` with a player comes to this tick. A
    /// catch or a hit marks the ball as handled for the rest of the tick.
    pub fn handle_ball_collision(
        handled_balls: &mut HandledBalls,
        ball_name: &String,
        player_state: EntityState,
        speed: ImpactSpeed,
        ball_has_rebounded: bool,
    ) -> (response: CollisionResponse)
        ensures
            response == spec_collision_response(
                spec_impact_result(player_state, speed),
                old(handled_balls)@.contains(ball_name@),
                ball_has_rebounded,
            ),
            response is Bump ==> final(handled_balls)@ == old(handled_balls)@,
            !(response is Bump) ==> final(handled_balls)@ == old(
                handled_balls,
            )@.push(ball_name@),
    {
        let ball_was_handled = handled_balls.contains(ball_name);
        let impact_result = Self::determine_impact_result(player_state, speed);
        match (impact_result, ball_was_handled, ball_has_rebounded) {
            (ImpactResult::Catch, false, _) => {
                handled_balls.insert(ball_name.clone());
                CollisionResponse::Catch
            },
            (ImpactResult::Hit, false, false) => {
                handled_balls.insert(ball_name.clone());
                CollisionResponse::Hit
            },
            _ => CollisionResponse::Bump,
        }
    }

    /// A caught ball: the player and the ball are both ready to throw.
    pub fn catch(player: &mut Movable, ball: &mut Movable)
        ensures
            *final(player) == (Movable { state: EntityState::ReadyToThrow, ..*old(player) }),
            *final(ball) == (Movable { state: EntityState::ReadyToThrow, ..*old(ball) }),
    {
        player.state = EntityState::ReadyToThrow;
        ball.state = EntityState::ReadyToThrow;
    }

    /// A ball hit `player`: the other team scores, the player is down, and
    /// the returned order keeps it down (replacing any order it had).
    pub fn score_hit(game: &mut Game, player: &mut Movable) -> (down: Routable)
        requires
            old(player).kind is SpacePlayer ==> old(game).time_score < i32::MAX,
            !(old(player).kind is SpacePlayer) ==> old(game).space_score < i32::MAX,
        ensures
            *final(game) == scored_game(*old(game), old(player).kind),
            *final(player) == (Movable { state: EntityState::Hit, ..*old(player) }),
            down.name@ == old(player).name@,
            down.counter == 0,
            down.action is Hit,
    {
        if player.kind == EntityKind::SpacePlayer {
            game.time_score += 1;
            game.state = GameState::TimeScored;
        } else {
            game.space_score += 1;
            game.state = GameState::SpaceScored;
        }
        player.state = EntityState::Hit;
        Routable { name: player.name.clone(), counter: 0, action: RouteAction::Hit }
    }

    /// The thrower of a scoring ball earns a point (two halves).
    pub fn score_point_for(stat: &mut Stat)
        ensures
            *final(stat) == (Stat { half_points: clamp_points(old(stat).half_points + 2), ..*old(stat) }),
    {
        stat.half_points = if stat.half_points > i32::MAX - 2 {
            i32::MAX
        } else {
            stat.half_points + 2
        };
    }

    /// A hit player loses half a point.
    pub fn detract_point_from(stat: &mut Stat)
        ensures
            *final(stat) == (Stat { half_points: clamp_points(old(stat).half_points - 1), ..*old(stat) }),
    {
        stat.half_points = if stat.half_points == i32::MIN {
            i32::MIN
        } else {
            stat.half_points - 1
        };
    }
}

/// A hit gives one point to the team of the thrower, never to the team of
/// the player hit: exactly one score goes up, by one.
pub proof fn lemma_hit_scores_for_the_other_team(game: Game, player_kind: EntityKind)
    requires
        player_kind.spec_is_player(),
        game.space_score < i32::MAX,
        game.time_score < i32::MAX,
    ensures
        ({
            let after = scored_game(game, player_kind);
            &&& player_kind is SpacePlayer ==> after.time_score == game.time_score + 1
                && after.space_score == game.space_score && after.state is TimeScored
            &&& player_kind is TimePlayer ==> after.space_score == game.space_score + 1
                && after.time_score == game.time_score && after.state is SpaceScored
            &&& after.space_score + after.time_score == game.space_score + game.time_score + 1
        }),
{
}

/// A ball is caught or scores at most once in a tick: once the meeting of a
/// ball with a player came to a catch or a hit, every later meeting of the
/// same ball in that tick is a bump.
pub proof fn lemma_ball_counts_once_per_tick(
    handled: Seq<Seq<char>>,
    ball: Seq<char>,
    first_impact: ImpactResult,
    first_rebounded: bool,
    later_impact: ImpactResult,
    later_rebounded: bool,
)
    ensures
        ({
            let first = spec_collision_response(first_impact, handled.contains(ball), first_rebounded);
            let handled_after = if first is Bump { handled } else { handled.push(ball) };
            !(first is Bump) ==> spec_collision_response(
                later_impact,
                handled_after.contains(ball),
                later_rebounded,
            ) is Bump
        }),
{
    let first = spec_collision_response(first_impact, handled.contains(ball), first_rebounded);
    if !(first is Bump) {
        assert(handled.push(ball)[handled.len() as int] == ball);
    }
}

pub open spec fn can_catch(state: EntityState) -> bool {
    state is Moving || state is ReadyToMove || state is Standby
}

/// A player who can catch (moving, ready to move or standing by) catches
/// every slow ball and is hit by every fast one, and which of those three
/// states it is in never matters; a player doing anything else is hit
/// whatever the ball. A ball not yet handled this tick is caught whenever
/// the impact is a catch, rebounded or not, and scores on a hit only if it
/// has not rebounded; a ball already handled only bumps.
pub proof fn lemma_catching_players_catch_slow_balls(
    state: EntityState,
    other: EntityState,
    speed: ImpactSpeed,
    rebounded: bool,
)
    ensures
        can_catch(state) ==> spec_impact_result(state, ImpactSpeed::Catchable) is Catch,
        spec_impact_result(state, ImpactSpeed::Unstoppable) is Hit,
        can_catch(state) && can_catch(other) ==> spec_impact_result(state, speed)
            == spec_impact_result(other, speed),
        can_catch(state) ==> spec_impact_result(state, ImpactSpeed::Uncertain { caught: true }) is Catch
            && spec_impact_result(state, ImpactSpeed::Uncertain { caught: false }) is Hit,
        !can_catch(state) ==> spec_impact_result(state, speed) is Hit,
        can_catch(state) ==> spec_collision_response(
            spec_impact_result(state, ImpactSpeed::Catchable),
            false,
            rebounded,
        ) is Catch,
        spec_collision_response(ImpactResult::Hit, false, false) is Hit,
        spec_collision_response(ImpactResult::Hit, false, true) is Bump,
        spec_collision_response(ImpactResult::Catch, false, rebounded) is Catch,
        spec_collision_response(spec_impact_result(state, speed), true, rebounded) is Bump,
{
}

} // verus!
