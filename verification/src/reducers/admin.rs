use vstd::prelude::*;

use crate::ecs::components::clock::Clock;
use crate::ecs::components::game::Game;
use crate::ecs::components::movable::Movable;
use crate::ecs::entities::{EntityKind, EntityState, GameState};

verus! {

/// The most balls one request may add per side.
pub const MAX_BALLS_PER_REQUEST: u8 = 30;

/// A game lasts between 1 and 99 seconds.
pub fn ensure_has_acceptable_duration(duration: u8) -> (r: Result<(), String>)
    ensures
        r is Ok <==> 1 <= duration <= 99,
        r is Err ==> r->Err_0@ == "Duration must be between 1 and 99"@,
{
    if duration == 0 || duration > 99 {
        Err(String::from_str("Duration must be between 1 and 99"))
    } else {
        Ok(())
    }
}

/// Puts the game back to its beginning with `time` seconds on the clock:
/// running when `time` is positive, waiting otherwise, scores and most
/// valuable player cleared.
pub fn reset_game(game: &mut Game, clock: &mut Clock, time: i8)
    ensures
        final(game).id == old(game).id,
        final(game).name == old(game).name,
        final(game).state == (if time > 0 { GameState::GameStarted } else { GameState::Waiting }),
        final(game).remaining == time,
        final(game).space_score == 0,
        final(game).time_score == 0,
        final(game).mvp@ == Seq::<char>::empty(),
        *final(clock) == (Clock { remaining_ms: (time * 1000) as i32, ..*old(clock) }),
{
    game.state = if time > 0 { GameState::GameStarted } else { GameState::Waiting };
    game.remaining = time;
    game.space_score = 0;
    game.time_score = 0;
    game.mvp = String::new();
    clock.remaining_ms = time as i32 * 1000;
}

/// The number of balls a request for `count` balls on one side adds.
pub fn side_ball_count(count: u8) -> (n: u8)
    ensures
        n == if count < MAX_BALLS_PER_REQUEST { count } else { MAX_BALLS_PER_REQUEST },
{
    if count < MAX_BALLS_PER_REQUEST { count } else { MAX_BALLS_PER_REQUEST }
}

/// The number of balls a request for `count` balls on each side adds: at
/// least one, at most `MAX_BALLS_PER_REQUEST`.
pub fn all_sides_ball_count(count: u8) -> (n: u8)
    ensures
        n == if count < 1 { 1 } else if count > MAX_BALLS_PER_REQUEST { MAX_BALLS_PER_REQUEST } else { count },
{
    let at_least_one = if count < 1 { 1 } else { count };
    if at_least_one < MAX_BALLS_PER_REQUEST { at_least_one } else { MAX_BALLS_PER_REQUEST }
}

/// A kicked player (like a disconnected one) leaves the field.
pub fn kick(movable: &mut Movable)
    ensures
        *final(movable) == (Movable { state: EntityState::Despawning, ..*old(movable) }),
{
    movable.state = EntityState::Despawning;
}

/// Every ball leaves the field; returns the positions of the balls, whose
/// rows changed.
pub fn remove_all_balls(movables: &mut Vec<Movable>) -> (changed: Vec<usize>)
    ensures
        final(movables)@.len() == old(movables)@.len(),
        forall|i: int|
            0 <= i < old(movables)@.len() ==> #[trigger] final(movables)@[i] == if old(
                movables,
            )@[i].kind is Ball {
                Movable { state: EntityState::Despawning, ..old(movables)@[i] }
            } else {
                old(movables)@[i]
            },
        forall|k: int| 0 <= k < changed@.len() ==> old(movables)@[#[trigger] changed@[k] as int].kind is Ball,
        forall|k: int, l: int| 0 <= k < l < changed@.len() ==> changed@[k] < changed@[l],
        forall|i: int|
            0 <= i < old(movables)@.len() && #[trigger] old(movables)@[i].kind is Ball ==> changed@.contains(
                i as usize,
            ),
{
    let ghost before = movables@;
    let mut changed: Vec<usize> = Vec::new();
    let mut i: usize = 0;
    while i < movables.len()
        invariant
            0 <= i <= movables@.len(),
            movables@.len() == before.len(),
            forall|j: int|
                0 <= j < i ==> #[trigger] movables@[j] == if before[j].kind is Ball {
                    Movable { state: EntityState::Despawning, ..before[j] }
                } else {
                    before[j]
                },
            forall|j: int| i <= j < movables@.len() ==> movables@[j] == before[j],
            forall|k: int| 0 <= k < changed@.len() ==> before[#[trigger] changed@[k] as int].kind is Ball
                && changed@[k] < i,
            forall|k: int, l: int| 0 <= k < l < changed@.len() ==> changed@[k] < changed@[l],
            forall|j: int| 0 <= j < i && #[trigger] before[j].kind is Ball ==> changed@.contains(j as usize),
        decreases movables@.len() - i,
    {
        let ghost changed_before = changed@;
        if movables[i].kind == EntityKind::Ball {
            movables[i].state = EntityState::Despawning;
            changed.push(i);
            assert(changed@[changed@.len() - 1] == i);
        }
        assert forall|j: int| 0 <= j < i + 1 && #[trigger] before[j].kind is Ball implies changed@.contains(
            j as usize,
        ) by {
            if j < i {
                let k = choose|k: int| 0 <= k < changed_before.len() && changed_before[k] == j as usize;
                assert(changed@[k] == j as usize);
            } else {
                assert(changed@[changed@.len() - 1] == i);
            }
        }
        i += 1;
    }
    changed
}

} // verus!
