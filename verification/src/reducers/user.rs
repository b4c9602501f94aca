use vstd::prelude::*;

use crate::ecs::components::game::Game;
use crate::ecs::components::identifiable::{Identifiable, Identity};
use crate::ecs::components::movable::Movable;
use crate::ecs::entities::{EntityState, Side};
use crate::{is_space_user_name, space_user_names, MAX_SAY_LENGTH, PLAYER_SAY_WAIT_MICROS};

verus! {

/// How a player name came to belong to the client asking for it.
#[derive(PartialEq, Eq, Structural, Clone, Copy, Debug)]
pub enum Claim {
    /// The name was free and is now the client's: the row is to be stored.
    Claimed,
    /// The name was the client's already.
    AlreadyMine,
}

/// The name belongs to another client.
#[derive(PartialEq, Eq, Structural, Clone, Copy, Debug)]
pub struct ClaimRefused;

/// Why a player may not say something now.
#[derive(PartialEq, Eq, Structural, Clone, Copy, Debug)]
pub enum SayRefused {
    /// Too soon after the last time: this many microseconds are left.
    TooSoon { remaining_micros: i64 },
    /// The time since the last time cannot be told (it lies in the future,
    /// or does not fit).
    UnknownElapsed,
}

/// A client asks for a player name held by `current`: a free name (held by
/// the zero identity) becomes the client's, the client's own name is
/// granted again, anybody else's is refused. Gives the answer and who holds
/// the name afterwards.
pub open spec fn spec_claim(current: Identity, sender: Identity) -> (Result<Claim, ClaimRefused>, Identity) {
    if current == Identity::spec_zero() {
        (Ok(Claim::Claimed), sender)
    } else if current == sender {
        (Ok(Claim::AlreadyMine), current)
    } else {
        (Err(ClaimRefused), current)
    }
}

/// A client asks for the player name of `identifiable` (see `spec_claim`).
pub fn ensure_user_name_belongs_to_me(identifiable: &mut Identifiable, sender: Identity) -> (r:
    Result<Claim, ClaimRefused>)
    ensures
        (r, final(identifiable).identity) == spec_claim(old(identifiable).identity, sender),
        final(identifiable).name == old(identifiable).name,
        final(identifiable).kind == old(identifiable).kind,
{
    if identifiable.identity == Identity::zero() {
        identifiable.identity = sender;
        Ok(Claim::Claimed)
    } else if identifiable.identity == sender {
        Ok(Claim::AlreadyMine)
    } else {
        Err(ClaimRefused)
    }
}

/// A name, once claimed, stays with its client: the client is granted it
/// again, any other client is refused, until the identity is cleared.
pub proof fn lemma_claimed_name_stays_claimed(owner: Identity, other: Identity, current: Identity)
    requires
        owner != Identity::spec_zero(),
        other != owner,
    ensures
        spec_claim(current, owner).0 is Ok ==> ({
            let held = spec_claim(current, owner).1;
            &&& held == owner
            &&& spec_claim(held, owner) == (Ok::<Claim, ClaimRefused>(Claim::AlreadyMine), owner)
            &&& spec_claim(held, other) == (Err::<Claim, ClaimRefused>(ClaimRefused), owner)
        }),
{
}

/// The side a player name plays on: the Space team's names play in space,
/// every other name in time.
pub fn side_of_player_name(name: &str) -> (side: Side)
    ensures
        side == (if space_user_names().contains(name@) { Side::Space } else { Side::Time }),
{
    if is_space_user_name(name) {
        Side::Space
    } else {
        Side::Time
    }
}

/// What a player says fits in `MAX_SAY_LENGTH` bytes.
pub fn ensure_not_too_long(text: &str) -> (r: Result<(), String>)
    ensures
        r is Ok <==> text.len() <= MAX_SAY_LENGTH,
        r is Err ==> r->Err_0@ == "Text is too long. Max is 12 characters."@,
{
    if text.len() <= MAX_SAY_LENGTH {
        Ok(())
    } else {
        Err(String::from_str("Text is too long. Max is 12 characters."))
    }
}

/// A player says something at most once per `PLAYER_SAY_WAIT_MICROS`:
/// strictly more than that must have passed between `previous_micros` and
/// `current_micros` (both in microseconds since the epoch).
pub fn ensure_not_spamming(current_micros: i64, previous_micros: i64) -> (r: Result<(), SayRefused>)
    ensures
        ({
            let elapsed = current_micros - previous_micros;
            &&& (elapsed < 0 || elapsed > i64::MAX || elapsed < i64::MIN) ==> r == Err::<
                (),
                SayRefused,
            >(SayRefused::UnknownElapsed)
            &&& 0 <= elapsed <= i64::MAX ==> if elapsed > PLAYER_SAY_WAIT_MICROS {
                r is Ok
            } else {
                r == Err::<(), SayRefused>(
                    SayRefused::TooSoon {
                        remaining_micros: (PLAYER_SAY_WAIT_MICROS - elapsed) as i64,
                    },
                )
            }
        }),
{
    match current_micros.checked_sub(previous_micros) {
        Some(elapsed) => {
            if elapsed < 0 {
                Err(SayRefused::UnknownElapsed)
            } else if elapsed > PLAYER_SAY_WAIT_MICROS {
                Ok(())
            } else {
                Err(SayRefused::TooSoon { remaining_micros: PLAYER_SAY_WAIT_MICROS - elapsed })
            }
        },
        None => Err(SayRefused::UnknownElapsed),
    }
}

/// A player may be sent somewhere when it is ready to move, or when it is
/// still coming in and players do not start with a ball. Otherwise the
/// error gives the state to report (a player coming in with a ball counts
/// as ready to throw).
pub fn ensure_can_move(movable: &Movable, spawn_with_ball: bool) -> (r: Result<(), EntityState>)
    ensures
        r is Ok <==> movable.spec_is_player(EntityState::ReadyToMove) || (movable.spec_is_player(
            EntityState::Spawning,
        ) && !spawn_with_ball),
        r is Err ==> r->Err_0 == (if movable.state is Spawning {
            EntityState::ReadyToThrow
        } else {
            movable.state
        }),
{
    if movable.is_player(EntityState::ReadyToMove) || (movable.is_player(EntityState::Spawning)
        && !spawn_with_ball) {
        Ok(())
    } else if movable.state == EntityState::Spawning {
        Err(EntityState::ReadyToThrow)
    } else {
        Err(movable.state)
    }
}

/// A player may throw when it is ready to throw, or when it is still
/// coming in and players start with a ball. Otherwise the error gives the
/// state to report (a player coming in without a ball counts as ready to
/// move).
pub fn ensure_can_throw(movable: &Movable, spawn_with_ball: bool) -> (r: Result<(), EntityState>)
    ensures
        r is Ok <==> movable.spec_is_player(EntityState::ReadyToThrow) || (movable.spec_is_player(
            EntityState::Spawning,
        ) && spawn_with_ball),
        r is Err ==> r->Err_0 == (if movable.state is Spawning {
            EntityState::ReadyToMove
        } else {
            movable.state
        }),
{
    if movable.is_player(EntityState::ReadyToThrow) || (movable.is_player(EntityState::Spawning)
        && spawn_with_ball) {
        Ok(())
    } else if movable.state == EntityState::Spawning {
        Err(EntityState::ReadyToMove)
    } else {
        Err(movable.state)
    }
}

/// Orders are taken only while a game runs.
pub fn ensure_game_has_started(game: Option<&Game>) -> (r: Result<(), String>)
    ensures
        r is Ok <==> (game matches Some(g) && g.spec_has_started()),
        r is Err ==> r->Err_0@ == "Game has not started yet"@,
{
    match game {
        Some(g) => {
            if g.has_started() {
                Ok(())
            } else {
                Err(String::from_str("Game has not started yet"))
            }
        },
        None => Err(String::from_str("Game has not started yet")),
    }
}

} // verus!
