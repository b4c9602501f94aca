use vstd::prelude::*;

use crate::ecs::components::movable::Movable;
use crate::ecs::components::routable::Routable;
use crate::ecs::entities::{EntityState, RouteAction};
use crate::{PLAYER_HIT_COUNTER, PLAYER_STALL_COUNTER, PLAYER_THROW_COUNTER};

verus! {

/// Carries out the pending orders of players: moves, throws, and the time a
/// hit player stays down.
pub struct RoutingSystem;

/// What the simulation is asked to do with a player that has a move order.
#[derive(PartialEq, Eq, Structural, Clone, Copy, Debug)]
pub enum MoveCommand {
    /// Set its velocity towards the destination; once done, the player is
    /// followed for stalling this tick.
    Steer,
    /// Stop it; once done, the order is dropped.
    Halt,
    /// Stop it; once done, the order is dropped and the stored velocity of
    /// the player is cleared.
    HaltAndClear,
    /// Nothing to ask: the order is dropped right away.
    Drop,
}

/// The outcome of a move order this tick.
#[derive(PartialEq, Eq, Structural, Clone, Copy, Debug)]
pub struct PlayerRoute {
    pub command: MoveCommand,
    /// The player's state changed and is to be stored.
    pub player_changed: bool,
}

/// The outcome of a throw order this tick.
#[derive(PartialEq, Eq, Structural, Clone, Copy, Debug)]
pub enum BallRoute {
    /// Give the player the upward push that starts a throw; once done, call
    /// `RoutingSystem::start_throwing` and store the player.
    Lift,
    /// Still winding up: store the order with its counter.
    WindUp,
    /// Let the ball go towards the destination: the order is dropped and the
    /// player, ready to move again, is stored.
    Release,
    /// The order does not apply: it is dropped.
    Drop,
}

/// The outcome of the order that keeps a hit player down.
#[derive(PartialEq, Eq, Structural, Clone, Copy, Debug)]
pub enum HitRoute {
    /// Still down: store the order with its counter.
    StayDown,
    /// Up again: the order is dropped and the player, ready to move, stored.
    GetUp,
}

/// A player with a move order, this tick: `heading` tells whether the
/// player is not yet within reach of the destination.
pub open spec fn spec_route_player(counter: u8, state: EntityState, heading: bool) -> (
    MoveCommand,
    EntityState,
) {
    if state is Moving || state is ReadyToMove {
        if heading && counter < PLAYER_STALL_COUNTER {
            (MoveCommand::Steer, EntityState::Moving)
        } else {
            (MoveCommand::Halt, EntityState::ReadyToMove)
        }
    } else if state is Hit {
        (MoveCommand::Drop, state)
    } else {
        (MoveCommand::HaltAndClear, state)
    }
}

/// One tick of the order that keeps a hit player down.
pub open spec fn spec_route_hit(counter: u8) -> (HitRoute, u8) {
    if counter >= PLAYER_HIT_COUNTER {
        (HitRoute::GetUp, counter)
    } else {
        (HitRoute::StayDown, (counter + 1) as u8)
    }
}

/// One tick of a throw order of a throwing player.
pub open spec fn spec_wind_up(counter: u8) -> (BallRoute, u8) {
    let next = (counter + 1) as u8;
    if next >= PLAYER_THROW_COUNTER {
        (BallRoute::Release, next)
    } else {
        (BallRoute::WindUp, next)
    }
}

impl RoutingSystem {
    /// Decides a move order for `player`, and sets its state. A player on
    /// its way keeps moving unless it stalled for `PLAYER_STALL_COUNTER`
    /// ticks; one that arrived or stalled stops and is ready to move again;
    /// a hit player loses the order; any other player is stopped.
    pub fn route_player(routable: &Routable, player: &mut Movable, heading: bool) -> (route:
        PlayerRoute)
        ensures
            ({
                let (command, state) = spec_route_player(
                    routable.counter,
                    old(player).state,
                    heading,
                );
                &&& route.command == command
                &&& *final(player) == (Movable { state, ..*old(player) })
                &&& route.player_changed == ((old(player).state is Moving
                    || old(player).state is ReadyToMove) && (old(player).state is ReadyToMove
                    || command is Halt))
            }),
    {
        match player.state {
            EntityState::Moving | EntityState::ReadyToMove => {
                let mut player_changed = false;
                if player.state == EntityState::ReadyToMove {
                    player.state = EntityState::Moving;
                    player_changed = true;
                }
                if heading && routable.counter < PLAYER_STALL_COUNTER {
                    PlayerRoute { command: MoveCommand::Steer, player_changed }
                } else {
                    player.state = EntityState::ReadyToMove;
                    PlayerRoute { command: MoveCommand::Halt, player_changed: true }
                }
            },
            EntityState::Hit => PlayerRoute { command: MoveCommand::Drop, player_changed: false },
            _ => PlayerRoute { command: MoveCommand::HaltAndClear, player_changed: false },
        }
    }

    /// Decides a throw order. A player ready to throw is lifted; a throwing
    /// player winds up for `PLAYER_THROW_COUNTER` ticks and then lets the
    /// ball go; any other player loses the order.
    pub fn route_ball(routable: &mut Routable, player: &mut Movable) -> (route: BallRoute)
        requires
            old(player).state is Throwing ==> old(routable).counter < u8::MAX,
        ensures
            old(player).state is ReadyToThrow ==> route is Lift && *final(routable) == *old(routable)
                && *final(player) == *old(player),
            old(player).state is Throwing ==> (route, final(routable).counter) == spec_wind_up(
                old(routable).counter,
            ),
            old(player).state is Throwing ==> {
                let counter = (old(routable).counter + 1) as u8;
                &&& *final(routable) == (Routable { counter, ..*old(routable) })
                &&& if counter >= PLAYER_THROW_COUNTER {
                    route is Release && *final(player) == (Movable {
                        state: EntityState::ReadyToMove,
                        ..*old(player)
                    })
                } else {
                    route is WindUp && *final(player) == *old(player)
                }
            },
            !(old(player).state is ReadyToThrow) && !(old(player).state is Throwing) ==> route is Drop
                && *final(routable) == *old(routable) && *final(player) == *old(player),
    {
        match player.state {
            EntityState::ReadyToThrow => BallRoute::Lift,
            EntityState::Throwing => {
                routable.counter = routable.counter + 1;
                if routable.counter >= PLAYER_THROW_COUNTER {
                    player.state = EntityState::ReadyToMove;
                    BallRoute::Release
                } else {
                    BallRoute::WindUp
                }
            },
            _ => BallRoute::Drop,
        }
    }

    /// A lifted player is throwing.
    pub fn start_throwing(player: &mut Movable)
        ensures
            *final(player) == (Movable { state: EntityState::Throwing, ..*old(player) }),
    {
        player.state = EntityState::Throwing;
    }

    /// Keeps a hit player down for `PLAYER_HIT_COUNTER` ticks, then lets it
    /// get up, ready to move.
    pub fn route_hit(routable: &mut Routable, player: &mut Movable) -> (route: HitRoute)
        ensures
            (route, final(routable).counter) == spec_route_hit(old(routable).counter),
            final(routable).name == old(routable).name,
            final(routable).action == old(routable).action,
            old(routable).counter >= PLAYER_HIT_COUNTER ==> route is GetUp && *final(routable)
                == *old(routable) && *final(player) == (Movable {
                state: EntityState::ReadyToMove,
                ..*old(player)
            }),
            old(routable).counter < PLAYER_HIT_COUNTER ==> route is StayDown && *final(routable) == (
            Routable { counter: (old(routable).counter + 1) as u8, ..*old(routable) })
                && *final(player) == *old(player),
    {
        if routable.counter >= PLAYER_HIT_COUNTER {
            player.state = EntityState::ReadyToMove;
            HitRoute::GetUp
        } else {
            routable.counter = routable.counter + 1;
            HitRoute::StayDown
        }
    }

    /// Counts the ticks a moving player stalled: one more when it barely
    /// moved this tick, back to zero when it moved. Returns whether the
    /// order changed.
    pub fn track_stalling_player(routable: &mut Routable, stalled: bool) -> (changed: bool)
        requires
            stalled ==> old(routable).counter < u8::MAX,
        ensures
            stalled ==> changed && *final(routable) == (Routable {
                counter: (old(routable).counter + 1) as u8,
                ..*old(routable)
            }),
            !stalled ==> changed == (old(routable).counter > 0) && *final(routable) == (Routable {
                counter: 0,
                ..*old(routable)
            }),
    {
        if stalled {
            routable.counter = routable.counter + 1;
            true
        } else if routable.counter > 0 {
            routable.counter = 0;
            true
        } else {
            false
        }
    }

    /// Whether a player that ran into a wall loses its order: only a move
    /// order is dropped.
    pub fn drops_route_at_wall(routable: Option<&Routable>) -> (r: bool)
        ensures
            r == (routable matches Some(route) && route.action is Move),
    {
        match routable {
            Some(route) => route.action == RouteAction::Move,
            None => false,
        }
    }

    /// A player that ran into the wall of its half: its move order (if it has
    /// one) is dropped, and a moving player is ready to move again. Returns
    /// whether the order is dropped and whether the player changed.
    pub fn stop_player_at_wall(routable: Option<&Routable>, player: &mut Movable) -> (r: (
        bool,
        bool,
    ))
        ensures
            r.0 == (routable matches Some(route) && route.action is Move),
            r.1 == (old(player).state is Moving),
            *final(player) == (if old(player).state is Moving {
                Movable { state: EntityState::ReadyToMove, ..*old(player) }
            } else {
                *old(player)
            }),
    {
        let drop_route = Self::drops_route_at_wall(routable);
        let player_changed = if player.state == EntityState::Moving {
            player.state = EntityState::ReadyToMove;
            true
        } else {
            false
        };
        (drop_route, player_changed)
    }
}

/// The counter of a hit player's order after `ticks` ticks down, starting
/// from `counter`.
pub open spec fn hit_counter_after(counter: u8, ticks: nat) -> u8
    decreases ticks,
{
    if ticks == 0 {
        counter
    } else {
        spec_route_hit(hit_counter_after(counter, (ticks - 1) as nat)).1
    }
}

/// A hit player, whose order starts at zero, stays down for exactly
/// `PLAYER_HIT_COUNTER` ticks and gets up on the next one.
pub proof fn lemma_hit_player_stays_down(ticks: nat)
    requires
        ticks <= PLAYER_HIT_COUNTER,
    ensures
        hit_counter_after(0, ticks) == ticks,
        ticks < PLAYER_HIT_COUNTER ==> spec_route_hit(hit_counter_after(0, ticks)).0 is StayDown,
        ticks == PLAYER_HIT_COUNTER ==> spec_route_hit(hit_counter_after(0, ticks)).0 is GetUp,
    decreases ticks,
{
    if ticks > 0 {
        lemma_hit_player_stays_down((ticks - 1) as nat);
    }
}

/// The counter of a throwing player's order after `ticks` ticks of winding
/// up, starting from `counter`.
pub open spec fn wind_up_counter_after(counter: u8, ticks: nat) -> u8
    decreases ticks,
{
    if ticks == 0 {
        counter
    } else {
        spec_wind_up(wind_up_counter_after(counter, (ticks - 1) as nat)).1
    }
}

/// A player that starts throwing (order at zero) winds up for
/// `PLAYER_THROW_COUNTER - 1` ticks and lets the ball go on the next one.
pub proof fn lemma_throw_winds_up(ticks: nat)
    requires
        ticks < PLAYER_THROW_COUNTER,
    ensures
        wind_up_counter_after(0, ticks) == ticks,
        ticks + 1 < PLAYER_THROW_COUNTER ==> spec_wind_up(wind_up_counter_after(0, ticks)).0 is WindUp,
        ticks + 1 == PLAYER_THROW_COUNTER ==> spec_wind_up(wind_up_counter_after(0, ticks)).0 is Release,
    decreases ticks,
{
    if ticks > 0 {
        lemma_throw_winds_up((ticks - 1) as nat);
    }
}

} // verus!
