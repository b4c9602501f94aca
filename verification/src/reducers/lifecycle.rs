use vstd::prelude::*;

use crate::ecs::components::clock::Clock;
use crate::ecs::components::game::Game;
use crate::ecs::entities::GameState;
use crate::GAME_RESET_AT;

verus! {

/// The number of places on the field where balls appear.
pub const BALL_QUADRANT_COUNT: u8 = 30;

/// The game row as the module is set up: waiting, nothing scored.
pub fn add_game(id: u8, name: &str) -> (game: Game)
    ensures
        game.id == id,
        game.name@ == name@,
        game.space_score == 0,
        game.time_score == 0,
        game.state is Waiting,
        game.remaining == 0,
        game.mvp@ == Seq::<char>::empty(),
{
    Game {
        id,
        name: String::from_str(name),
        space_score: 0,
        time_score: 0,
        state: GameState::Waiting,
        remaining: 0,
        mvp: String::new(),
    }
}

/// The clock as the module is set up: counting up to the reset of the
/// field when games start by themselves, stopped otherwise.
pub fn add_clock(id: u8, auto_start: bool) -> (clock: Clock)
    ensures
        clock.id == id,
        clock.remaining_ms == (if auto_start { GAME_RESET_AT * 1000 } else { 0 }),
{
    Clock { id, remaining_ms: if auto_start { GAME_RESET_AT as i32 * 1000 } else { 0 } }
}

/// The places where balls appear, in their first order (the caller
/// shuffles them once): 0 to `BALL_QUADRANT_COUNT - 1`.
pub fn initial_ball_quadrants() -> (quadrants: Vec<u8>)
    ensures
        quadrants@.len() == BALL_QUADRANT_COUNT,
        forall|i: int| 0 <= i < BALL_QUADRANT_COUNT ==> quadrants@[i] == i,
{
    let mut quadrants: Vec<u8> = Vec::new();
    let mut q: u8 = 0;
    while q < BALL_QUADRANT_COUNT
        invariant
            q <= BALL_QUADRANT_COUNT,
            quadrants@.len() == q,
            forall|i: int| 0 <= i < q ==> quadrants@[i] == i,
        decreases BALL_QUADRANT_COUNT - q,
    {
        quadrants.push(q);
        q += 1;
    }
    quadrants
}

/// The column and the row (of a 5 by 6 grid over one half of the field) of
/// a ball quadrant.
pub fn ball_quadrant_cell(quadrant: u8) -> (cell: (u8, u8))
    ensures
        cell.0 == quadrant % 5,
        cell.1 == quadrant / 5,
{
    let x_quadrants: u8 = 5;
    (quadrant % x_quadrants, quadrant / x_quadrants)
}

} // verus!
