use vstd::prelude::*;

use crate::ecs::components::clock::Clock;
use crate::ecs::components::game::Game;
use crate::ecs::components::movable::Movable;
use crate::ecs::components::stat::Stat;
use crate::ecs::entities::{EntityKind, EntityState, GameState};
use crate::{GAME_AUTO_START_PAUSE_BETWEEN_GAMES, GAME_RESET_AT, GAME_WONT_RESTART, INFINITE_DURATION};

verus! {

/// Runs the game clock: counts down a running game and ends it, counts up
/// to the next game and starts it.
pub struct GameSystem;

/// What one tick of the game clock did.
#[derive(PartialEq, Eq, Structural, Clone, Copy, Debug)]
pub enum GameStep {
    /// The clock does not run: nothing changed.
    Idle,
    /// The clock moved; the game row changed too where `game_changed`.
    Counted { game_changed: bool },
    /// A new game started: game, clock and players changed. The rest of the
    /// tick is skipped.
    Started,
    /// The game ended: game, clock, players and stats changed.
    Stopped,
}

pub open spec fn clamp_i32(x: int) -> int {
    if x < i32::MIN { i32::MIN as int } else if x > i32::MAX { i32::MAX as int } else { x }
}

pub open spec fn clamp_i8(x: int) -> int {
    if x < i8::MIN { i8::MIN as int } else if x > i8::MAX { i8::MAX as int } else { x }
}

/// `u8 as i8`: values above 127 wrap around.
pub open spec fn wrap_i8(x: u8) -> i8 {
    if x <= 127 { x as i8 } else { (x - 256) as i8 }
}

/// The whole seconds shown for a clock value: rounded up while counting
/// down (positive), rounded down while counting up (negative), and kept
/// within the range of an `i8`.
pub open spec fn displayed_seconds(ms: int) -> int {
    clamp_i8(if ms < 0 { ms / 1000 } else { (ms + 999) / 1000 })
}

/// The clock runs while a game is under way or while it has time left to
/// count, except when it was parked on "no restart".
pub open spec fn spec_should_tick(game: Game, clock: Clock) -> bool {
    (game.spec_has_started() || clock.remaining_ms != 0) && clock.remaining_ms != GAME_WONT_RESTART
        * 1000
}

/// The clock of a running game after one step: an infinite game keeps its time.
pub open spec fn countdown_ms(ms: int, step_ms: int) -> int {
    if ms < INFINITE_DURATION * 1000 { clamp_i32(ms - step_ms) } else { ms }
}

/// The clock of a pending game after one step.
pub open spec fn countup_ms(ms: int, step_ms: int) -> int {
    clamp_i32(ms + step_ms)
}

/// The game row after the clock moved to `ms` without starting or ending
/// a game: the shown seconds follow the clock, and the field is reset when
/// they reach `GAME_RESET_AT`.
pub open spec fn counted_down(game: Game, ms: int) -> Game {
    let s = displayed_seconds(ms);
    if game.remaining != s {
        Game {
            remaining: s as i8,
            state: if s == GAME_RESET_AT { GameState::Reset } else { game.state },
            ..game
        }
    } else {
        game
    }
}

fn saturating_add_i32(a: i32, b: i32) -> (r: i32)
    ensures
        r == clamp_i32(a + b),
{
    let s: i64 = a as i64 + b as i64;
    if s < i32::MIN as i64 {
        i32::MIN
    } else if s > i32::MAX as i64 {
        i32::MAX
    } else {
        s as i32
    }
}

fn saturating_sub_i32(a: i32, b: i32) -> (r: i32)
    ensures
        r == clamp_i32(a - b),
{
    let s: i64 = a as i64 - b as i64;
    if s < i32::MIN as i64 {
        i32::MIN
    } else if s > i32::MAX as i64 {
        i32::MAX
    } else {
        s as i32
    }
}

/// The whole seconds to show for a clock value (see `displayed_seconds`).
pub fn remaining_seconds(ms: i32) -> (s: i8)
    ensures
        s == displayed_seconds(ms as int),
{
    let m: i64 = ms as i64;
    let q: i64 = if m < 0 {
        let n: i64 = -m;
        let c: i64 = (n + 999) / 1000;
        assert(-c == m / 1000) by {
            assert(n > 0);
            assert(c * 1000 >= n && (c - 1) * 1000 < n);
        }
        -c
    } else {
        (m + 999) / 1000
    };
    if q < -128 {
        -128
    } else if q > 127 {
        127
    } else {
        q as i8
    }
}


/// The state a player takes when the game enters `game_state`.
pub open spec fn player_state_after(
    game_state: GameState,
    kind: EntityKind,
    state: EntityState,
) -> EntityState {
    if (game_state is GameEndedInSpaceWin && kind is SpacePlayer) || (game_state is GameEndedInTimeWin
        && kind is TimePlayer) {
        EntityState::WonGame
    } else if (game_state is GameEndedInSpaceWin && kind is TimePlayer) || (
    game_state is GameEndedInTimeWin && kind is SpacePlayer) {
        EntityState::LostGame
    } else if game_state is GameStarted && state is Standby {
        EntityState::ReadyToMove
    } else {
        EntityState::Standby
    }
}

/// One movable after the game entered `game_state`: players change state,
/// balls are left alone.
pub open spec fn movable_after(game_state: GameState, m: Movable) -> Movable {
    if m.kind.spec_is_player() {
        Movable { state: player_state_after(game_state, m.kind, m.state), ..m }
    } else {
        m
    }
}

pub open spec fn players_after(game_state: GameState, movables: Seq<Movable>) -> Seq<Movable> {
    movables.map_values(|m: Movable| movable_after(game_state, m))
}

/// How a game ends: the team with more points wins.
pub open spec fn ending_state(space_score: int, time_score: int) -> GameState {
    if space_score > time_score {
        GameState::GameEndedInSpaceWin
    } else if space_score == time_score {
        GameState::GameEndedInTie
    } else {
        GameState::GameEndedInTimeWin
    }
}

/// The record and the name of the most valuable player among `stats`:
/// going through them in order, the first one whose points beat every
/// earlier one (and zero).
pub open spec fn mvp_of(stats: Seq<Stat>) -> (int, Seq<char>)
    decreases stats.len(),
{
    if stats.len() == 0 {
        (0, Seq::empty())
    } else {
        let prev = mvp_of(stats.drop_last());
        if stats.last().half_points > prev.0 {
            (stats.last().half_points as int, stats.last().name@)
        } else {
            prev
        }
    }
}

/// The stats after their points were handed out: every player back at zero.
pub open spec fn zeroed(stats: Seq<Stat>) -> Seq<Stat> {
    stats.map_values(|s: Stat| Stat { half_points: 0, ..s })
}

/// The seconds on the clock once a game has ended.
pub open spec fn pause_seconds(auto_start: bool) -> i8 {
    if auto_start { GAME_AUTO_START_PAUSE_BETWEEN_GAMES } else { GAME_WONT_RESTART }
}

/// `new` is `old` started for `duration` seconds.
pub open spec fn is_started_game(new: Game, old: Game, duration: u8) -> bool {
    &&& new.id == old.id
    &&& new.name == old.name
    &&& new.state is GameStarted
    &&& new.space_score == 0
    &&& new.time_score == 0
    &&& new.remaining == wrap_i8(duration)
    &&& new.mvp@ == Seq::<char>::empty()
}

/// `new` is `old` ended, with `mvp` proclaimed.
pub open spec fn is_stopped_game(new: Game, old: Game, auto_start: bool, mvp: Seq<char>) -> bool {
    &&& new.id == old.id
    &&& new.name == old.name
    &&& new.state == ending_state(old.space_score as int, old.time_score as int)
    &&& new.space_score == old.space_score
    &&& new.time_score == old.time_score
    &&& new.remaining == pause_seconds(auto_start)
    &&& new.mvp@ == mvp
}

impl GameSystem {
    /// Whether the clock runs this tick.
    pub fn should_tick(game: &Game, clock: &Clock) -> (r: bool)
        ensures
            r == spec_should_tick(*game, *clock),
    {
        (game.has_started() || clock.remaining_ms != 0) && clock.remaining_ms
            != GAME_WONT_RESTART as i32 * 1000
    }

    /// Sets the state of every player for the game entering `game_state`.
    pub fn update_players_state(game_state: GameState, movables: &mut Vec<Movable>)
        ensures
            final(movables)@ == players_after(game_state, old(movables)@),
    {
        let ghost before = movables@;
        let mut i: usize = 0;
        while i < movables.len()
            invariant
                0 <= i <= movables@.len(),
                movables@.len() == before.len(),
                forall|j: int| 0 <= j < i ==> movables@[j] == movable_after(game_state, before[j]),
                forall|j: int| i <= j < movables@.len() ==> movables@[j] == before[j],
            decreases movables@.len() - i,
        {
            let kind = movables[i].kind;
            if kind == EntityKind::SpacePlayer || kind == EntityKind::TimePlayer {
                let state = movables[i].state;
                let new_state = if (game_state == GameState::GameEndedInSpaceWin && kind
                    == EntityKind::SpacePlayer) || (game_state == GameState::GameEndedInTimeWin
                    && kind == EntityKind::TimePlayer) {
                    EntityState::WonGame
                } else if (game_state == GameState::GameEndedInSpaceWin && kind
                    == EntityKind::TimePlayer) || (game_state == GameState::GameEndedInTimeWin
                    && kind == EntityKind::SpacePlayer) {
                    EntityState::LostGame
                } else if game_state == GameState::GameStarted && state == EntityState::Standby {
                    EntityState::ReadyToMove
                } else {
                    EntityState::Standby
                };
                movables[i].state = new_state;
            }
            i += 1;
        }
        assert(movables@ =~= players_after(game_state, before));
    }

    /// Finds the most valuable player of the game that ended and sets every
    /// player's points back to zero.
    pub fn proclaim_mvp(stats: &mut Vec<Stat>) -> (mvp: String)
        ensures
            mvp@ == mvp_of(old(stats)@).1,
            final(stats)@ == zeroed(old(stats)@),
    {
        let ghost before = stats@;
        let mut mvp = String::new();
        let mut record: i32 = 0;
        let mut i: usize = 0;
        while i < stats.len()
            invariant
                0 <= i <= stats@.len(),
                stats@.len() == before.len(),
                forall|j: int| 0 <= j < i ==> stats@[j] == (Stat { half_points: 0, ..before[j] }),
                forall|j: int| i <= j < stats@.len() ==> stats@[j] == before[j],
                mvp_of(before.take(i as int)) == (record as int, mvp@),
            decreases stats@.len() - i,
        {
            assert(before.take(i + 1).drop_last() =~= before.take(i as int));
            if stats[i].half_points > record {
                record = stats[i].half_points;
                mvp = stats[i].name.clone();
            }
            stats[i].half_points = 0;
            i += 1;
        }
        assert(before.take(i as int) =~= before);
        assert(stats@ =~= zeroed(before));
        mvp
    }

    /// Shows the seconds of the clock at `ms` on the game row, and resets
    /// the field when they reach `GAME_RESET_AT`. Returns whether the game
    /// row changed.
    pub fn update_remaining_if_needed(game: &mut Game, ms: i32) -> (changed: bool)
        ensures
            *final(game) == counted_down(*old(game), ms as int),
            changed == (old(game).remaining != displayed_seconds(ms as int)),
    {
        let remaining_seconds = remaining_seconds(ms);
        if game.remaining != remaining_seconds {
            game.remaining = remaining_seconds;
            if remaining_seconds == GAME_RESET_AT {
                game.state = GameState::Reset;
            }
            true
        } else {
            false
        }
    }

    /// Starts a game of `duration` seconds: scores and most valuable player
    /// cleared, clock set, players put in play.
    pub fn start_game(
        game: &mut Game,
        clock: &mut Clock,
        duration: u8,
        movables: &mut Vec<Movable>,
    )
        ensures
            is_started_game(*final(game), *old(game), duration),
            final(clock).id == old(clock).id,
            final(clock).remaining_ms == duration * 1000,
            final(movables)@ == players_after(GameState::GameStarted, old(movables)@),
    {
        game.state = GameState::GameStarted;
        game.space_score = 0;
        game.time_score = 0;
        game.mvp = String::new();
        clock.remaining_ms = duration as i32 * 1000;
        game.remaining = if duration <= 127 { duration as i8 } else { (duration as i16 - 256) as i8 };
        Self::update_players_state(GameState::GameStarted, movables);
    }

    /// Ends the game: the team with more points wins, players learn the
    /// outcome, the most valuable player is proclaimed and the clock set to
    /// the pause before the next game (or parked when games do not start
    /// by themselves).
    pub fn stop_game(
        game: &mut Game,
        clock: &mut Clock,
        auto_start: bool,
        movables: &mut Vec<Movable>,
        stats: &mut Vec<Stat>,
    )
        ensures
            is_stopped_game(*final(game), *old(game), auto_start, mvp_of(old(stats)@).1),
            final(clock).id == old(clock).id,
            final(clock).remaining_ms == pause_seconds(auto_start) * 1000,
            final(movables)@ == players_after(
                ending_state(old(game).space_score as int, old(game).time_score as int),
                old(movables)@,
            ),
            final(stats)@ == zeroed(old(stats)@),
    {
        let game_state = if game.space_score > game.time_score {
            GameState::GameEndedInSpaceWin
        } else if game.space_score == game.time_score {
            GameState::GameEndedInTie
        } else {
            GameState::GameEndedInTimeWin
        };
        Self::update_players_state(game_state, movables);
        game.remaining = if auto_start {
            GAME_AUTO_START_PAUSE_BETWEEN_GAMES
        } else {
            GAME_WONT_RESTART
        };
        clock.remaining_ms = game.remaining as i32 * 1000;
        game.state = game_state;
        game.mvp = Self::proclaim_mvp(stats);
    }

    /// Counts a pending game up by `step_ms`; starts it when the clock
    /// reaches zero. Returns whether it started.
    pub fn start_game_if_needed(
        game: &mut Game,
        clock: &mut Clock,
        step_ms: i32,
        duration: u8,
        movables: &mut Vec<Movable>,
    ) -> (step: GameStep)
        ensures
            ({
                let ms = countup_ms(old(clock).remaining_ms as int, step_ms as int);
                if ms >= 0 {
                    &&& step is Started
                    &&& is_started_game(*final(game), *old(game), duration)
                    &&& *final(clock) == Clock { remaining_ms: (duration * 1000) as i32, ..*old(clock) }
                    &&& final(movables)@ == players_after(GameState::GameStarted, old(movables)@)
                } else {
                    &&& step == GameStep::Counted {
                        game_changed: old(game).remaining != displayed_seconds(ms),
                    }
                    &&& *final(game) == counted_down(*old(game), ms)
                    &&& *final(clock) == Clock { remaining_ms: ms as i32, ..*old(clock) }
                    &&& final(movables)@ == old(movables)@
                }
            }),
    {
        clock.remaining_ms = saturating_add_i32(clock.remaining_ms, step_ms);
        if clock.remaining_ms >= 0 {
            Self::start_game(game, clock, duration, movables);
            GameStep::Started
        } else {
            let game_changed = Self::update_remaining_if_needed(game, clock.remaining_ms);
            GameStep::Counted { game_changed }
        }
    }

    /// Counts a running game down by `step_ms` (unless it is infinite);
    /// ends it when the clock reaches zero.
    pub fn stop_game_if_needed(
        game: &mut Game,
        clock: &mut Clock,
        step_ms: i32,
        auto_start: bool,
        movables: &mut Vec<Movable>,
        stats: &mut Vec<Stat>,
    ) -> (step: GameStep)
        ensures
            ({
                let ms = countdown_ms(old(clock).remaining_ms as int, step_ms as int);
                if ms <= 0 {
                    &&& step is Stopped
                    &&& is_stopped_game(*final(game), *old(game), auto_start, mvp_of(old(stats)@).1)
                    &&& *final(clock) == Clock {
                        remaining_ms: (pause_seconds(auto_start) * 1000) as i32,
                        ..*old(clock)
                    }
                    &&& final(movables)@ == players_after(
                        ending_state(old(game).space_score as int, old(game).time_score as int),
                        old(movables)@,
                    )
                    &&& final(stats)@ == zeroed(old(stats)@)
                } else {
                    &&& step == GameStep::Counted {
                        game_changed: old(game).remaining != displayed_seconds(ms),
                    }
                    &&& *final(game) == counted_down(*old(game), ms)
                    &&& *final(clock) == Clock { remaining_ms: ms as i32, ..*old(clock) }
                    &&& final(movables)@ == old(movables)@
                    &&& final(stats)@ == old(stats)@
                }
            }),
    {
        if clock.remaining_ms < INFINITE_DURATION as i32 * 1000 {
            clock.remaining_ms = saturating_sub_i32(clock.remaining_ms, step_ms);
        }
        if clock.remaining_ms <= 0 {
            Self::stop_game(game, clock, auto_start, movables, stats);
            GameStep::Stopped
        } else {
            let game_changed = Self::update_remaining_if_needed(game, clock.remaining_ms);
            GameStep::Counted { game_changed }
        }
    }

    /// One tick of the game clock, `step_ms` milliseconds long. `duration`
    /// is the length of the next game, `auto_start` whether games follow
    /// each other by themselves. The caller stores what the returned step
    /// says changed (and drops the pending orders of all players when
    /// players changed); after `Started` the rest of the tick is skipped.
    pub fn handle(
        game: &mut Game,
        clock: &mut Clock,
        step_ms: i32,
        duration: u8,
        auto_start: bool,
        movables: &mut Vec<Movable>,
        stats: &mut Vec<Stat>,
    ) -> (step: GameStep)
        ensures
            !spec_should_tick(*old(game), *old(clock)) ==> {
                &&& step is Idle
                &&& *final(game) == *old(game)
                &&& *final(clock) == *old(clock)
                &&& final(movables)@ == old(movables)@
                &&& final(stats)@ == old(stats)@
            },
            spec_should_tick(*old(game), *old(clock)) && old(game).spec_has_started() ==> {
                let ms = countdown_ms(old(clock).remaining_ms as int, step_ms as int);
                if ms <= 0 {
                    &&& step is Stopped
                    &&& is_stopped_game(*final(game), *old(game), auto_start, mvp_of(old(stats)@).1)
                    &&& *final(clock) == Clock {
                        remaining_ms: (pause_seconds(auto_start) * 1000) as i32,
                        ..*old(clock)
                    }
                    &&& final(movables)@ == players_after(
                        ending_state(old(game).space_score as int, old(game).time_score as int),
                        old(movables)@,
                    )
                    &&& final(stats)@ == zeroed(old(stats)@)
                } else {
                    &&& step == GameStep::Counted {
                        game_changed: old(game).remaining != displayed_seconds(ms),
                    }
                    &&& *final(game) == counted_down(*old(game), ms)
                    &&& *final(clock) == Clock { remaining_ms: ms as i32, ..*old(clock) }
                    &&& final(movables)@ == old(movables)@
                    &&& final(stats)@ == old(stats)@
                }
            },
            spec_should_tick(*old(game), *old(clock)) && !old(game).spec_has_started() ==> {
                let ms = countup_ms(old(clock).remaining_ms as int, step_ms as int);
                &&& final(stats)@ == old(stats)@
                &&& if ms >= 0 {
                    &&& step is Started
                    &&& is_started_game(*final(game), *old(game), duration)
                    &&& *final(clock) == Clock { remaining_ms: (duration * 1000) as i32, ..*old(clock) }
                    &&& final(movables)@ == players_after(GameState::GameStarted, old(movables)@)
                } else {
                    &&& step == GameStep::Counted {
                        game_changed: old(game).remaining != displayed_seconds(ms),
                    }
                    &&& *final(game) == counted_down(*old(game), ms)
                    &&& *final(clock) == Clock { remaining_ms: ms as i32, ..*old(clock) }
                    &&& final(movables)@ == old(movables)@
                }
            },
    {
        if !Self::should_tick(game, clock) {
            return GameStep::Idle;
        }
        if game.has_started() {
            Self::stop_game_if_needed(game, clock, step_ms, auto_start, movables, stats)
        } else {
            Self::start_game_if_needed(game, clock, step_ms, duration, movables)
        }
    }
}


/// The most valuable player has the most points: nobody has more, everybody
/// before it in the list has fewer, and without any positive points there
/// is none (an empty name).
pub proof fn lemma_mvp_is_best(stats: Seq<Stat>)
    ensures
        ({
            let (record, name) = mvp_of(stats);
            &&& record >= 0
            &&& forall|k: int| 0 <= k < stats.len() ==> stats[k].half_points <= record
            &&& record == 0 ==> name == Seq::<char>::empty()
            &&& record > 0 ==> exists|j: int|
                0 <= j < stats.len() && stats[j].half_points == record && stats[j].name@ == name
                    && forall|k: int| 0 <= k < j ==> stats[k].half_points < record
        }),
    decreases stats.len(),
{
    if stats.len() > 0 {
        let prev = stats.drop_last();
        lemma_mvp_is_best(prev);
        let (r, n) = mvp_of(prev);
        assert forall|k: int| 0 <= k < stats.len() - 1 implies stats[k] == prev[k] by {}
        if stats.last().half_points > r {
            let j = stats.len() - 1;
            assert(stats[j].half_points == mvp_of(stats).0);
        } else if r > 0 {
            let j = choose|j: int|
                0 <= j < prev.len() && prev[j].half_points == r && prev[j].name@ == n && forall|
                    k: int,
                | 0 <= k < j ==> prev[k].half_points < r;
            assert(stats[j] == prev[j]);
        }
    }
}

/// When a game ends, every player of the team with more points has won,
/// every player of the other team has lost, on a tie every player stands
/// by, and balls are left as they were.
pub proof fn lemma_game_end_outcome(space_score: int, time_score: int, movables: Seq<Movable>)
    ensures
        ({
            let after = players_after(ending_state(space_score, time_score), movables);
            &&& after.len() == movables.len()
            &&& forall|k: int|
                0 <= k < movables.len() ==> {
                    let m = movables[k];
                    let state = #[trigger] after[k].state;
                    &&& after[k].name == m.name
                    &&& after[k].kind == m.kind
                    &&& m.kind is Ball ==> state == m.state
                    &&& space_score > time_score && m.kind is SpacePlayer ==> state is WonGame
                    &&& space_score > time_score && m.kind is TimePlayer ==> state is LostGame
                    &&& space_score < time_score && m.kind is TimePlayer ==> state is WonGame
                    &&& space_score < time_score && m.kind is SpacePlayer ==> state is LostGame
                    &&& space_score == time_score && m.kind.spec_is_player() ==> state is Standby
                }
        }),
{
}

/// When a game starts, the players that stood by are ready to move, every
/// other player stands by, and balls are left as they were.
pub proof fn lemma_game_start_players(movables: Seq<Movable>)
    ensures
        ({
            let after = players_after(GameState::GameStarted, movables);
            &&& after.len() == movables.len()
            &&& forall|k: int|
                0 <= k < movables.len() ==> {
                    let m = movables[k];
                    let state = #[trigger] after[k].state;
                    &&& after[k].name == m.name
                    &&& after[k].kind == m.kind
                    &&& m.kind is Ball ==> state == m.state
                    &&& m.kind.spec_is_player() && m.state is Standby ==> state is ReadyToMove
                    &&& m.kind.spec_is_player() && !(m.state is Standby) ==> state is Standby
                }
        }),
{
}

/// A running game with at least `INFINITE_DURATION` seconds on its clock
/// never ends: a tick leaves its clock where it is.
pub proof fn lemma_infinite_game_never_ends(ms: int, step_ms: int)
    requires
        ms >= INFINITE_DURATION * 1000,
    ensures
        countdown_ms(ms, step_ms) == ms,
        countdown_ms(ms, step_ms) > 0,
{
}

/// A game that ended while games do not start by themselves parks the
/// clock: the following ticks leave everything as it is.
pub proof fn lemma_ended_game_without_auto_start_is_parked(
    game: Game,
    old_game: Game,
    clock: Clock,
    mvp: Seq<char>,
)
    requires
        is_stopped_game(game, old_game, false, mvp),
        clock.remaining_ms == pause_seconds(false) * 1000,
    ensures
        !spec_should_tick(game, clock),
{
}

/// The seconds shown round the clock away from zero: a running clock shows
/// the seconds it has started, a pending clock the seconds still to wait.
pub proof fn lemma_displayed_seconds_round_away_from_zero(ms: int)
    requires
        INFINITE_DURATION * -1000 <= ms <= INFINITE_DURATION * 1000,
    ensures
        ms > 0 ==> (displayed_seconds(ms) - 1) * 1000 < ms <= displayed_seconds(ms) * 1000,
        ms < 0 ==> displayed_seconds(ms) * 1000 <= ms < (displayed_seconds(ms) + 1) * 1000,
        ms == 0 ==> displayed_seconds(ms) == 0,
{
}

/// Only the reset second resets the field. A tick that leaves the clock
/// above zero (a running game counting down) keeps the game's state. The
/// state changes at all only to `Reset`, and only while the clock, counting
/// up towards the next game, is between -3000 and -2001 ms, where the shown
/// seconds are -3; it does change there as soon as the shown seconds move
/// to -3. The shown seconds follow the clock, and the scores, the most
/// valuable player and the game's name are never touched by a tick.
pub proof fn lemma_only_the_reset_second_resets_the_field(game: Game, ms: int)
    ensures
        ms > 0 ==> counted_down(game, ms).state == game.state,
        counted_down(game, ms).state != game.state ==> (counted_down(game, ms).state is Reset
            && -3000 <= ms <= -2001),
        -3000 <= ms <= -2001 && game.remaining != -3 ==> counted_down(game, ms).state is Reset,
        counted_down(game, ms).remaining == displayed_seconds(ms),
        counted_down(game, ms).id == game.id && counted_down(game, ms).name == game.name,
        counted_down(game, ms).space_score == game.space_score && counted_down(game, ms).time_score
            == game.time_score && counted_down(game, ms).mvp == game.mvp,
{
    if ms > 0 {
        assert((ms + 999) / 1000 >= 1);
    } else if ms < -3000 {
        assert(ms / 1000 <= -4);
    } else if -3000 <= ms <= -2001 {
        assert(ms / 1000 == -3);
    } else if ms < 0 {
        assert(ms / 1000 >= -2);
    }
}

} // verus!
