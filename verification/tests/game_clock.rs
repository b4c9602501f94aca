use dodgeball::ecs::components::clock::Clock;
use dodgeball::ecs::components::game::Game;
use dodgeball::ecs::components::movable::Movable;
use dodgeball::ecs::components::stat::Stat;
use dodgeball::ecs::entities::{EntityKind, EntityState, GameState};
use dodgeball::ecs::systems::game_system::{remaining_seconds, GameStep, GameSystem};

fn game(state: GameState, space: i32, time: i32, remaining: i8) -> Game {
    Game {
        id: 1,
        name: String::from("g"),
        space_score: space,
        time_score: time,
        remaining,
        state,
        mvp: String::from("old"),
    }
}

fn movable(name: &str, kind: EntityKind, state: EntityState) -> Movable {
    Movable { name: String::from(name), kind, state }
}

fn stat(name: &str, half_points: i32) -> Stat {
    Stat { name: String::from(name), half_points }
}

#[test]
fn has_started_in_running_phases_only() {
    for (state, started) in [
        (GameState::Waiting, false),
        (GameState::Reset, false),
        (GameState::GameStarted, true),
        (GameState::SpaceScored, true),
        (GameState::TimeScored, true),
        (GameState::GameEndedInSpaceWin, false),
        (GameState::GameEndedInTimeWin, false),
        (GameState::GameEndedInTie, false),
    ] {
        assert_eq!(game(state, 0, 0, 0).has_started(), started);
    }
}

#[test]
fn remaining_seconds_round_away_from_zero() {
    assert_eq!(remaining_seconds(0), 0);
    assert_eq!(remaining_seconds(1), 1);
    assert_eq!(remaining_seconds(1000), 1);
    assert_eq!(remaining_seconds(1001), 2);
    assert_eq!(remaining_seconds(19947), 20);
    assert_eq!(remaining_seconds(-1), -1);
    assert_eq!(remaining_seconds(-1000), -1);
    assert_eq!(remaining_seconds(-1001), -2);
    assert_eq!(remaining_seconds(-2947), -3);
    assert_eq!(remaining_seconds(i32::MAX), 127);
    assert_eq!(remaining_seconds(i32::MIN), -128);
}

#[test]
fn idle_when_parked() {
    let mut g = game(GameState::GameEndedInTie, 0, 0, -128);
    let mut c = Clock { id: 1, remaining_ms: -128000 };
    let mut players = vec![movable("WAN", EntityKind::SpacePlayer, EntityState::Standby)];
    let mut stats = vec![stat("WAN", 4)];
    let step = GameSystem::handle(&mut g, &mut c, 53, 20, true, &mut players, &mut stats);
    assert_eq!(step, GameStep::Idle);
    assert_eq!(c.remaining_ms, -128000);
    assert_eq!(stats[0].half_points, 4);
}

#[test]
fn idle_when_waiting_at_zero() {
    let mut g = game(GameState::Waiting, 0, 0, 0);
    let mut c = Clock { id: 1, remaining_ms: 0 };
    let mut players = vec![];
    let mut stats = vec![];
    assert_eq!(GameSystem::handle(&mut g, &mut c, 53, 20, true, &mut players, &mut stats), GameStep::Idle);
}

#[test]
fn pending_clock_counts_up_and_resets_field() {
    let mut g = game(GameState::GameEndedInSpaceWin, 2, 1, -4);
    let mut c = Clock { id: 1, remaining_ms: -3020 };
    let mut players = vec![];
    let mut stats = vec![];
    let step = GameSystem::handle(&mut g, &mut c, 53, 20, true, &mut players, &mut stats);
    assert_eq!(step, GameStep::Counted { game_changed: true });
    assert_eq!(c.remaining_ms, -2967);
    assert_eq!(g.remaining, -3);
    assert_eq!(g.state, GameState::Reset);
    let step = GameSystem::handle(&mut g, &mut c, 53, 20, true, &mut players, &mut stats);
    assert_eq!(step, GameStep::Counted { game_changed: false });
    assert_eq!(c.remaining_ms, -2914);
}

#[test]
fn pending_clock_reaching_zero_starts_game() {
    let mut g = game(GameState::Waiting, 3, 5, -1);
    let mut c = Clock { id: 1, remaining_ms: -30 };
    let mut players = vec![
        movable("WAN", EntityKind::SpacePlayer, EntityState::Standby),
        movable("LIZ", EntityKind::TimePlayer, EntityState::WonGame),
        movable("Ball1", EntityKind::Ball, EntityState::Moving),
    ];
    let mut stats = vec![stat("WAN", 6)];
    let step = GameSystem::handle(&mut g, &mut c, 53, 20, true, &mut players, &mut stats);
    assert_eq!(step, GameStep::Started);
    assert_eq!(g.state, GameState::GameStarted);
    assert_eq!((g.space_score, g.time_score), (0, 0));
    assert_eq!(g.remaining, 20);
    assert_eq!(g.mvp, "");
    assert_eq!(c.remaining_ms, 20000);
    assert_eq!(players[0].state, EntityState::ReadyToMove);
    assert_eq!(players[1].state, EntityState::Standby);
    assert_eq!(players[2].state, EntityState::Moving);
    assert_eq!(stats[0].half_points, 6);
}

#[test]
fn infinite_duration_wraps_like_the_cast() {
    let mut g = game(GameState::Waiting, 0, 0, -1);
    let mut c = Clock { id: 1, remaining_ms: -10 };
    let mut players = vec![];
    let mut stats = vec![];
    GameSystem::handle(&mut g, &mut c, 53, 127, true, &mut players, &mut stats);
    assert_eq!(g.remaining, 127);
    assert_eq!(c.remaining_ms, 127000);
    let mut g = game(GameState::Waiting, 0, 0, -1);
    let mut c = Clock { id: 1, remaining_ms: -10 };
    GameSystem::handle(&mut g, &mut c, 53, 200, true, &mut players, &mut stats);
    assert_eq!(g.remaining, -56);
    assert_eq!(c.remaining_ms, 200000);
}

#[test]
fn running_clock_counts_down() {
    let mut g = game(GameState::SpaceScored, 1, 0, 20);
    let mut c = Clock { id: 1, remaining_ms: 19000 };
    let mut players = vec![];
    let mut stats = vec![];
    let step = GameSystem::handle(&mut g, &mut c, 53, 20, true, &mut players, &mut stats);
    assert_eq!(step, GameStep::Counted { game_changed: true });
    assert_eq!(c.remaining_ms, 18947);
    assert_eq!(g.remaining, 19);
    assert_eq!(g.state, GameState::SpaceScored);
}

#[test]
fn infinite_game_never_counts_down() {
    let mut g = game(GameState::GameStarted, 0, 0, 127);
    let mut c = Clock { id: 1, remaining_ms: 127000 };
    let mut players = vec![];
    let mut stats = vec![];
    for _ in 0..100 {
        let step = GameSystem::handle(&mut g, &mut c, 53, 20, true, &mut players, &mut stats);
        assert_eq!(step, GameStep::Counted { game_changed: false });
    }
    assert_eq!(c.remaining_ms, 127000);
    assert_eq!(g.state, GameState::GameStarted);
}

#[test]
fn game_ends_with_winner_and_mvp() {
    let mut g = game(GameState::TimeScored, 3, 1, 1);
    let mut c = Clock { id: 1, remaining_ms: 40 };
    let mut players = vec![
        movable("WAN", EntityKind::SpacePlayer, EntityState::Moving),
        movable("LIZ", EntityKind::TimePlayer, EntityState::Hit),
        movable("Ball2", EntityKind::Ball, EntityState::Moving),
    ];
    let mut stats = vec![stat("LIZ", 2), stat("WAN", 5), stat("FOX", 5), stat("ORI", -1)];
    let step = GameSystem::handle(&mut g, &mut c, 53, 20, true, &mut players, &mut stats);
    assert_eq!(step, GameStep::Stopped);
    assert_eq!(g.state, GameState::GameEndedInSpaceWin);
    assert_eq!(g.remaining, -9);
    assert_eq!(c.remaining_ms, -9000);
    assert_eq!(g.mvp, "WAN");
    assert_eq!(players[0].state, EntityState::WonGame);
    assert_eq!(players[1].state, EntityState::LostGame);
    assert_eq!(players[2].state, EntityState::Moving);
    assert!(stats.iter().all(|s| s.half_points == 0));
    assert_eq!((g.space_score, g.time_score), (3, 1));
}

#[test]
fn game_ends_in_tie_without_auto_start() {
    let mut g = game(GameState::GameStarted, 2, 2, 1);
    let mut c = Clock { id: 1, remaining_ms: 53 };
    let mut players = vec![
        movable("WAN", EntityKind::SpacePlayer, EntityState::Moving),
        movable("LIZ", EntityKind::TimePlayer, EntityState::ReadyToThrow),
    ];
    let mut stats = vec![stat("LIZ", 0), stat("WAN", -3)];
    let step = GameSystem::handle(&mut g, &mut c, 53, 20, false, &mut players, &mut stats);
    assert_eq!(step, GameStep::Stopped);
    assert_eq!(g.state, GameState::GameEndedInTie);
    assert_eq!(g.remaining, -128);
    assert_eq!(c.remaining_ms, -128000);
    assert_eq!(g.mvp, "");
    assert_eq!(players[0].state, EntityState::Standby);
    assert_eq!(players[1].state, EntityState::Standby);
    // parked from now on
    let step = GameSystem::handle(&mut g, &mut c, 53, 20, false, &mut players, &mut stats);
    assert_eq!(step, GameStep::Idle);
}

#[test]
fn time_team_wins() {
    let mut g = game(GameState::GameStarted, 0, 2, 1);
    let mut c = Clock { id: 1, remaining_ms: 10 };
    let mut players = vec![
        movable("WAN", EntityKind::SpacePlayer, EntityState::Moving),
        movable("LIZ", EntityKind::TimePlayer, EntityState::Moving),
    ];
    let mut stats = vec![];
    GameSystem::handle(&mut g, &mut c, 53, 20, true, &mut players, &mut stats);
    assert_eq!(g.state, GameState::GameEndedInTimeWin);
    assert_eq!(players[0].state, EntityState::LostGame);
    assert_eq!(players[1].state, EntityState::WonGame);
}

#[test]
fn proclaim_mvp_takes_first_best() {
    let mut stats = vec![stat("A", 1), stat("B", 3), stat("C", 3), stat("D", 2)];
    assert_eq!(GameSystem::proclaim_mvp(&mut stats), "B");
    assert!(stats.iter().all(|s| s.half_points == 0));
    let mut none = vec![stat("A", 0), stat("B", -2)];
    assert_eq!(GameSystem::proclaim_mvp(&mut none), "");
}

#[test]
fn should_tick_rules() {
    let c = |ms| Clock { id: 1, remaining_ms: ms };
    assert!(!GameSystem::should_tick(&game(GameState::Waiting, 0, 0, 0), &c(0)));
    assert!(GameSystem::should_tick(&game(GameState::GameStarted, 0, 0, 0), &c(0)));
    assert!(GameSystem::should_tick(&game(GameState::Waiting, 0, 0, 0), &c(-5000)));
    assert!(!GameSystem::should_tick(&game(GameState::GameStarted, 0, 0, 0), &c(-128000)));
}
