use dodgeball::ecs::components::game::Game;
use dodgeball::ecs::components::movable::Movable;
use dodgeball::ecs::components::routable::Routable;
use dodgeball::ecs::components::stat::Stat;
use dodgeball::ecs::entities::{EntityKind, EntityState, GameState, RouteAction, Side};
use dodgeball::ecs::systems::routing_system::{BallRoute, HitRoute, MoveCommand, RoutingSystem};
use dodgeball::ecs::systems::scoring_system::{
    CollisionResponse, HandledBalls, ImpactResult, ImpactSpeed, ScoringSystem,
};
use dodgeball::ecs::systems::spawn_system::{MatchSetup, RelatedAction, SpawnAction, SpawnSystem};

fn movable(name: &str, kind: EntityKind, state: EntityState) -> Movable {
    Movable { name: String::from(name), kind, state }
}

fn route(counter: u8, action: RouteAction) -> Routable {
    Routable { name: String::from("WAN"), counter, action }
}

fn game(state: GameState) -> Game {
    Game { id: 1, name: String::new(), space_score: 4, time_score: 7, remaining: 10, state, mvp: String::new() }
}

#[test]
fn movable_predicates() {
    let p = movable("WAN", EntityKind::SpacePlayer, EntityState::ReadyToThrow);
    assert!(p.is_player(EntityState::ReadyToThrow));
    assert!(!p.is_player(EntityState::ReadyToMove));
    assert!(!movable("Ball1", EntityKind::Ball, EntityState::ReadyToThrow).is_player(EntityState::ReadyToThrow));
    assert!(p.can_be_hit());
    assert!(movable("LIZ", EntityKind::TimePlayer, EntityState::Moving).can_be_hit());
    assert!(movable("LIZ", EntityKind::TimePlayer, EntityState::Throwing).can_be_hit());
    assert!(!movable("LIZ", EntityKind::TimePlayer, EntityState::Hit).can_be_hit());
    assert!(!movable("LIZ", EntityKind::TimePlayer, EntityState::Standby).can_be_hit());
}

#[test]
fn route_player_ready_heading_starts_moving() {
    let mut p = movable("WAN", EntityKind::SpacePlayer, EntityState::ReadyToMove);
    let r = RoutingSystem::route_player(&route(0, RouteAction::Move), &mut p, true);
    assert_eq!(r.command, MoveCommand::Steer);
    assert!(r.player_changed);
    assert_eq!(p.state, EntityState::Moving);
}

#[test]
fn route_player_moving_keeps_steering() {
    let mut p = movable("WAN", EntityKind::SpacePlayer, EntityState::Moving);
    let r = RoutingSystem::route_player(&route(19, RouteAction::Move), &mut p, true);
    assert_eq!(r.command, MoveCommand::Steer);
    assert!(!r.player_changed);
    assert_eq!(p.state, EntityState::Moving);
}

#[test]
fn route_player_stalled_or_arrived_halts() {
    let mut p = movable("WAN", EntityKind::SpacePlayer, EntityState::Moving);
    let r = RoutingSystem::route_player(&route(20, RouteAction::Move), &mut p, true);
    assert_eq!(r.command, MoveCommand::Halt);
    assert!(r.player_changed);
    assert_eq!(p.state, EntityState::ReadyToMove);
    let mut q = movable("WAN", EntityKind::SpacePlayer, EntityState::Moving);
    let r = RoutingSystem::route_player(&route(0, RouteAction::Move), &mut q, false);
    assert_eq!(r.command, MoveCommand::Halt);
    assert_eq!(q.state, EntityState::ReadyToMove);
}

#[test]
fn route_player_hit_or_busy() {
    let mut p = movable("WAN", EntityKind::SpacePlayer, EntityState::Hit);
    let r = RoutingSystem::route_player(&route(0, RouteAction::Move), &mut p, true);
    assert_eq!(r.command, MoveCommand::Drop);
    assert!(!r.player_changed);
    let mut q = movable("WAN", EntityKind::SpacePlayer, EntityState::ReadyToThrow);
    let r = RoutingSystem::route_player(&route(0, RouteAction::Move), &mut q, true);
    assert_eq!(r.command, MoveCommand::HaltAndClear);
    assert_eq!(q.state, EntityState::ReadyToThrow);
}

#[test]
fn throw_order_lifts_winds_up_and_releases() {
    let mut p = movable("WAN", EntityKind::SpacePlayer, EntityState::ReadyToThrow);
    let mut r = route(0, RouteAction::Throw);
    assert_eq!(RoutingSystem::route_ball(&mut r, &mut p), BallRoute::Lift);
    assert_eq!(p.state, EntityState::ReadyToThrow);
    RoutingSystem::start_throwing(&mut p);
    assert_eq!(p.state, EntityState::Throwing);
    for expected in 1..8u8 {
        assert_eq!(RoutingSystem::route_ball(&mut r, &mut p), BallRoute::WindUp);
        assert_eq!(r.counter, expected);
    }
    assert_eq!(RoutingSystem::route_ball(&mut r, &mut p), BallRoute::Release);
    assert_eq!(r.counter, 8);
    assert_eq!(p.state, EntityState::ReadyToMove);
    let mut q = movable("LIZ", EntityKind::TimePlayer, EntityState::Moving);
    assert_eq!(RoutingSystem::route_ball(&mut r, &mut q), BallRoute::Drop);
}

#[test]
fn hit_player_stays_down_then_gets_up() {
    let mut p = movable("WAN", EntityKind::SpacePlayer, EntityState::Hit);
    let mut r = route(0, RouteAction::Hit);
    for _ in 0..20 {
        assert_eq!(RoutingSystem::route_hit(&mut r, &mut p), HitRoute::StayDown);
        assert_eq!(p.state, EntityState::Hit);
    }
    assert_eq!(r.counter, 20);
    assert_eq!(RoutingSystem::route_hit(&mut r, &mut p), HitRoute::GetUp);
    assert_eq!(p.state, EntityState::ReadyToMove);
}

#[test]
fn stalling_counter() {
    let mut r = route(3, RouteAction::Move);
    assert!(RoutingSystem::track_stalling_player(&mut r, true));
    assert_eq!(r.counter, 4);
    assert!(RoutingSystem::track_stalling_player(&mut r, false));
    assert_eq!(r.counter, 0);
    assert!(!RoutingSystem::track_stalling_player(&mut r, false));
}

#[test]
fn player_at_wall_stops() {
    let mut p = movable("WAN", EntityKind::SpacePlayer, EntityState::Moving);
    let r = route(0, RouteAction::Move);
    assert_eq!(RoutingSystem::stop_player_at_wall(Some(&r), &mut p), (true, true));
    assert_eq!(p.state, EntityState::ReadyToMove);
    let t = route(0, RouteAction::Throw);
    let mut q = movable("WAN", EntityKind::SpacePlayer, EntityState::Throwing);
    assert_eq!(RoutingSystem::stop_player_at_wall(Some(&t), &mut q), (false, false));
    assert_eq!(RoutingSystem::stop_player_at_wall(None, &mut q), (false, false));
    assert!(RoutingSystem::drops_route_at_wall(Some(&r)));
    assert!(!RoutingSystem::drops_route_at_wall(Some(&t)));
    assert!(!RoutingSystem::drops_route_at_wall(None));
}

#[test]
fn spawn_actions() {
    assert_eq!(SpawnSystem::spawn_action(&movable("WAN", EntityKind::SpacePlayer, EntityState::Spawning)), SpawnAction::SpawnPlayer);
    assert_eq!(SpawnSystem::spawn_action(&movable("Ball1", EntityKind::Ball, EntityState::Spawning)), SpawnAction::SpawnBall);
    assert_eq!(SpawnSystem::spawn_action(&movable("LIZ", EntityKind::TimePlayer, EntityState::Despawning)), SpawnAction::DespawnPlayer);
    assert_eq!(SpawnSystem::spawn_action(&movable("Ball1", EntityKind::Ball, EntityState::Despawning)), SpawnAction::DespawnBall);
    assert_eq!(SpawnSystem::spawn_action(&movable("Ball1", EntityKind::Ball, EntityState::Moving)), SpawnAction::Nothing);
    let mut b = movable("Ball1", EntityKind::Ball, EntityState::Spawning);
    SpawnSystem::spawn_ball(&mut b);
    assert_eq!(b.state, EntityState::Moving);
}

#[test]
fn reset_player_states() {
    let mut p = movable("WAN", EntityKind::SpacePlayer, EntityState::Spawning);
    assert!(!SpawnSystem::reset_player(&mut p, &game(GameState::Waiting), true));
    assert_eq!(p.state, EntityState::Standby);
    assert!(SpawnSystem::reset_player(&mut p, &game(GameState::GameStarted), true));
    assert_eq!(p.state, EntityState::ReadyToThrow);
    assert!(!SpawnSystem::reset_player(&mut p, &game(GameState::TimeScored), false));
    assert_eq!(p.state, EntityState::ReadyToMove);
}

#[test]
fn related_entity_of_despawned() {
    assert_eq!(SpawnSystem::related_entity_action(&movable("WAN", EntityKind::SpacePlayer, EntityState::ReadyToThrow)), RelatedAction::Release);
    assert_eq!(SpawnSystem::related_entity_action(&movable("Ball3", EntityKind::Ball, EntityState::ReadyToThrow)), RelatedAction::RemoveBall);
    assert_eq!(SpawnSystem::related_entity_action(&movable("WAN", EntityKind::SpacePlayer, EntityState::Moving)), RelatedAction::Keep);
    let mut p = movable("WAN", EntityKind::SpacePlayer, EntityState::ReadyToThrow);
    SpawnSystem::release(&mut p);
    assert_eq!(p.state, EntityState::ReadyToMove);
}

#[test]
fn new_match_places_players() {
    let movables = vec![
        movable("Ball1", EntityKind::Ball, EntityState::Moving),
        movable("WAN", EntityKind::SpacePlayer, EntityState::Moving),
        movable("LIZ", EntityKind::TimePlayer, EntityState::Hit),
        movable("FOX", EntityKind::SpacePlayer, EntityState::Standby),
        movable("ORI", EntityKind::TimePlayer, EntityState::Standby),
    ];
    let mut g = game(GameState::Reset);
    let plan = SpawnSystem::reset_movables_for_new_match_if_needed(&mut g, &movables).unwrap();
    assert_eq!(g.state, GameState::Waiting);
    assert_eq!(
        plan,
        vec![
            MatchSetup::DespawnBall,
            MatchSetup::PlacePlayer { side: Side::Space, slot: 0 },
            MatchSetup::PlacePlayer { side: Side::Time, slot: 0 },
            MatchSetup::PlacePlayer { side: Side::Space, slot: 1 },
            MatchSetup::PlacePlayer { side: Side::Time, slot: 1 },
        ]
    );
    let mut w = game(GameState::Waiting);
    assert!(SpawnSystem::reset_movables_for_new_match_if_needed(&mut w, &movables).is_none());
    assert_eq!(w.state, GameState::Waiting);
}

#[test]
fn impact_results() {
    assert_eq!(ScoringSystem::determine_impact_result(EntityState::Moving, ImpactSpeed::Catchable), ImpactResult::Catch);
    assert_eq!(ScoringSystem::determine_impact_result(EntityState::Standby, ImpactSpeed::Unstoppable), ImpactResult::Hit);
    assert_eq!(ScoringSystem::determine_impact_result(EntityState::ReadyToMove, ImpactSpeed::Uncertain { caught: true }), ImpactResult::Catch);
    assert_eq!(ScoringSystem::determine_impact_result(EntityState::ReadyToMove, ImpactSpeed::Uncertain { caught: false }), ImpactResult::Hit);
    assert_eq!(ScoringSystem::determine_impact_result(EntityState::ReadyToThrow, ImpactSpeed::Catchable), ImpactResult::Hit);
    assert_eq!(ScoringSystem::determine_impact_result(EntityState::Throwing, ImpactSpeed::Catchable), ImpactResult::Hit);
}

#[test]
fn a_ball_counts_once_per_tick() {
    let mut handled = HandledBalls::new();
    let ball = String::from("Ball1");
    let first = ScoringSystem::handle_ball_collision(&mut handled, &ball, EntityState::Moving, ImpactSpeed::Unstoppable, false);
    assert_eq!(first, CollisionResponse::Hit);
    assert!(handled.contains(&ball));
    let second = ScoringSystem::handle_ball_collision(&mut handled, &ball, EntityState::Moving, ImpactSpeed::Catchable, false);
    assert_eq!(second, CollisionResponse::Bump);
    let other = String::from("Ball2");
    assert_eq!(
        ScoringSystem::handle_ball_collision(&mut handled, &other, EntityState::Moving, ImpactSpeed::Catchable, true),
        CollisionResponse::Catch
    );
    let third = String::from("Ball3");
    assert_eq!(
        ScoringSystem::handle_ball_collision(&mut handled, &third, EntityState::Moving, ImpactSpeed::Unstoppable, true),
        CollisionResponse::Bump
    );
    assert!(!handled.contains(&third));
}

#[test]
fn catch_readies_both() {
    let mut p = movable("WAN", EntityKind::SpacePlayer, EntityState::Moving);
    let mut b = movable("Ball1", EntityKind::Ball, EntityState::Moving);
    ScoringSystem::catch(&mut p, &mut b);
    assert_eq!(p.state, EntityState::ReadyToThrow);
    assert_eq!(b.state, EntityState::ReadyToThrow);
}

#[test]
fn hit_scores_for_other_team() {
    let mut g = game(GameState::GameStarted);
    let mut p = movable("WAN", EntityKind::SpacePlayer, EntityState::Moving);
    let down = ScoringSystem::score_hit(&mut g, &mut p);
    assert_eq!((g.space_score, g.time_score), (4, 8));
    assert_eq!(g.state, GameState::TimeScored);
    assert_eq!(p.state, EntityState::Hit);
    assert_eq!(down.name, "WAN");
    assert_eq!(down.counter, 0);
    assert_eq!(down.action, RouteAction::Hit);
    let mut q = movable("LIZ", EntityKind::TimePlayer, EntityState::Moving);
    ScoringSystem::score_hit(&mut g, &mut q);
    assert_eq!((g.space_score, g.time_score), (5, 8));
    assert_eq!(g.state, GameState::SpaceScored);
}

#[test]
fn stat_points_in_halves() {
    let mut s = Stat { name: String::from("WAN"), half_points: 0 };
    ScoringSystem::score_point_for(&mut s);
    assert_eq!(s.half_points, 2);
    ScoringSystem::detract_point_from(&mut s);
    assert_eq!(s.half_points, 1);
    let mut top = Stat { name: String::from("X"), half_points: i32::MAX - 1 };
    ScoringSystem::score_point_for(&mut top);
    assert_eq!(top.half_points, i32::MAX);
    let mut bottom = Stat { name: String::from("Y"), half_points: i32::MIN };
    ScoringSystem::detract_point_from(&mut bottom);
    assert_eq!(bottom.half_points, i32::MIN);
}

#[test]
fn handled_balls_hold_each_name_once() {
    let mut handled = HandledBalls::new();
    let ball = String::from("Ball1");
    assert!(!handled.contains(&ball));
    handled.insert(ball.clone());
    handled.insert(ball.clone());
    assert!(handled.contains(&ball));
    handled.insert(String::from("Ball2"));
    assert!(handled.contains(&String::from("Ball2")));
    assert!(!handled.contains(&String::from("Ball3")));
}
