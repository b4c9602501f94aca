pub mod game_system;
pub mod movement_system;
pub mod routing_system;
pub mod scoring_system;
pub mod spawn_system;
