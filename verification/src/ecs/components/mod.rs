pub mod clock;
pub mod game;
pub mod identifiable;
pub mod movable;
pub mod pingable;
pub mod routable;
pub mod stat;
