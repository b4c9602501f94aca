pub mod physics_engine;
