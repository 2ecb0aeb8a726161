//! Core rules of a small real-time role-playing simulation: combat statistics
//! and levelling, combat resolution, the monster behaviour state machine and
//! the population-capped monster spawner.

pub mod stats;
pub mod monster_type;
pub mod timer;
pub mod geometry;
pub mod combat;
pub mod random;
pub mod monster;
pub mod spawner;
pub mod encounter;
pub mod world;
