//! Simulation core of a small arena shooter: a player moves, fires
//! projectiles at enemies that spawn in batches, collects items that make it
//! grow, and wins at a score threshold or dies on touching an enemy.
pub mod combat;
pub mod enemy;
pub mod game;
pub mod geom;
pub mod item;
pub mod player;
mod rng;
pub mod weapon;
