//! Simulation core of a small top-down survival game: a tile map with
//! axis-separated collision, zombie steering, vehicle assembly, timed
//! pickups and traps, and the per-frame interaction pass that ties them
//! together. All positions are fixed-point integers (see `units`).

pub mod units;
pub mod rect;
mod random;
pub mod backdrop;
pub mod map;
pub mod sprite;
pub mod common;
pub mod zombie;
pub mod vehicle;
pub mod parts;
pub mod powerups;
pub mod traps;
pub mod goal;
pub mod player;
pub mod game;
