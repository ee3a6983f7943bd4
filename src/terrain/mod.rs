//! Terrain generation: chunks of floor and wall tiles, and the state that
//! streams them as a tracked position moves.

pub mod chunk;
pub mod map_terrain;
