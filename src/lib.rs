//! Procedural voxel terrain: a sparse cell grid, chunk generation with
//! floor and wall tiles, custom block overrides and chunk streaming.

pub mod grid;
pub mod player;
pub mod terrain;
