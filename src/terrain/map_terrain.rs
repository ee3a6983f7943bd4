//! The terrain state: the current chunk, the tracked position and the seed
//! of the noise, and the decisions taken as the tracked position moves.

use vstd::prelude::*;
use rand::Rng;
use crate::grid::{CellKey, VoxelGrid};
use crate::terrain::chunk::{
    Chunk,
    CustomBlock,
    CHUNK_REF,
    area,
    generated_map,
    height_column,
    needs_regeneration,
    with_custom,
};

verus! {

/// Seeds are drawn from `[0, SEED_BOUND)`.
pub const SEED_BOUND: i64 = 75000000;

/// Relies on rand's `thread_rng().gen_range(0..n)`: a value drawn from
/// `[0, n)`, which is not empty here.
#[verifier::external_body]
fn random_seed() -> (r: i64)
    ensures
        0 <= r < SEED_BOUND,
{
    rand::thread_rng().gen_range(0..SEED_BOUND)
}

/// The state of the terrain.
pub struct MapTerrain {
    pub block: i64,
    pub seed: i64,
    pub position: CellKey,
    pub current_area: Chunk,
}

impl MapTerrain {
    /// The current chunk can be generated: its bounds are a non-empty
    /// rectangle whose low edges lie above `i64::MIN`.
    pub open spec fn wf(&self) -> bool {
        &&& self.current_area.wf()
        &&& self.current_area.min_x > i64::MIN
        &&& self.current_area.min_z > i64::MIN
    }

    /// A terrain with a fresh random seed and the chunk around the origin.
    pub fn new() -> (r: MapTerrain)
        ensures
            r.wf(),
            r.block == 0,
            0 <= r.seed < SEED_BOUND,
            r.position == (0i64, 0i64, 0i64),
            r.current_area.min_x == -CHUNK_REF && r.current_area.max_x == CHUNK_REF,
            r.current_area.min_z == -CHUNK_REF && r.current_area.max_z == CHUNK_REF,
            r.current_area.map_point@.len() == 0,
            r.current_area.placed_blocks@.len() == 0,
    {
        MapTerrain { block: 0, seed: random_seed(), position: (0, 0, 0), current_area: Chunk::new() }
    }

    /// Generates the current chunk into the grid from the heights of its columns.
    pub fn create_chunk(&mut self, grid: &mut VoxelGrid, heights: &Vec<i64>)
        requires
            old(self).wf(),
            heights@.len() == area(
                old(self).current_area.min_x,
                old(self).current_area.max_x,
                old(self).current_area.min_z,
                old(self).current_area.max_z,
            ),
            forall|i: int| 0 <= i < heights@.len() ==> #[trigger] heights@[i] < i64::MAX,
        ensures
            final(self).wf(),
            final(self).current_area.map_point@ == height_column(
                old(self).current_area.min_x,
                old(self).current_area.max_x,
                old(self).current_area.min_z,
                old(self).current_area.max_z,
                heights@,
            ),
            final(grid)@ == generated_map(
                old(self).current_area.min_x,
                old(self).current_area.max_x,
                old(self).current_area.min_z,
                old(self).current_area.max_z,
                heights@,
                old(self).current_area.placed_blocks@,
            ),
            final(self).current_area.placed_blocks@ == old(self).current_area.placed_blocks@,
            final(self).current_area.min_x == old(self).current_area.min_x,
            final(self).current_area.max_x == old(self).current_area.max_x,
            final(self).current_area.min_z == old(self).current_area.min_z,
            final(self).current_area.max_z == old(self).current_area.max_z,
            final(self).block == old(self).block,
            final(self).seed == old(self).seed,
            final(self).position == old(self).position,
    {
        self.current_area.generate_chunk(grid, heights);
    }

    /// Generates the current chunk into the grid and writes its custom
    /// blocks once more.
    pub fn update_chunk(&mut self, grid: &mut VoxelGrid, heights: &Vec<i64>)
        requires
            old(self).wf(),
            heights@.len() == area(
                old(self).current_area.min_x,
                old(self).current_area.max_x,
                old(self).current_area.min_z,
                old(self).current_area.max_z,
            ),
            forall|i: int| 0 <= i < heights@.len() ==> #[trigger] heights@[i] < i64::MAX,
        ensures
            final(self).wf(),
            final(self).current_area.map_point@ == height_column(
                old(self).current_area.min_x,
                old(self).current_area.max_x,
                old(self).current_area.min_z,
                old(self).current_area.max_z,
                heights@,
            ),
            final(grid)@ == with_custom(
                generated_map(
                    old(self).current_area.min_x,
                    old(self).current_area.max_x,
                    old(self).current_area.min_z,
                    old(self).current_area.max_z,
                    heights@,
                    old(self).current_area.placed_blocks@,
                ),
                old(self).current_area.placed_blocks@,
                old(self).current_area.min_x,
                old(self).current_area.max_x,
                old(self).current_area.min_z,
                old(self).current_area.max_z,
            ),
            final(self).current_area.placed_blocks@ == old(self).current_area.placed_blocks@,
            final(self).current_area.min_x == old(self).current_area.min_x,
            final(self).current_area.max_x == old(self).current_area.max_x,
            final(self).current_area.min_z == old(self).current_area.min_z,
            final(self).current_area.max_z == old(self).current_area.max_z,
            final(self).block == old(self).block,
            final(self).seed == old(self).seed,
            final(self).position == old(self).position,
    {
        self.current_area.generate_chunk(grid, heights);
        self.current_area.redraw(grid);
    }

    /// Adds a custom block of type `id` at `position` and writes the custom
    /// blocks into the grid.
    pub fn place_block(&mut self, grid: &mut VoxelGrid, position: CellKey, id: i64)
        ensures
            final(self).current_area.placed_blocks@ == old(self).current_area.placed_blocks@.push(
                CustomBlock { position, type_block: id },
            ),
            final(grid)@ == with_custom(
                old(grid)@,
                final(self).current_area.placed_blocks@,
                old(self).current_area.min_x,
                old(self).current_area.max_x,
                old(self).current_area.min_z,
                old(self).current_area.max_z,
            ),
            final(self).current_area.min_x == old(self).current_area.min_x,
            final(self).current_area.max_x == old(self).current_area.max_x,
            final(self).current_area.min_z == old(self).current_area.min_z,
            final(self).current_area.max_z == old(self).current_area.max_z,
            final(self).current_area.map_point@ == old(self).current_area.map_point@,
            final(self).block == old(self).block,
            final(self).seed == old(self).seed,
            final(self).position == old(self).position,
    {
        self.current_area.insert_block(position, id);
        self.current_area.redraw(grid);
    }

    /// Records the tracked position, at cell `position`, in grid cell column
    /// `(tile_x, tile_z)`. Where the position has come closer than the margin
    /// to an edge of the current chunk, the chunk is replaced by the one
    /// centred on the tile, with the same custom blocks and no height column
    /// yet, and `true` is returned: the caller then generates it.
    pub fn track_position(&mut self, position: CellKey, tile_x: i64, tile_z: i64) -> (shifted: bool)
        requires
            i64::MIN + CHUNK_REF < tile_x <= i64::MAX - CHUNK_REF,
            i64::MIN + CHUNK_REF < tile_z <= i64::MAX - CHUNK_REF,
        ensures
            shifted == needs_regeneration(
                old(self).current_area.min_x,
                old(self).current_area.max_x,
                old(self).current_area.min_z,
                old(self).current_area.max_z,
                position.0,
                position.2,
            ),
            shifted ==> {
                &&& final(self).wf()
                &&& final(self).current_area.min_x == tile_x - CHUNK_REF
                &&& final(self).current_area.max_x == tile_x + CHUNK_REF
                &&& final(self).current_area.min_z == tile_z - CHUNK_REF
                &&& final(self).current_area.max_z == tile_z + CHUNK_REF
                &&& final(self).current_area.map_point@.len() == 0
            },
            !shifted ==> {
                &&& final(self).current_area.min_x == old(self).current_area.min_x
                &&& final(self).current_area.max_x == old(self).current_area.max_x
                &&& final(self).current_area.min_z == old(self).current_area.min_z
                &&& final(self).current_area.max_z == old(self).current_area.max_z
                &&& final(self).current_area.map_point@ == old(self).current_area.map_point@
                &&& (old(self).wf() ==> final(self).wf())
            },
            final(self).current_area.placed_blocks@ == old(self).current_area.placed_blocks@,
            final(self).position == position,
            final(self).seed == old(self).seed,
            final(self).block == old(self).block,
    {
        let shifted = self.current_area.needs_generate_chunks(position.0, position.2);
        if shifted {
            self.current_area = self.current_area.shift_chunk(tile_x, tile_z);
        }
        self.position = position;
        shifted
    }
}

} // verus!
