//! A chunk of terrain: its bounds, its height column, the custom blocks placed
//! in it, and how it writes floor, wall and custom cells into a grid.

use vstd::prelude::*;
use vstd::arithmetic::div_mod::{
    lemma_fundamental_div_mod,
    lemma_fundamental_div_mod_converse,
    lemma_mod_bound,
};
use crate::grid::{CellKey, VoxelGrid, item_in, EMPTY_ITEM};

verus! {

/// Half the side of a chunk, in cells.
pub const CHUNK_REF: i64 = 32;

/// How close to an edge of the chunk a position may come before the chunk
/// is regenerated around it.
pub const REGENERATION_MARGIN: i64 = 16;

/// The item written at every floor cell.
pub const FLOOR_ITEM: i64 = 0;

/// A block placed by hand, kept across regeneration.
#[derive(Clone, Copy, Debug, PartialEq, Eq)]
pub struct CustomBlock {
    pub position: CellKey,
    pub type_block: i64,
}

/// A rectangular window `[min_x, max_x) x [min_z, max_z)` of the world.
pub struct Chunk {
    pub min_x: i64,
    pub max_x: i64,
    pub min_z: i64,
    pub max_z: i64,
    pub map_point: Vec<CellKey>,
    pub placed_blocks: Vec<CustomBlock>,
}

/// The number of columns of the bounds.
pub open spec fn area(min_x: i64, max_x: i64, min_z: i64, max_z: i64) -> int {
    (max_x - min_x) * (max_z - min_z)
}

/// The `i`-th floor point of the bounds: columns run over `x` outside and
/// over `z` inside, and the height of a column is taken from `heights`.
pub open spec fn column_point(min_x: i64, min_z: i64, max_z: i64, heights: Seq<i64>, i: int) -> CellKey {
    let w = max_z - min_z;
    ((min_x + i / w) as i64, heights[i], (min_z + i % w) as i64)
}

/// The height column of the bounds for the given heights, one per column.
pub open spec fn height_column(min_x: i64, max_x: i64, min_z: i64, max_z: i64, heights: Seq<i64>) -> Seq<CellKey> {
    Seq::new(
        area(min_x, max_x, min_z, max_z) as nat,
        |i: int| column_point(min_x, min_z, max_z, heights, i),
    )
}

/// The grid `m` with a floor cell written at each point, in order.
pub open spec fn with_floor(m: Map<CellKey, (i64, i64)>, pts: Seq<CellKey>) -> Map<CellKey, (i64, i64)>
    decreases pts.len(),
{
    if pts.len() == 0 {
        m
    } else {
        with_floor(m, pts.drop_last()).insert(pts.last(), (FLOOR_ITEM, 0))
    }
}

/// How a neighbour cell counts for wall selection: 0 open, 1 closed, 2 neither.
pub open spec fn side_class(v: i64) -> int {
    if v == EMPTY_ITEM {
        0
    } else if 0 <= v <= 10 {
        1
    } else {
        2
    }
}

/// The wall tile `(item, orientation)` for the classes of the cells at `-x`,
/// `+x`, `-z` and `+z`, or `None` where no wall is written.
pub open spec fn wall_tile(ax: int, px: int, az: int, pz: int) -> Option<(i64, i64)> {
    if ax == 1 && px == 0 && az == 0 && pz == 0 {
        Some((3, 19))
    } else if ax == 0 && px == 1 && az == 0 && pz == 0 {
        Some((3, 16))
    } else if ax == 0 && px == 0 && az == 1 && pz == 0 {
        Some((3, 4))
    } else if ax == 0 && px == 0 && az == 0 && pz == 1 {
        Some((3, 0))
    } else if ax == 1 && px == 1 && az == 0 && pz == 0 {
        Some((2, 0))
    } else if ax == 1 && px == 0 && az == 1 && pz == 0 {
        Some((2, 4))
    } else if ax == 1 && px == 0 && az == 0 && pz == 1 {
        Some((2, 0))
    } else if ax == 0 && px == 1 && az == 1 && pz == 0 {
        Some((2, 5))
    } else if ax == 0 && px == 1 && az == 0 && pz == 1 {
        Some((2, 1))
    } else if ax == 0 && px == 0 && az == 1 && pz == 1 {
        Some((2, 0))
    } else if ax == 0 && px == 1 && az == 1 && pz == 1 {
        Some((1, 1))
    } else if ax == 1 && px == 0 && az == 1 && pz == 1 {
        Some((1, 0))
    } else if ax == 1 && px == 1 && az == 0 && pz == 1 {
        Some((1, 13))
    } else if ax == 1 && px == 1 && az == 1 && pz == 0 {
        Some((1, 5))
    } else if ax == 0 && px == 0 && az == 0 && pz == 0 {
        Some((4, 0))
    } else {
        None
    }
}

/// The wall tile that the grid `m` calls for at the floor point `p`: none
/// where a cell one level up beside it is taken, else the tile of its four
/// neighbours on its own level.
pub open spec fn wall_for(m: Map<CellKey, (i64, i64)>, p: CellKey) -> Option<(i64, i64)> {
    let (x, y, z) = p;
    let up = (y + 1) as i64;
    if item_in(m, ((x - 1) as i64, up, z)) == EMPTY_ITEM
        && item_in(m, ((x + 1) as i64, up, z)) == EMPTY_ITEM
        && item_in(m, (x, up, (z - 1) as i64)) == EMPTY_ITEM
        && item_in(m, (x, up, (z + 1) as i64)) == EMPTY_ITEM
    {
        wall_tile(
            side_class(item_in(m, ((x - 1) as i64, y, z))),
            side_class(item_in(m, ((x + 1) as i64, y, z))),
            side_class(item_in(m, (x, y, (z - 1) as i64))),
            side_class(item_in(m, (x, y, (z + 1) as i64))),
        )
    } else {
        None
    }
}

/// The grid `m0` with the walls written that `m0` calls for at the points.
pub open spec fn with_walls(m0: Map<CellKey, (i64, i64)>, pts: Seq<CellKey>) -> Map<CellKey, (i64, i64)>
    decreases pts.len(),
{
    if pts.len() == 0 {
        m0
    } else {
        let prev = with_walls(m0, pts.drop_last());
        match wall_for(m0, pts.last()) {
            Some(t) => prev.insert(pts.last(), t),
            None => prev,
        }
    }
}

/// Whether the custom block stands inside the half-open bounds `[min_x, max_x) x [min_z, max_z)`.
pub open spec fn block_in_bounds(b: CustomBlock, min_x: i64, max_x: i64, min_z: i64, max_z: i64) -> bool {
    min_x <= b.position.0 < max_x && min_z <= b.position.2 < max_z
}

/// The grid `m` with the custom blocks inside the bounds written, in order.
pub open spec fn with_custom(
    m: Map<CellKey, (i64, i64)>,
    blocks: Seq<CustomBlock>,
    min_x: i64,
    max_x: i64,
    min_z: i64,
    max_z: i64,
) -> Map<CellKey, (i64, i64)>
    decreases blocks.len(),
{
    if blocks.len() == 0 {
        m
    } else {
        let prev = with_custom(m, blocks.drop_last(), min_x, max_x, min_z, max_z);
        let b = blocks.last();
        if block_in_bounds(b, min_x, max_x, min_z, max_z) {
            prev.insert(b.position, (b.type_block, 0))
        } else {
            prev
        }
    }
}

/// Whether a position at `(x, z)` is closer than the margin to an edge.
pub open spec fn needs_regeneration(min_x: i64, max_x: i64, min_z: i64, max_z: i64, x: i64, z: i64) -> bool {
    x - min_x < REGENERATION_MARGIN || max_x - x < REGENERATION_MARGIN
        || z - min_z < REGENERATION_MARGIN || max_z - z < REGENERATION_MARGIN
}

/// Whether the cells around `p` that wall selection reads have coordinates
/// that fit in an `i64`.
pub open spec fn point_in_range(p: CellKey) -> bool {
    i64::MIN < p.0 < i64::MAX && p.1 < i64::MAX && i64::MIN < p.2 < i64::MAX
}

/// The grid that generating the bounds with the given heights and custom
/// blocks leaves: floors, then walls, then custom blocks.
pub open spec fn generated_map(
    min_x: i64,
    max_x: i64,
    min_z: i64,
    max_z: i64,
    heights: Seq<i64>,
    blocks: Seq<CustomBlock>,
) -> Map<CellKey, (i64, i64)> {
    let col = height_column(min_x, max_x, min_z, max_z, heights);
    with_custom(with_walls(with_floor(Map::empty(), col), col), blocks, min_x, max_x, min_z, max_z)
}

/// Every point of `pts` holds a floor cell after the floor is written.
proof fn lemma_floor_cells(m: Map<CellKey, (i64, i64)>, pts: Seq<CellKey>)
    ensures
        forall|j: int|
            0 <= j < pts.len() ==> #[trigger] with_floor(m, pts).contains_key(pts[j])
                && with_floor(m, pts)[pts[j]] == (FLOOR_ITEM, 0i64),
    decreases pts.len(),
{
    if pts.len() > 0 {
        lemma_floor_cells(m, pts.drop_last());
        assert forall|j: int| 0 <= j < pts.len() implies #[trigger] with_floor(m, pts).contains_key(pts[j])
            && with_floor(m, pts)[pts[j]] == (FLOOR_ITEM, 0i64) by {
            let q = pts.drop_last();
            assert(with_floor(m, pts) == with_floor(m, q).insert(pts.last(), (FLOOR_ITEM, 0i64)));
            if j < pts.len() - 1 {
                assert(q[j] == pts[j]);
                assert(with_floor(m, q).contains_key(q[j]));
            }
        }
    }
}

/// Writing walls at cells that are already closed keeps the class of every cell.
proof fn lemma_walls_keep_classes(m0: Map<CellKey, (i64, i64)>, pts: Seq<CellKey>, k: CellKey)
    requires
        forall|j: int| 0 <= j < pts.len() ==> side_class(item_in(m0, #[trigger] pts[j])) == 1,
    ensures
        side_class(item_in(with_walls(m0, pts), k)) == side_class(item_in(m0, k)),
    decreases pts.len(),
{
    if pts.len() > 0 {
        let q = pts.drop_last();
        assert forall|j: int| 0 <= j < q.len() implies side_class(item_in(m0, #[trigger] q[j])) == 1 by {
            assert(q[j] == pts[j]);
        }
        lemma_walls_keep_classes(m0, q, k);
        assert(side_class(item_in(m0, pts[pts.len() - 1])) == 1);
    }
}

/// A height column holds one point per column of the bounds; each point
/// lies inside the bounds and has the height given for its column, so heights
/// in `[lo, hi]` give points with `y` in `[lo, hi]`.
pub proof fn lemma_height_column_shape(min_x: i64, max_x: i64, min_z: i64, max_z: i64, heights: Seq<i64>)
    requires
        min_x < max_x,
        min_z < max_z,
        heights.len() == area(min_x, max_x, min_z, max_z),
    ensures
        height_column(min_x, max_x, min_z, max_z, heights).len() == (max_x - min_x) * (max_z - min_z),
        forall|i: int|
            0 <= i < heights.len() ==> {
                let p = #[trigger] height_column(min_x, max_x, min_z, max_z, heights)[i];
                &&& min_x <= p.0 < max_x
                &&& p.1 == heights[i]
                &&& min_z <= p.2 < max_z
            },
        (forall|i: int| 0 <= i < heights.len() ==> 0 <= #[trigger] heights[i] <= 24) ==> forall|i: int|
            0 <= i < heights.len() ==> 0 <= #[trigger] height_column(min_x, max_x, min_z, max_z, heights)[i].1 <= 24,
{
    let wx: int = max_x - min_x;
    let wz: int = max_z - min_z;
    assert(wx * wz > 0) by (nonlinear_arith)
        requires
            wx > 0,
            wz > 0,
    ;
    assert forall|i: int| 0 <= i < heights.len() implies {
        let p = #[trigger] height_column(min_x, max_x, min_z, max_z, heights)[i];
        &&& min_x <= p.0 < max_x
        &&& p.1 == heights[i]
        &&& min_z <= p.2 < max_z
    } by {
        let q = i / wz;
        let r = i % wz;
        lemma_fundamental_div_mod(i, wz);
        lemma_mod_bound(i, wz);
        assert(0 <= q < wx) by (nonlinear_arith)
            requires
                i == wz * q + r,
                0 <= r < wz,
                0 <= i < wx * wz,
        ;
    }
}

/// Every point of a height column of bounds whose low edges lie above
/// `i64::MIN`, with heights below `i64::MAX`, is in range for wall selection.
proof fn lemma_height_column_in_range(min_x: i64, max_x: i64, min_z: i64, max_z: i64, heights: Seq<i64>)
    requires
        min_x < max_x,
        min_z < max_z,
        min_x > i64::MIN,
        min_z > i64::MIN,
        heights.len() == area(min_x, max_x, min_z, max_z),
        forall|i: int| 0 <= i < heights.len() ==> #[trigger] heights[i] < i64::MAX,
    ensures
        forall|j: int|
            0 <= j < heights.len() ==> point_in_range(
                #[trigger] height_column(min_x, max_x, min_z, max_z, heights)[j],
            ),
{
    lemma_height_column_shape(min_x, max_x, min_z, max_z, heights);
    assert forall|j: int| 0 <= j < heights.len() implies point_in_range(
        #[trigger] height_column(min_x, max_x, min_z, max_z, heights)[j],
    ) by {
        assert(heights[j] < i64::MAX);
    }
}

/// Regeneration is due once a position comes within `REGENERATION_MARGIN - 1`
/// cells of an edge, and not while it keeps `REGENERATION_MARGIN + 1` cells
/// or more from every edge.
pub proof fn lemma_regeneration_threshold(min_x: i64, max_x: i64, min_z: i64, max_z: i64, x: i64, z: i64)
    ensures
        (x - min_x == REGENERATION_MARGIN - 1 || max_x - x == REGENERATION_MARGIN - 1
            || z - min_z == REGENERATION_MARGIN - 1 || max_z - z == REGENERATION_MARGIN - 1)
            ==> needs_regeneration(min_x, max_x, min_z, max_z, x, z),
        (x - min_x >= REGENERATION_MARGIN + 1 && max_x - x >= REGENERATION_MARGIN + 1
            && z - min_z >= REGENERATION_MARGIN + 1 && max_z - z >= REGENERATION_MARGIN + 1)
            ==> !needs_regeneration(min_x, max_x, min_z, max_z, x, z),
{
}

/// Writing the custom blocks changes no cell but those of the blocks inside
/// the bounds: floor and wall cells elsewhere keep their contents.
pub proof fn lemma_redraw_keeps_other_cells(
    m: Map<CellKey, (i64, i64)>,
    blocks: Seq<CustomBlock>,
    min_x: i64,
    max_x: i64,
    min_z: i64,
    max_z: i64,
    k: CellKey,
)
    requires
        forall|i: int|
            0 <= i < blocks.len() ==> !(#[trigger] blocks[i].position == k
                && block_in_bounds(blocks[i], min_x, max_x, min_z, max_z)),
    ensures
        with_custom(m, blocks, min_x, max_x, min_z, max_z).contains_key(k) == m.contains_key(k),
        m.contains_key(k) ==> with_custom(m, blocks, min_x, max_x, min_z, max_z)[k] == m[k],
    decreases blocks.len(),
{
    if blocks.len() > 0 {
        let q = blocks.drop_last();
        assert forall|i: int| 0 <= i < q.len() implies !(#[trigger] q[i].position == k
            && block_in_bounds(q[i], min_x, max_x, min_z, max_z)) by {
            assert(q[i] == blocks[i]);
        }
        lemma_redraw_keeps_other_cells(m, q, min_x, max_x, min_z, max_z, k);
        assert(!(blocks[blocks.len() - 1].position == k
            && block_in_bounds(blocks[blocks.len() - 1], min_x, max_x, min_z, max_z)));
    }
}

/// A custom block inside the bounds that no later block in the list covers
/// holds its type, with orientation 0, once the custom blocks are written.
pub proof fn lemma_redraw_writes_block(
    m: Map<CellKey, (i64, i64)>,
    blocks: Seq<CustomBlock>,
    min_x: i64,
    max_x: i64,
    min_z: i64,
    max_z: i64,
    i: int,
)
    requires
        0 <= i < blocks.len(),
        block_in_bounds(blocks[i], min_x, max_x, min_z, max_z),
        forall|j: int|
            i < j < blocks.len() ==> !(#[trigger] blocks[j].position == blocks[i].position
                && block_in_bounds(blocks[j], min_x, max_x, min_z, max_z)),
    ensures
        with_custom(m, blocks, min_x, max_x, min_z, max_z).contains_key(blocks[i].position),
        with_custom(m, blocks, min_x, max_x, min_z, max_z)[blocks[i].position] == (blocks[i].type_block, 0i64),
    decreases blocks.len(),
{
    if i < blocks.len() - 1 {
        let q = blocks.drop_last();
        assert forall|j: int| i < j < q.len() implies !(#[trigger] q[j].position == q[i].position
            && block_in_bounds(q[j], min_x, max_x, min_z, max_z)) by {
            assert(q[j] == blocks[j]);
        }
        lemma_redraw_writes_block(m, q, min_x, max_x, min_z, max_z, i);
        assert(!(blocks[blocks.len() - 1].position == blocks[i].position
            && block_in_bounds(blocks[blocks.len() - 1], min_x, max_x, min_z, max_z)));
    }
}

/// Generation depends on nothing but the bounds, the column heights and the
/// custom blocks: the same inputs give the same height column and grid.
pub proof fn lemma_generation_deterministic(a: &Chunk, b: &Chunk, ha: Seq<i64>, hb: Seq<i64>)
    requires
        a.min_x == b.min_x && a.max_x == b.max_x,
        a.min_z == b.min_z && a.max_z == b.max_z,
        a.placed_blocks@ == b.placed_blocks@,
        ha == hb,
    ensures
        height_column(a.min_x, a.max_x, a.min_z, a.max_z, ha)
            == height_column(b.min_x, b.max_x, b.min_z, b.max_z, hb),
        generated_map(a.min_x, a.max_x, a.min_z, a.max_z, ha, a.placed_blocks@)
            == generated_map(b.min_x, b.max_x, b.min_z, b.max_z, hb, b.placed_blocks@),
{
}

/// The class of a cell's item for wall selection.
fn side_class_of(v: i64) -> (r: u8)
    ensures
        r as int == side_class(v),
{
    if v == EMPTY_ITEM {
        0
    } else if 0 <= v && v <= 10 {
        1
    } else {
        2
    }
}

/// The wall tile `(item, orientation)` for the items found at `-x`, `+x`,
/// `-z` and `+z` of a floor cell, or `None` where no wall is written.
pub fn wall_tile_for(ant_x: i64, pos_x: i64, ant_z: i64, pos_z: i64) -> (r: Option<(i64, i64)>)
    ensures
        r == wall_tile(side_class(ant_x), side_class(pos_x), side_class(ant_z), side_class(pos_z)),
{
    let ax = side_class_of(ant_x);
    let px = side_class_of(pos_x);
    let az = side_class_of(ant_z);
    let pz = side_class_of(pos_z);
    if ax == 1 && px == 0 && az == 0 && pz == 0 {
        Some((3, 19))
    } else if ax == 0 && px == 1 && az == 0 && pz == 0 {
        Some((3, 16))
    } else if ax == 0 && px == 0 && az == 1 && pz == 0 {
        Some((3, 4))
    } else if ax == 0 && px == 0 && az == 0 && pz == 1 {
        Some((3, 0))
    } else if ax == 1 && px == 1 && az == 0 && pz == 0 {
        Some((2, 0))
    } else if ax == 1 && px == 0 && az == 1 && pz == 0 {
        Some((2, 4))
    } else if ax == 1 && px == 0 && az == 0 && pz == 1 {
        Some((2, 0))
    } else if ax == 0 && px == 1 && az == 1 && pz == 0 {
        Some((2, 5))
    } else if ax == 0 && px == 1 && az == 0 && pz == 1 {
        Some((2, 1))
    } else if ax == 0 && px == 0 && az == 1 && pz == 1 {
        Some((2, 0))
    } else if ax == 0 && px == 1 && az == 1 && pz == 1 {
        Some((1, 1))
    } else if ax == 1 && px == 0 && az == 1 && pz == 1 {
        Some((1, 0))
    } else if ax == 1 && px == 1 && az == 0 && pz == 1 {
        Some((1, 13))
    } else if ax == 1 && px == 1 && az == 1 && pz == 0 {
        Some((1, 5))
    } else if ax == 0 && px == 0 && az == 0 && pz == 0 {
        Some((4, 0))
    } else {
        None
    }
}

impl Chunk {
    /// Bounds that are a non-empty rectangle.
    pub open spec fn wf(&self) -> bool {
        self.min_x < self.max_x && self.min_z < self.max_z
    }

    /// The chunk centred on the origin, with nothing generated or placed.
    pub fn new() -> (r: Chunk)
        ensures
            r.wf(),
            r.min_x == -CHUNK_REF && r.max_x == CHUNK_REF,
            r.min_z == -CHUNK_REF && r.max_z == CHUNK_REF,
            r.map_point@.len() == 0,
            r.placed_blocks@.len() == 0,
    {
        Chunk {
            min_x: -CHUNK_REF,
            max_x: CHUNK_REF,
            min_z: -CHUNK_REF,
            max_z: CHUNK_REF,
            map_point: Vec::new(),
            placed_blocks: Vec::new(),
        }
    }

    /// Fills `map_point` with the height column of the chunk, one point per
    /// column, the height of the `i`-th column being `heights[i]`.
    pub fn generate_map_points(&mut self, heights: &Vec<i64>)
        requires
            old(self).wf(),
            heights@.len() == area(old(self).min_x, old(self).max_x, old(self).min_z, old(self).max_z),
        ensures
            final(self).map_point@ == height_column(
                old(self).min_x,
                old(self).max_x,
                old(self).min_z,
                old(self).max_z,
                heights@,
            ),
            final(self).min_x == old(self).min_x && final(self).max_x == old(self).max_x,
            final(self).min_z == old(self).min_z && final(self).max_z == old(self).max_z,
            final(self).placed_blocks@ == old(self).placed_blocks@,
    {
        let ghost wx: int = self.max_x - self.min_x;
        let ghost wz: int = self.max_z - self.min_z;
        let ghost col = height_column(self.min_x, self.max_x, self.min_z, self.max_z, heights@);
        let mut points: Vec<CellKey> = Vec::new();
        let mut idx: usize = 0;
        let mut x: i64 = self.min_x;
        while x < self.max_x
            invariant
                self.min_x <= x <= self.max_x,
                wx == self.max_x - self.min_x,
                wz == self.max_z - self.min_z,
                wz > 0,
                col == height_column(self.min_x, self.max_x, self.min_z, self.max_z, heights@),
                heights@.len() == wx * wz,
                idx as int == (x - self.min_x) * wz,
                points@.len() == idx,
                forall|i: int| 0 <= i < idx ==> points@[i] == #[trigger] col[i],
            decreases self.max_x - x,
        {
            let mut z: i64 = self.min_z;
            while z < self.max_z
                invariant
                    self.min_x <= x < self.max_x,
                    self.min_z <= z <= self.max_z,
                    wx == self.max_x - self.min_x,
                    wz == self.max_z - self.min_z,
                    wz > 0,
                    col == height_column(self.min_x, self.max_x, self.min_z, self.max_z, heights@),
                    heights@.len() == wx * wz,
                    idx as int == (x - self.min_x) * wz + (z - self.min_z),
                    points@.len() == idx,
                    forall|i: int| 0 <= i < idx ==> points@[i] == #[trigger] col[i],
                decreases self.max_z - z,
            {
                let ghost a: int = x - self.min_x;
                let ghost b: int = z - self.min_z;
                proof {
                    assert(a * wz + b < wx * wz) by (nonlinear_arith)
                        requires
                            0 <= a < wx,
                            0 <= b < wz,
                    ;
                    lemma_fundamental_div_mod_converse(idx as int, wz, a, b);
                }
                let y = heights[idx];
                let len_h: usize = heights.len();
                assert(idx < len_h);
                points.push((x, y, z));
                idx = idx + 1;
                z = z + 1;
            }
            proof {
                let a: int = x - self.min_x;
                assert((a + 1) * wz == a * wz + wz) by (nonlinear_arith);
            }
            x = x + 1;
        }
        proof {
            assert(points@ =~= col);
        }
        self.map_point = points;
    }

    /// Writes a floor cell at every point of the height column.
    pub fn place_floor_blocks(&self, grid: &mut VoxelGrid)
        ensures
            final(grid)@ == with_floor(old(grid)@, self.map_point@),
    {
        let mut i: usize = 0;
        while i < self.map_point.len()
            invariant
                i <= self.map_point@.len(),
                grid@ == with_floor(old(grid)@, self.map_point@.take(i as int)),
            decreases self.map_point@.len() - i,
        {
            let (x, y, z) = self.map_point[i];
            grid.set_cell_item(x, y, z, FLOOR_ITEM, 0);
            proof {
                let t = self.map_point@.take(i + 1);
                assert(t.drop_last() =~= self.map_point@.take(i as int));
            }
            i = i + 1;
        }
        proof {
            assert(self.map_point@.take(i as int) =~= self.map_point@);
        }
    }

    /// Writes, at each point of the height column, the wall tile that the
    /// grid as it stood before called for there.
    pub fn place_wall_blocks(&self, grid: &mut VoxelGrid)
        requires
            forall|j: int|
                0 <= j < self.map_point@.len() ==> point_in_range(#[trigger] self.map_point@[j])
                    && side_class(item_in(old(grid)@, self.map_point@[j])) == 1,
        ensures
            final(grid)@ == with_walls(old(grid)@, self.map_point@),
    {
        let ghost m0 = grid@;
        let mut i: usize = 0;
        while i < self.map_point.len()
            invariant
                i <= self.map_point@.len(),
                m0 == old(grid)@,
                forall|j: int|
                    0 <= j < self.map_point@.len() ==> point_in_range(#[trigger] self.map_point@[j])
                        && side_class(item_in(m0, self.map_point@[j])) == 1,
                grid@ == with_walls(m0, self.map_point@.take(i as int)),
            decreases self.map_point@.len() - i,
        {
            let p = self.map_point[i];
            let (x, y, z) = p;
            proof {
                let t = self.map_point@.take(i as int);
                assert forall|j: int| 0 <= j < t.len() implies side_class(item_in(m0, #[trigger] t[j])) == 1 by {
                    assert(t[j] == self.map_point@[j]);
                }
                assert forall|k: CellKey| side_class(item_in(grid@, k)) == side_class(item_in(m0, k)) by {
                    lemma_walls_keep_classes(m0, t, k);
                }
                assert(point_in_range(self.map_point@[i as int]));
            }
            let ant_x = grid.get_cell_item(x - 1, y, z);
            let pos_x = grid.get_cell_item(x + 1, y, z);
            let ant_z = grid.get_cell_item(x, y, z - 1);
            let pos_z = grid.get_cell_item(x, y, z + 1);
            let pre_yz = grid.get_cell_item(x, y + 1, z - 1);
            let pos_yz = grid.get_cell_item(x, y + 1, z + 1);
            let pre_xy = grid.get_cell_item(x - 1, y + 1, z);
            let pos_xy = grid.get_cell_item(x + 1, y + 1, z);
            proof {
                let t1 = self.map_point@.take(i + 1);
                assert(t1.drop_last() =~= self.map_point@.take(i as int));
                assert(t1.last() == p);
            }
            if pre_xy == EMPTY_ITEM && pos_xy == EMPTY_ITEM && pre_yz == EMPTY_ITEM && pos_yz == EMPTY_ITEM {
                match wall_tile_for(ant_x, pos_x, ant_z, pos_z) {
                    Some((item, orientation)) => grid.set_cell_item(x, y, z, item, orientation),
                    None => {},
                }
            }
            i = i + 1;
        }
        proof {
            assert(self.map_point@.take(i as int) =~= self.map_point@);
        }
    }

    /// Writes each custom block whose `x` and `z` lie within the bounds
    /// `[min_x, max_x) x [min_z, max_z)`, with orientation 0, in the order
    /// they were placed.
    pub fn place_custom_blocks(&self, grid: &mut VoxelGrid)
        ensures
            final(grid)@ == with_custom(old(grid)@, self.placed_blocks@, self.min_x, self.max_x, self.min_z, self.max_z),
    {
        let mut i: usize = 0;
        while i < self.placed_blocks.len()
            invariant
                i <= self.placed_blocks@.len(),
                grid@ == with_custom(
                    old(grid)@,
                    self.placed_blocks@.take(i as int),
                    self.min_x,
                    self.max_x,
                    self.min_z,
                    self.max_z,
                ),
            decreases self.placed_blocks@.len() - i,
        {
            let b = self.placed_blocks[i];
            let (x, y, z) = b.position;
            proof {
                let t = self.placed_blocks@.take(i + 1);
                assert(t.drop_last() =~= self.placed_blocks@.take(i as int));
                assert(t.last() == b);
            }
            if x >= self.min_x && x < self.max_x && z >= self.min_z && z < self.max_z {
                grid.set_cell_item(x, y, z, b.type_block, 0);
            }
            i = i + 1;
        }
        proof {
            assert(self.placed_blocks@.take(i as int) =~= self.placed_blocks@);
        }
    }

    /// Writes the custom blocks again over what the grid holds.
    pub fn redraw(&self, grid: &mut VoxelGrid)
        ensures
            final(grid)@ == with_custom(old(grid)@, self.placed_blocks@, self.min_x, self.max_x, self.min_z, self.max_z),
    {
        self.place_custom_blocks(grid);
    }

    /// Regenerates the chunk from scratch: computes its height column from
    /// `heights` (one per column, `x` outer and `z` inner), clears the grid,
    /// and writes the floor, then the walls, then the custom blocks.
    pub fn generate_chunk(&mut self, grid: &mut VoxelGrid, heights: &Vec<i64>)
        requires
            old(self).wf(),
            old(self).min_x > i64::MIN,
            old(self).min_z > i64::MIN,
            heights@.len() == area(old(self).min_x, old(self).max_x, old(self).min_z, old(self).max_z),
            forall|i: int| 0 <= i < heights@.len() ==> #[trigger] heights@[i] < i64::MAX,
        ensures
            final(self).min_x == old(self).min_x && final(self).max_x == old(self).max_x,
            final(self).min_z == old(self).min_z && final(self).max_z == old(self).max_z,
            final(self).placed_blocks@ == old(self).placed_blocks@,
            final(self).map_point@ == height_column(
                old(self).min_x,
                old(self).max_x,
                old(self).min_z,
                old(self).max_z,
                heights@,
            ),
            final(grid)@ == generated_map(
                old(self).min_x,
                old(self).max_x,
                old(self).min_z,
                old(self).max_z,
                heights@,
                old(self).placed_blocks@,
            ),
    {
        self.generate_map_points(heights);
        grid.clear();
        self.place_floor_blocks(grid);
        proof {
            let col = self.map_point@;
            lemma_floor_cells(Map::empty(), col);
            lemma_height_column_in_range(self.min_x, self.max_x, self.min_z, self.max_z, heights@);
            assert forall|j: int| 0 <= j < col.len() implies point_in_range(#[trigger] col[j])
                && side_class(item_in(grid@, col[j])) == 1 by {
                assert(with_floor(Map::empty(), col).contains_key(col[j]));
            }
        }
        self.place_wall_blocks(grid);
        self.place_custom_blocks(grid);
    }

    /// Adds a custom block to the chunk's list; the grid is written on the
    /// next redraw.
    pub fn insert_block(&mut self, position: CellKey, type_block: i64)
        ensures
            final(self).placed_blocks@ == old(self).placed_blocks@.push(CustomBlock { position, type_block }),
            final(self).min_x == old(self).min_x && final(self).max_x == old(self).max_x,
            final(self).min_z == old(self).min_z && final(self).max_z == old(self).max_z,
            final(self).map_point@ == old(self).map_point@,
    {
        let new_block = CustomBlock { position, type_block };
        self.placed_blocks.push(new_block);
    }

    /// Whether the cell column `(x, z)` is closer than the margin to an edge
    /// of the chunk, so that the chunk must be regenerated around it.
    pub fn needs_generate_chunks(&self, x: i64, z: i64) -> (r: bool)
        ensures
            r == needs_regeneration(self.min_x, self.max_x, self.min_z, self.max_z, x, z),
    {
        let margin = REGENERATION_MARGIN as i128;
        let res_x = (x as i128) - (self.min_x as i128) < margin || (self.max_x as i128) - (x as i128) < margin;
        let res_z = (z as i128) - (self.min_z as i128) < margin || (self.max_z as i128) - (z as i128) < margin;
        res_x || res_z
    }

    /// The chunk `[cx - CHUNK_REF, cx + CHUNK_REF) x [cz - CHUNK_REF, cz + CHUNK_REF)`,
    /// with no height column yet and the custom blocks of this chunk.
    pub fn shift_chunk(&self, cx: i64, cz: i64) -> (r: Chunk)
        requires
            i64::MIN + CHUNK_REF < cx <= i64::MAX - CHUNK_REF,
            i64::MIN + CHUNK_REF < cz <= i64::MAX - CHUNK_REF,
        ensures
            r.wf(),
            r.min_x == cx - CHUNK_REF && r.max_x == cx + CHUNK_REF,
            r.min_z == cz - CHUNK_REF && r.max_z == cz + CHUNK_REF,
            r.map_point@.len() == 0,
            r.placed_blocks@ == self.placed_blocks@,
    {
        let mut blocks: Vec<CustomBlock> = Vec::new();
        let mut i: usize = 0;
        while i < self.placed_blocks.len()
            invariant
                i <= self.placed_blocks@.len(),
                blocks@ == self.placed_blocks@.take(i as int),
            decreases self.placed_blocks@.len() - i,
        {
            blocks.push(self.placed_blocks[i]);
            proof {
                assert(blocks@ =~= self.placed_blocks@.take(i + 1));
            }
            i = i + 1;
        }
        proof {
            assert(blocks@ =~= self.placed_blocks@);
        }
        Chunk {
            min_x: cx - CHUNK_REF,
            max_x: cx + CHUNK_REF,
            min_z: cz - CHUNK_REF,
            max_z: cz + CHUNK_REF,
            map_point: Vec::new(),
            placed_blocks: blocks,
        }
    }
}

} // verus!
