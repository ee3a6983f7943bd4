//! A sparse voxel grid keyed by integer cell coordinates.
//!
//! Every cell holds an item type and an orientation. A cell that was never
//! written reads as the item `EMPTY_ITEM`.

use vstd::prelude::*;

verus! {

/// The item read from a cell that holds nothing.
pub const EMPTY_ITEM: i64 = -1;

/// Integer cell coordinates `(x, y, z)`.
pub type CellKey = (i64, i64, i64);

/// One write into the grid.
#[derive(Clone, Copy, Debug, PartialEq, Eq)]
pub struct CellWrite {
    pub key: CellKey,
    pub item: i64,
    pub orientation: i64,
}

/// The map that a sequence of writes leaves behind: a later write to a cell
/// replaces an earlier one.
pub open spec fn writes_to_map(s: Seq<CellWrite>) -> Map<CellKey, (i64, i64)>
    decreases s.len(),
{
    if s.len() == 0 {
        Map::empty()
    } else {
        let w = s.last();
        writes_to_map(s.drop_last()).insert(w.key, (w.item, w.orientation))
    }
}

/// What reading a cell of the map `m` gives: its item, or `EMPTY_ITEM`.
pub open spec fn item_in(m: Map<CellKey, (i64, i64)>, k: CellKey) -> i64 {
    if m.contains_key(k) {
        m[k].0
    } else {
        EMPTY_ITEM
    }
}

/// A sparse grid of cells. Its contents are the map `self@` from cell
/// coordinates to `(item, orientation)`.
pub struct VoxelGrid {
    writes: Vec<CellWrite>,
}

impl View for VoxelGrid {
    type V = Map<CellKey, (i64, i64)>;

    closed spec fn view(&self) -> Map<CellKey, (i64, i64)> {
        writes_to_map(self.writes@)
    }
}

impl VoxelGrid {
    /// An empty grid.
    pub fn new() -> (r: VoxelGrid)
        ensures
            r@ == Map::<CellKey, (i64, i64)>::empty(),
    {
        VoxelGrid { writes: Vec::new() }
    }

    /// Removes every cell.
    pub fn clear(&mut self)
        ensures
            final(self)@ == Map::<CellKey, (i64, i64)>::empty(),
    {
        self.writes = Vec::new();
    }

    /// The writes made since the grid was last cleared, in order: replaying
    /// them into an empty grid gives this grid's contents.
    pub fn history(&self) -> (r: &Vec<CellWrite>)
        ensures
            writes_to_map(r@) == self@,
    {
        &self.writes
    }

    /// Writes `item` with `orientation` into the cell `(x, y, z)`.
    pub fn set_cell_item(&mut self, x: i64, y: i64, z: i64, item: i64, orientation: i64)
        ensures
            final(self)@ == old(self)@.insert((x, y, z), (item, orientation)),
    {
        self.writes.push(CellWrite { key: (x, y, z), item, orientation });
        proof {
            assert(self.writes@.drop_last() =~= old(self).writes@);
        }
    }

    /// The index of the last write to `(x, y, z)`, which gives its contents.
    fn find_last(&self, x: i64, y: i64, z: i64) -> (r: Option<usize>)
        ensures
            match r {
                Some(i) => i < self.writes@.len() && self@.contains_key((x, y, z)) && self@[(x, y, z)]
                    == (self.writes@[i as int].item, self.writes@[i as int].orientation),
                None => !self@.contains_key((x, y, z)),
            },
    {
        let mut i: usize = self.writes.len();
        proof {
            assert(self.writes@.take(i as int) =~= self.writes@);
        }
        while i > 0
            invariant
                i <= self.writes@.len(),
                self@.contains_key((x, y, z)) == writes_to_map(self.writes@.take(i as int)).contains_key((x, y, z)),
                self@.contains_key((x, y, z)) ==> self@[(x, y, z)] == writes_to_map(self.writes@.take(i as int))[(x, y, z)],
            decreases i,
        {
            let w = self.writes[i - 1];
            proof {
                let s = self.writes@.take(i as int);
                assert(s.drop_last() =~= self.writes@.take(i - 1));
                assert(s.last() == w);
            }
            let (wx, wy, wz) = w.key;
            if wx == x && wy == y && wz == z {
                return Some(i - 1);
            }
            proof {
                let s = self.writes@.take(i as int);
                assert(w.key != (x, y, z));
                assert(writes_to_map(s) == writes_to_map(s.drop_last()).insert(w.key, (w.item, w.orientation)));
            }
            i = i - 1;
        }
        proof {
            assert(self.writes@.take(0) =~= Seq::<CellWrite>::empty());
        }
        None
    }

    /// The item held by the cell `(x, y, z)`, or `EMPTY_ITEM` for an empty cell.
    pub fn get_cell_item(&self, x: i64, y: i64, z: i64) -> (r: i64)
        ensures
            r == item_in(self@, (x, y, z)),
    {
        match self.find_last(x, y, z) {
            Some(i) => self.writes[i].item,
            None => EMPTY_ITEM,
        }
    }

    /// The orientation held by the cell `(x, y, z)`, or 0 for an empty cell.
    pub fn get_cell_orientation(&self, x: i64, y: i64, z: i64) -> (r: i64)
        ensures
            r == (if self@.contains_key((x, y, z)) { self@[(x, y, z)].1 } else { 0 }),
    {
        match self.find_last(x, y, z) {
            Some(i) => self.writes[i].orientation,
            None => 0,
        }
    }
}

} // verus!
