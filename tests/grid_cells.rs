use voxel_terrain::grid::{VoxelGrid, EMPTY_ITEM};

#[test]
fn empty_grid_reads_empty() {
    let g = VoxelGrid::new();
    assert_eq!(g.get_cell_item(0, 0, 0), EMPTY_ITEM);
    assert_eq!(g.get_cell_item(-5, 3, 9), -1);
    assert_eq!(g.get_cell_orientation(0, 0, 0), 0);
}

#[test]
fn set_then_get_returns_item_and_orientation() {
    let mut g = VoxelGrid::new();
    g.set_cell_item(1, 2, 3, 7, 16);
    assert_eq!(g.get_cell_item(1, 2, 3), 7);
    assert_eq!(g.get_cell_orientation(1, 2, 3), 16);
    assert_eq!(g.get_cell_item(3, 2, 1), -1);
}

#[test]
fn later_write_replaces_earlier() {
    let mut g = VoxelGrid::new();
    g.set_cell_item(1, 2, 3, 7, 16);
    g.set_cell_item(4, 4, 4, 2, 1);
    g.set_cell_item(1, 2, 3, 3, 19);
    assert_eq!(g.get_cell_item(1, 2, 3), 3);
    assert_eq!(g.get_cell_orientation(1, 2, 3), 19);
    assert_eq!(g.get_cell_item(4, 4, 4), 2);
}

#[test]
fn clear_empties_every_cell() {
    let mut g = VoxelGrid::new();
    g.set_cell_item(1, 2, 3, 7, 0);
    g.clear();
    assert_eq!(g.get_cell_item(1, 2, 3), -1);
}

#[test]
fn replaying_history_rebuilds_the_grid() {
    let mut g = VoxelGrid::new();
    g.set_cell_item(1, 2, 3, 7, 16);
    g.set_cell_item(1, 2, 3, 4, 0);
    g.set_cell_item(0, 0, 0, 1, 5);
    let mut copy = VoxelGrid::new();
    for w in g.history().iter() {
        copy.set_cell_item(w.key.0, w.key.1, w.key.2, w.item, w.orientation);
    }
    assert_eq!(copy.get_cell_item(1, 2, 3), 4);
    assert_eq!(copy.get_cell_orientation(0, 0, 0), 5);
}
