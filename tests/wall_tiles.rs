use voxel_terrain::grid::VoxelGrid;
use voxel_terrain::terrain::chunk::{wall_tile_for, Chunk};

const O: i64 = 0;
const E: i64 = -1;

/// A grid with one floor cell at (0, 0, 0) whose neighbours at `-x`, `+x`,
/// `-z`, `+z` hold the given items, run through wall placement.
fn classify_in_grid(ant_x: i64, pos_x: i64, ant_z: i64, pos_z: i64) -> (i64, i64) {
    let mut g = VoxelGrid::new();
    g.set_cell_item(0, 0, 0, 0, 0);
    let around = [((-1, 0), ant_x), ((1, 0), pos_x), ((0, -1), ant_z), ((0, 1), pos_z)];
    for ((dx, dz), v) in around.iter() {
        if *v != -1 {
            g.set_cell_item(*dx, 0, *dz, *v, 0);
        }
    }
    let mut c = Chunk::new();
    c.map_point = vec![(0, 0, 0)];
    c.place_wall_blocks(&mut g);
    (g.get_cell_item(0, 0, 0), g.get_cell_orientation(0, 0, 0))
}

fn check_row(ant_x: i64, pos_x: i64, ant_z: i64, pos_z: i64, tile: (i64, i64)) {
    assert_eq!(wall_tile_for(ant_x, pos_x, ant_z, pos_z), Some(tile));
    assert_eq!(classify_in_grid(ant_x, pos_x, ant_z, pos_z), tile);
}

#[test]
fn one_closed_side_at_minus_x() {
    check_row(O, E, E, E, (3, 19));
}

#[test]
fn one_closed_side_at_plus_x() {
    check_row(E, O, E, E, (3, 16));
}

#[test]
fn one_closed_side_at_minus_z() {
    check_row(E, E, O, E, (3, 4));
}

#[test]
fn one_closed_side_at_plus_z() {
    check_row(E, E, E, O, (3, 0));
}

#[test]
fn closed_at_both_x_sides() {
    check_row(O, O, E, E, (2, 0));
}

#[test]
fn closed_at_minus_x_and_minus_z() {
    check_row(O, E, O, E, (2, 4));
}

#[test]
fn closed_at_minus_x_and_plus_z() {
    check_row(O, E, E, O, (2, 0));
}

#[test]
fn closed_at_plus_x_and_minus_z() {
    check_row(E, O, O, E, (2, 5));
}

#[test]
fn closed_at_plus_x_and_plus_z() {
    check_row(E, O, E, O, (2, 1));
}

#[test]
fn closed_at_both_z_sides() {
    check_row(E, E, O, O, (2, 0));
}

#[test]
fn open_only_at_minus_x() {
    check_row(E, O, O, O, (1, 1));
}

#[test]
fn open_only_at_plus_x() {
    check_row(O, E, O, O, (1, 0));
}

#[test]
fn open_only_at_minus_z() {
    check_row(O, O, E, O, (1, 13));
}

#[test]
fn open_only_at_plus_z() {
    check_row(O, O, O, E, (1, 5));
}

#[test]
fn open_on_all_sides() {
    check_row(E, E, E, E, (4, 0));
}

#[test]
fn any_item_up_to_ten_counts_as_closed() {
    check_row(10, E, E, E, (3, 19));
    check_row(E, 7, E, E, (3, 16));
}

#[test]
fn closed_on_all_sides_writes_nothing() {
    assert_eq!(wall_tile_for(O, O, O, O), None);
    assert_eq!(classify_in_grid(O, O, O, O), (0, 0));
}

#[test]
fn item_above_ten_matches_no_row() {
    assert_eq!(wall_tile_for(11, E, E, E), None);
    assert_eq!(wall_tile_for(E, E, -2, E), None);
    assert_eq!(classify_in_grid(11, E, E, E), (0, 0));
}

#[test]
fn taken_cell_one_level_up_blocks_the_wall() {
    let mut g = VoxelGrid::new();
    g.set_cell_item(0, 0, 0, 0, 0);
    g.set_cell_item(1, 1, 0, 0, 0);
    let mut c = Chunk::new();
    c.map_point = vec![(0, 0, 0)];
    c.place_wall_blocks(&mut g);
    assert_eq!(g.get_cell_item(0, 0, 0), 0);
}
