use voxel_terrain::grid::VoxelGrid;
use voxel_terrain::player::Bag;
use voxel_terrain::terrain::chunk::{Chunk, REGENERATION_MARGIN};
use voxel_terrain::terrain::map_terrain::{MapTerrain, SEED_BOUND};

#[test]
fn margin_minus_one_from_an_edge_needs_regeneration() {
    let c = Chunk::new();
    let m = REGENERATION_MARGIN;
    assert!(c.needs_generate_chunks(-32 + m - 1, 0));
    assert!(c.needs_generate_chunks(32 - (m - 1), 0));
    assert!(c.needs_generate_chunks(0, -32 + m - 1));
    assert!(c.needs_generate_chunks(0, 32 - (m - 1)));
}

#[test]
fn margin_plus_one_from_every_edge_needs_none() {
    let c = Chunk::new();
    let m = REGENERATION_MARGIN;
    assert!(!c.needs_generate_chunks(-32 + m + 1, -32 + m + 1));
    assert!(!c.needs_generate_chunks(32 - (m + 1), 32 - (m + 1)));
    assert!(!c.needs_generate_chunks(0, 0));
    assert!(!c.needs_generate_chunks(-32 + m, 32 - m));
}

#[test]
fn shift_keeps_custom_blocks_in_order() {
    let mut c = Chunk::new();
    c.insert_block((1, 2, 3), 4);
    c.insert_block((-40, 0, 7), 2);
    c.insert_block((1, 2, 3), 9);
    c.generate_map_points(&vec![0; 64 * 64]);
    let s = c.shift_chunk(100, -7);
    assert_eq!((s.min_x, s.max_x, s.min_z, s.max_z), (68, 132, -39, 25));
    assert_eq!(s.placed_blocks, c.placed_blocks);
    assert!(s.map_point.is_empty());
}

#[test]
fn new_terrain_has_seed_in_range() {
    let t = MapTerrain::new();
    assert!(t.seed >= 0 && t.seed < SEED_BOUND);
    assert_eq!(SEED_BOUND, 75000000);
    assert_eq!(t.block, 0);
    assert_eq!(t.position, (0, 0, 0));
    assert_eq!(t.current_area.min_x, -32);
}

#[test]
fn tracking_near_an_edge_shifts_the_chunk() {
    let mut t = MapTerrain::new();
    t.current_area.insert_block((30, 1, 0), 3);
    assert!(t.track_position((30, 4, 0), 30, 0));
    assert_eq!(t.current_area.min_x, -2);
    assert_eq!(t.current_area.max_x, 62);
    assert_eq!(t.current_area.min_z, -32);
    assert_eq!(t.current_area.placed_blocks.len(), 1);
    assert_eq!(t.position, (30, 4, 0));
}

#[test]
fn tracking_near_the_centre_keeps_the_chunk() {
    let mut t = MapTerrain::new();
    assert!(!t.track_position((3, 4, -5), 3, -5));
    assert_eq!(t.current_area.min_x, -32);
    assert_eq!(t.position, (3, 4, -5));
}

#[test]
fn place_block_records_and_draws() {
    let mut t = MapTerrain::new();
    t.current_area.min_x = -3;
    t.current_area.max_x = 3;
    t.current_area.min_z = -3;
    t.current_area.max_z = 3;
    let mut g = VoxelGrid::new();
    t.create_chunk(&mut g, &vec![1; 36]);
    t.place_block(&mut g, (0, 2, 0), 7);
    assert_eq!(g.get_cell_item(0, 2, 0), 7);
    assert_eq!(t.current_area.placed_blocks.len(), 1);
    t.update_chunk(&mut g, &vec![1; 36]);
    assert_eq!(g.get_cell_item(0, 2, 0), 7);
    assert_eq!(g.get_cell_item(-3, 1, -3), 2);
}

#[test]
fn new_bag_is_empty_with_room_for_ten() {
    let b = Bag::new();
    assert!(b.objects.is_empty() && b.tools.is_empty() && b.keys.is_empty());
    assert_eq!(b.number_items, 0);
    assert_eq!(b.total_items, 10);
}

#[test]
fn adding_a_new_kind_appends_a_stack() {
    let mut b = Bag::new();
    b.add_item(2);
    assert_eq!(b.objects.len(), 1);
    assert_eq!(b.objects[0].id, 2);
    assert_eq!(b.objects[0].name, "Test");
    assert_eq!(b.objects[0].amount, 0);
}

#[test]
fn adding_a_known_kind_counts_it_once() {
    let mut b = Bag::new();
    b.add_item(1);
    b.add_item(3);
    b.add_item(3);
    b.add_item(3);
    assert_eq!(b.objects.len(), 2);
    assert_eq!(b.objects[0].amount, 0);
    assert_eq!(b.objects[1].id, 3);
    assert_eq!(b.objects[1].amount, 2);
}

#[test]
fn amount_stops_at_the_largest_i32() {
    let mut b = Bag::new();
    b.add_item(0);
    b.objects[0].amount = i32::MAX;
    b.add_item(0);
    assert_eq!(b.objects[0].amount, i32::MAX);
}

#[test]
fn updating_twice_leaves_the_grid_as_once() {
    let mut t = MapTerrain::new();
    t.current_area.min_x = 0;
    t.current_area.max_x = 3;
    t.current_area.min_z = 0;
    t.current_area.max_z = 3;
    t.current_area.insert_block((1, 4, 1), 6);
    let heights = vec![2, 3, 2, 2, 2, 4, 3, 2, 2];
    let mut once = VoxelGrid::new();
    t.update_chunk(&mut once, &heights);
    let points_once = t.current_area.map_point.clone();
    let mut twice = VoxelGrid::new();
    t.update_chunk(&mut twice, &heights);
    t.update_chunk(&mut twice, &heights);
    assert_eq!(t.current_area.map_point, points_once);
    assert_eq!((t.current_area.min_x, t.current_area.max_x), (0, 3));
    for x in -1..4 {
        for y in 0..6 {
            for z in -1..4 {
                assert_eq!(once.get_cell_item(x, y, z), twice.get_cell_item(x, y, z));
                assert_eq!(once.get_cell_orientation(x, y, z), twice.get_cell_orientation(x, y, z));
            }
        }
    }
}
