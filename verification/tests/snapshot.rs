use azalea_graphics::position::{div_floor, div_trunc, ChunkPos, ChunkSectionPos};
use azalea_graphics::snapshot::{
    entry_count, grid_for_world, VisibilityBuffers, VisibilitySnapshot,
};

fn numbered(radius: i32, height: i32, cx: i32, cz: i32, min_y: i32) -> VisibilitySnapshot {
    let side = (2 * radius + 1) as usize;
    let cells = side * side * height as usize;
    VisibilitySnapshot {
        radius,
        height,
        data: (0..cells as u32).map(|i| i * 10).collect(),
        cx,
        cz,
        min_y,
    }
}

#[test]
fn index_counts_layers_then_rows() {
    let snapshot = numbered(2, 3, 0, 0, 0);
    assert!(snapshot.check());
    assert_eq!(snapshot.index(-2, 0, -2), Some(0));
    assert_eq!(snapshot.index(2, 0, -2), Some(4));
    assert_eq!(snapshot.index(-2, 0, -1), Some(5));
    assert_eq!(snapshot.index(0, 0, 0), Some(12));
    assert_eq!(snapshot.index(-2, 1, -2), Some(25));
    assert_eq!(snapshot.index(1, 2, -1), Some(2 * 25 + 1 * 5 + 3));
    assert_eq!(snapshot.index(2, 2, 2), Some(74));
}

#[test]
fn index_outside_the_grid_is_none() {
    let snapshot = numbered(2, 3, 0, 0, 0);
    assert_eq!(snapshot.index(3, 0, 0), None);
    assert_eq!(snapshot.index(-3, 0, 0), None);
    assert_eq!(snapshot.index(0, 0, 3), None);
    assert_eq!(snapshot.index(0, 0, -3), None);
    assert_eq!(snapshot.index(0, -1, 0), None);
    assert_eq!(snapshot.index(0, 3, 0), None);
    assert_eq!(snapshot.index(i32::MIN, 0, 0), None);
    assert_eq!(snapshot.index(0, i32::MAX, 0), None);
}

#[test]
fn depth_and_visibility_read_the_cell() {
    let snapshot = numbered(1, 2, 0, 0, 0);
    assert_eq!(snapshot.get_depth(-1, 0, -1), Some(0));
    assert!(!snapshot.is_visible(-1, 0, -1));
    assert_eq!(snapshot.get_depth(0, 0, -1), Some(10));
    assert!(snapshot.is_visible(0, 0, -1));
    assert_eq!(snapshot.get_depth(1, 1, 1), Some(170));
    assert_eq!(snapshot.get_depth(2, 0, 0), None);
    assert!(!snapshot.is_visible(2, 0, 0));
}

#[test]
fn sections_are_counted_from_the_camera_chunk_and_the_world_floor() {
    let snapshot = numbered(1, 2, 10, -20, -64);
    assert_eq!(snapshot.base_y(), -4);
    assert_eq!(snapshot.section_depth(ChunkSectionPos::new(9, -4, -21)), Some(0));
    assert!(!snapshot.section_is_visible(ChunkSectionPos::new(9, -4, -21)));
    assert_eq!(snapshot.section_depth(ChunkSectionPos::new(10, -4, -20)), Some(40));
    assert!(snapshot.section_is_visible(ChunkSectionPos::new(10, -4, -20)));
    assert_eq!(snapshot.section_depth(ChunkSectionPos::new(11, -3, -19)), Some(170));
    assert_eq!(snapshot.section_depth(ChunkSectionPos::new(10, -5, -20)), None);
    assert_eq!(snapshot.section_depth(ChunkSectionPos::new(10, -2, -20)), None);
    assert_eq!(snapshot.section_depth(ChunkSectionPos::new(12, -4, -20)), None);
    assert!(!snapshot.section_is_visible(ChunkSectionPos::new(12, -4, -20)));
}

#[test]
fn world_floor_rounds_toward_zero() {
    assert_eq!(numbered(0, 1, 0, 0, -70).base_y(), -4);
    assert_eq!(numbered(0, 1, 0, 0, -1).base_y(), 0);
    assert_eq!(numbered(0, 1, 0, 0, 31).base_y(), 1);
    assert_eq!(div_trunc(-70, 16), -4);
    assert_eq!(div_trunc(i32::MIN, 16), -134217728);
    assert_eq!(div_floor(-70, 16), -5);
    assert_eq!(div_floor(-64, 16), -4);
    assert_eq!(div_floor(15, 16), 0);
    assert_eq!(div_floor(i32::MIN, 16), -134217728);
}

#[test]
fn far_sections_do_not_overflow() {
    let snapshot = numbered(1, 1, i32::MIN, i32::MAX, 0);
    assert_eq!(snapshot.section_depth(ChunkSectionPos::new(i32::MAX, 0, i32::MIN)), None);
    assert_eq!(snapshot.section_depth(ChunkSectionPos::new(i32::MIN, 0, i32::MAX)), Some(40));
    assert_eq!(snapshot.section_depth(ChunkSectionPos::new(0, i32::MIN, 0)), None);
}

#[test]
fn check_tells_a_well_formed_snapshot() {
    assert!(numbered(0, 0, 0, 0, 0).check());
    assert!(numbered(3, 5, 1, 2, 3).check());
    let mut short = numbered(1, 1, 0, 0, 0);
    short.data.pop();
    assert!(!short.check());
    let negative_radius =
        VisibilitySnapshot { radius: -1, height: 1, data: vec![0], cx: 0, cz: 0, min_y: 0 };
    assert!(!negative_radius.check());
    let negative_height =
        VisibilitySnapshot { radius: 0, height: -1, data: vec![], cx: 0, cz: 0, min_y: 0 };
    assert!(!negative_height.check());
}

#[test]
fn entry_count_is_side_squared_times_height() {
    assert_eq!(entry_count(0, 1), Some(1));
    assert_eq!(entry_count(32, 24), Some(65 * 65 * 24));
    assert_eq!(entry_count(5, 0), Some(0));
    assert_eq!(entry_count(-1, 4), None);
    assert_eq!(entry_count(4, -1), None);
    assert_eq!(entry_count(i32::MAX, i32::MAX), None);
    assert_eq!(VisibilityBuffers::calc(32, 24), Some((65 * 65 * 24, 4 * 65 * 65 * 24)));
    assert_eq!(VisibilityBuffers::calc(0, 0), Some((0, 0)));
    assert_eq!(VisibilityBuffers::calc(-3, 2), None);
}

#[test]
fn grid_follows_render_distance_and_world_height() {
    assert_eq!(grid_for_world(32, 384, -64), Some((32, 28)));
    assert_eq!(grid_for_world(8, 256, 0), Some((8, 16)));
    assert_eq!(grid_for_world(0, 0, 0), Some((0, 0)));
    assert_eq!(grid_for_world(2, 0, 40), Some((2, -2)));
    assert_eq!(grid_for_world(u32::MAX, 256, 0), None);
    assert_eq!(grid_for_world(1, u32::MAX, i32::MIN), Some((1, 402653183)));
}

#[test]
fn block_positions_fall_into_their_sections() {
    assert_eq!(ChunkSectionPos::of_block(0, 0, 0), ChunkSectionPos::new(0, 0, 0));
    assert_eq!(ChunkSectionPos::of_block(15, 16, 31), ChunkSectionPos::new(0, 1, 1));
    assert_eq!(ChunkSectionPos::of_block(-1, -16, -17), ChunkSectionPos::new(-1, -1, -2));
    assert_eq!(ChunkSectionPos::of_block(100, -64, -100), ChunkSectionPos::new(6, -4, -7));
    assert_eq!(ChunkSectionPos::new(4, 5, 6).chunk(), ChunkPos::new(4, 6));
}

#[test]
fn keys_tell_sections_apart() {
    let a = ChunkSectionPos::new(0, 0, 0);
    assert_eq!(a.key(), (1u128 << 95) + (1u128 << 63) + (1u128 << 31));
    assert_eq!(ChunkSectionPos::new(i32::MIN, i32::MIN, i32::MIN).key(), 0);
    assert_eq!(ChunkSectionPos::new(i32::MAX, i32::MAX, i32::MAX).key(), (1u128 << 96) - 1);
    let mut seen = Vec::new();
    for x in [-1, 0, 1, i32::MIN, i32::MAX] {
        for y in [-1, 0, 1, i32::MIN, i32::MAX] {
            for z in [-1, 0, 1, i32::MIN, i32::MAX] {
                let key = ChunkSectionPos::new(x, y, z).key();
                assert!(!seen.contains(&key));
                seen.push(key);
            }
        }
    }
}

#[test]
fn buffers_follow_the_grid() {
    let mut buffers = VisibilityBuffers::new(32, 24).unwrap();
    assert!(buffers.check());
    assert_eq!(buffers.entry_count, 65 * 65 * 24);
    assert_eq!(buffers.byte_size, 4 * 65 * 65 * 24);
    assert_eq!(buffers.resize(32, 24), Some(false));
    assert_eq!(buffers.resize(16, 24), Some(true));
    assert_eq!((buffers.radius, buffers.height, buffers.entry_count), (16, 24, 33 * 33 * 24));
    assert_eq!(buffers.resize(16, 28), Some(true));
    assert_eq!(buffers.byte_size, 4 * 33 * 33 * 28);
    let before = buffers;
    assert_eq!(buffers.resize(-1, 28), None);
    assert_eq!(buffers.resize(i32::MAX, i32::MAX), None);
    assert_eq!(buffers, before);
    assert!(VisibilityBuffers::new(-1, 1).is_none());
    assert!(VisibilityBuffers::new(1, -1).is_none());
    assert!(VisibilityBuffers::new(0, 0).unwrap().check());
    let odd = VisibilityBuffers { radius: 1, height: 1, entry_count: 8, byte_size: 32 };
    assert!(!odd.check());
}

#[test]
fn snapshots_are_taken_for_the_grid_of_the_buffers() {
    let buffers = VisibilityBuffers::new(1, 2).unwrap();
    let data: Vec<u32> = (1..=18).collect();
    let snapshot = buffers.snapshot(data.clone(), 4, -5, -64).unwrap();
    assert!(snapshot.check());
    assert_eq!((snapshot.radius, snapshot.height), (1, 2));
    assert_eq!((snapshot.cx, snapshot.cz, snapshot.min_y), (4, -5, -64));
    assert_eq!(snapshot.data, data);
    assert!(buffers.snapshot(vec![0; 17], 0, 0, 0).is_none());
    assert!(buffers.snapshot(vec![0; 19], 0, 0, 0).is_none());
    assert!(buffers.snapshot(Vec::new(), 0, 0, 0).is_none());
}

#[test]
fn slots_are_decoded_into_offsets() {
    let snapshot = numbered(2, 3, 0, 0, 0);
    assert_eq!(snapshot.cell_offset(0), Some((-2, 0, -2)));
    assert_eq!(snapshot.cell_offset(4), Some((2, 0, -2)));
    assert_eq!(snapshot.cell_offset(5), Some((-2, 0, -1)));
    assert_eq!(snapshot.cell_offset(12), Some((0, 0, 0)));
    assert_eq!(snapshot.cell_offset(58), Some((1, 2, -1)));
    assert_eq!(snapshot.cell_offset(74), Some((2, 2, 2)));
    assert_eq!(snapshot.cell_offset(75), None);
    assert_eq!(snapshot.cell_offset(usize::MAX), None);
    for slot in 0..75 {
        let (dx, dy, dz) = snapshot.cell_offset(slot).unwrap();
        assert_eq!(snapshot.index(dx, dy, dz), Some(slot));
    }
    assert_eq!(numbered(3, 0, 0, 0, 0).cell_offset(0), None);
    let buffers = VisibilityBuffers::new(32, 24).unwrap();
    assert_eq!(buffers.dispatch_size(), (65, 24, 65));
    assert_eq!(VisibilityBuffers::new(0, 0).unwrap().dispatch_size(), (1, 0, 1));
}
