use azalea_graphics::chunk::{
    build_local_section, neighbor_positions, Biome, BlockKind, BlockState, BorrowedChunks, Chunk,
    LocalSection, Section, EAST, NE, NORTH, NW, SE, SOUTH, SW, WEST,
};
use azalea_graphics::position::{ChunkPos, ChunkSectionPos};

fn solid(id: u32) -> BlockState {
    BlockState { id, kind: BlockKind::Solid }
}

/// A section whose block at `(x, y, z)` has the id `tag + x + 16 z + 256 y`.
fn section(tag: u32) -> Section {
    let mut blocks = Vec::new();
    for y in 0..16u32 {
        for z in 0..16u32 {
            for x in 0..16u32 {
                blocks.push(solid(tag + x + 16 * z + 256 * y));
            }
        }
    }
    let mut biomes = Vec::new();
    for i in 0..64u32 {
        biomes.push(Biome { id: tag + i });
    }
    let section = Section { blocks, biomes };
    assert!(section.check());
    section
}

fn chunk(tag: u32, sections: u32) -> Chunk {
    let chunk = Chunk { sections: (0..sections).map(|s| section(tag + s * 10_000)).collect() };
    assert!(chunk.check());
    chunk
}

fn id_at(x: u32, y: u32, z: u32) -> u32 {
    x + 16 * z + 256 * y
}

#[test]
fn section_reads_blocks_and_biomes() {
    let s = section(0);
    assert_eq!(s.get_block_state(0, 0, 0), solid(0));
    assert_eq!(s.get_block_state(15, 0, 0), solid(15));
    assert_eq!(s.get_block_state(0, 0, 1), solid(16));
    assert_eq!(s.get_block_state(0, 1, 0), solid(256));
    assert_eq!(s.get_block_state(3, 4, 5), solid(3 + 80 + 1024));
    assert_eq!(s.get_biome(0, 0, 0), Biome { id: 0 });
    assert_eq!(s.get_biome(0, 0, 3), Biome { id: 3 });
    assert_eq!(s.get_biome(0, 1, 0), Biome { id: 4 });
    assert_eq!(s.get_biome(1, 0, 0), Biome { id: 16 });
    assert_eq!(s.get_biome(3, 3, 3), Biome { id: 63 });
    let mut broken = section(0);
    broken.blocks.pop();
    assert!(!broken.check());
    assert!(!Chunk { sections: vec![section(0), broken] }.check());
}

#[test]
fn block_states_tell_air_and_water() {
    assert!(BlockState::air().is_air());
    assert!(!BlockState::air().is_water());
    assert_eq!(BlockState::air(), BlockState { id: 0, kind: BlockKind::Air });
    let water = BlockState { id: 86, kind: BlockKind::Water };
    assert!(water.is_water());
    assert!(!water.is_air());
    assert!(!solid(1).is_air());
    assert!(!solid(1).is_water());
}

#[test]
fn neighbours_are_listed_in_a_fixed_order() {
    let around = neighbor_positions(ChunkPos::new(10, 20));
    assert_eq!(around[NORTH], Some(ChunkPos::new(10, 19)));
    assert_eq!(around[SOUTH], Some(ChunkPos::new(10, 21)));
    assert_eq!(around[EAST], Some(ChunkPos::new(11, 20)));
    assert_eq!(around[WEST], Some(ChunkPos::new(9, 20)));
    assert_eq!(around[NE], Some(ChunkPos::new(11, 19)));
    assert_eq!(around[NW], Some(ChunkPos::new(9, 19)));
    assert_eq!(around[SE], Some(ChunkPos::new(11, 21)));
    assert_eq!(around[SW], Some(ChunkPos::new(9, 21)));
    let edge = neighbor_positions(ChunkPos::new(i32::MAX, i32::MIN));
    assert_eq!(edge[NORTH], None);
    assert_eq!(edge[SOUTH], Some(ChunkPos::new(i32::MAX, i32::MIN + 1)));
    assert_eq!(edge[EAST], None);
    assert_eq!(edge[WEST], Some(ChunkPos::new(i32::MAX - 1, i32::MIN)));
    assert_eq!(edge[NE], None);
    assert_eq!(edge[NW], None);
    assert_eq!(edge[SE], None);
    assert_eq!(edge[SW], Some(ChunkPos::new(i32::MAX - 1, i32::MIN + 1)));
}

#[test]
fn local_blocks_come_from_the_column_that_holds_them() {
    let center = chunk(0, 3);
    let north = chunk(100_000, 3);
    let south = chunk(200_000, 3);
    let east = chunk(300_000, 3);
    let west = chunk(400_000, 3);
    let ne = chunk(500_000, 3);
    let nw = chunk(600_000, 3);
    let se = chunk(700_000, 3);
    let sw = chunk(800_000, 3);
    let mut neighbors: [Option<&Chunk>; 8] = [None; 8];
    neighbors[NORTH] = Some(&north);
    neighbors[SOUTH] = Some(&south);
    neighbors[EAST] = Some(&east);
    neighbors[WEST] = Some(&west);
    neighbors[NE] = Some(&ne);
    neighbors[NW] = Some(&nw);
    neighbors[SE] = Some(&se);
    neighbors[SW] = Some(&sw);
    let chunks = BorrowedChunks { center: &center, neighbors, min_y: -4 };
    // section 1 of the columns, which lies at y = -3
    let at = |lx: i32, ly: i32, lz: i32| chunks.get_block_local(1, lx, ly, lz).map(|s| s.id);
    assert_eq!(at(0, 0, 0), Some(10_000));
    assert_eq!(at(5, 6, 7), Some(10_000 + id_at(5, 6, 7)));
    assert_eq!(at(15, 15, 15), Some(10_000 + id_at(15, 15, 15)));
    assert_eq!(at(3, 0, -1), Some(110_000 + id_at(3, 0, 15)));
    assert_eq!(at(3, 0, 16), Some(210_000 + id_at(3, 0, 0)));
    assert_eq!(at(16, 2, 3), Some(310_000 + id_at(0, 2, 3)));
    assert_eq!(at(-1, 2, 3), Some(410_000 + id_at(15, 2, 3)));
    assert_eq!(at(16, 0, -1), Some(510_000 + id_at(0, 0, 15)));
    assert_eq!(at(-1, 0, -1), Some(610_000 + id_at(15, 0, 15)));
    assert_eq!(at(16, 0, 16), Some(710_000 + id_at(0, 0, 0)));
    assert_eq!(at(-1, 0, 16), Some(810_000 + id_at(15, 0, 0)));
    // above and below
    assert_eq!(at(4, 16, 4), Some(20_000 + id_at(4, 0, 4)));
    assert_eq!(at(4, -1, 4), Some(id_at(4, 15, 4)));
    assert_eq!(at(4, 32, 4), None);
    assert_eq!(at(4, -17, 4), None);
    // two columns away there is nothing
    assert_eq!(at(32, 0, 0), None);
    assert_eq!(at(0, 0, -17), None);
    assert_eq!(at(i32::MIN, i32::MIN, i32::MIN), None);
    assert_eq!(chunks.get_block_local(i32::MAX, 0, i32::MAX, 0), None);
    assert_eq!(chunks.get_block_local(-1, 0, 16, 0).map(|s| s.id), Some(0));
}

#[test]
fn local_section_holds_the_section_and_its_rim() {
    let center = chunk(0, 3);
    let east = chunk(300_000, 3);
    let mut neighbors: [Option<&Chunk>; 8] = [None; 8];
    neighbors[EAST] = Some(&east);
    let chunks = BorrowedChunks { center: &center, neighbors, min_y: -4 };
    let spos = ChunkSectionPos::new(8, -3, 9);
    let local = chunks.build_local_section(spos);
    assert!(local.check());
    assert_eq!(local.spos, spos);
    for x in 0..18usize {
        for y in 0..18usize {
            for z in 0..18usize {
                let expected = chunks.get_block_local(1, x as i32 - 1, y as i32 - 1, z as i32 - 1);
                assert_eq!(local.block(x, y, z), expected);
            }
        }
    }
    assert_eq!(local.block(1, 1, 1), Some(solid(10_000)));
    assert_eq!(local.block(16, 16, 16), Some(solid(10_000 + id_at(15, 15, 15))));
    assert_eq!(local.block(17, 1, 1), Some(solid(310_000)));
    assert_eq!(local.block(0, 1, 1), None);
    assert_eq!(local.block(1, 1, 0), None);
    assert_eq!(local.block(1, 0, 1), Some(solid(id_at(0, 15, 0))));
    assert_eq!(local.block(1, 17, 1), Some(solid(20_000)));
    for x in 0..4usize {
        for y in 0..4usize {
            for z in 0..4usize {
                let id = 10_000 + (x * 16 + y * 4 + z) as u32;
                assert_eq!(local.biome(x, y, z), Biome { id });
            }
        }
    }
}

#[test]
fn section_outside_the_column_is_all_absent() {
    let center = chunk(0, 2);
    let chunks = BorrowedChunks { center: &center, neighbors: [None; 8], min_y: 0 };
    let above = chunks.build_local_section(ChunkSectionPos::new(0, 5, 0));
    assert!(above.blocks.iter().all(|b| b.is_none()));
    assert!(above.biomes.iter().all(|b| *b == Biome { id: 0 }));
    let below = chunks.build_local_section(ChunkSectionPos::new(0, -1, 0));
    assert_eq!(below.block(1, 17, 1), Some(solid(0)));
    assert_eq!(below.block(1, 16, 1), None);
    assert!(below.biomes.iter().all(|b| *b == Biome { id: 0 }));
    let far = chunks.build_local_section(ChunkSectionPos::new(0, i32::MIN, 0));
    assert!(far.blocks.iter().all(|b| b.is_none()));
}

#[test]
fn nothing_is_built_without_the_center_column() {
    let east = chunk(300_000, 1);
    let mut neighbors: [Option<&Chunk>; 8] = [None; 8];
    neighbors[EAST] = Some(&east);
    assert!(build_local_section(None, neighbors, 0, ChunkSectionPos::new(0, 0, 0)).is_none());
    let center = chunk(0, 24);
    let local: LocalSection =
        build_local_section(Some(&center), neighbors, -64, ChunkSectionPos::new(0, -4, 0)).unwrap();
    assert_eq!(local.block(1, 1, 1), Some(solid(0)));
    assert_eq!(local.block(1, 17, 1), Some(solid(10_000)));
    assert_eq!(local.block(1, 0, 1), None);
    assert_eq!(local.block(17, 1, 1), Some(solid(300_000)));
    let higher = build_local_section(Some(&center), neighbors, -64, ChunkSectionPos::new(0, 19, 0))
        .unwrap();
    assert_eq!(higher.block(1, 1, 1), Some(solid(230_000)));
    assert_eq!(higher.block(1, 17, 1), None);
    assert_eq!(higher.block(17, 1, 1), None);
}
