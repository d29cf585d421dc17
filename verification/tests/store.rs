use azalea_graphics::chunk::{Biome, BlockKind, BlockState};
use std::cell::RefCell;

use azalea_graphics::frame::{FrameSync, StagingArena, VkObject, MAX_FRAMES_IN_FLIGHT};
use azalea_graphics::mesh::{BlockVertex, Face, MeshData};
use azalea_graphics::meshes::{has_geometry, MeshStore, SectionMeshes};
use azalea_graphics::position::ChunkSectionPos;
use azalea_graphics::timings::{
    Timings, END_FRAME, END_UI_PASS, START_FRAME, START_HIZ_COMPUTE, START_UI_PASS,
    TIMESTAMP_COUNT,
};

/// An object that writes its name into the context when it is freed.
struct Named(&'static str);

impl VkObject for Named {
    type Context = RefCell<Vec<&'static str>>;

    fn destroy(&self, ctx: &Self::Context) {
        ctx.borrow_mut().push(self.0);
    }
}

#[test]
fn a_section_has_one_mesh_at_a_time() {
    let mut store: MeshStore<Named> = MeshStore::new();
    let a = ChunkSectionPos::new(0, 0, 0);
    let b = ChunkSectionPos::new(0, 1, 0);
    assert!(store.insert_block(a, Named("first")).is_none());
    assert!(store.insert_block(b, Named("other")).is_none());
    assert_eq!(store.insert_block(a, Named("second")).map(|m| m.0), Some("first"));
    assert!(store.insert_water(a, Named("pond")).is_none());
    assert_eq!(store.insert_water(a, Named("lake")).map(|m| m.0), Some("pond"));
    assert_eq!(store.blocks.get(a).map(|m| m.0), Some("second"));
    assert_eq!(store.blocks.get(b).map(|m| m.0), Some("other"));
    assert_eq!(store.water.get(a).map(|m| m.0), Some("lake"));
    assert!(store.water.get(b).is_none());
    assert_eq!(store.blocks.len(), 2);
    assert_eq!(store.water.len(), 1);
    let freed = RefCell::new(Vec::new());
    store.drain_and_destroy(&freed);
    assert_eq!(*freed.borrow(), vec!["second", "other", "lake"]);
    assert_eq!(store.blocks.len(), 0);
    assert_eq!(store.water.len(), 0);
    assert!(store.blocks.get(a).is_none());
    store.drain_and_destroy(&freed);
    assert_eq!(freed.borrow().len(), 3);
    assert!(store.insert_block(a, Named("third")).is_none());
}

#[test]
fn drained_meshes_come_in_the_order_of_their_sections() {
    let mut meshes: SectionMeshes<u32> = SectionMeshes::new();
    for i in 0..50 {
        assert_eq!(meshes.insert(ChunkSectionPos::new(i, -i, 7 * i), i as u32), None);
    }
    for i in (0..50).step_by(3) {
        let spos = ChunkSectionPos::new(i, -i, 7 * i);
        assert_eq!(meshes.insert(spos, 1000 + i as u32), Some(i as u32));
    }
    assert_eq!(meshes.len(), 50);
    assert_eq!(meshes.get(ChunkSectionPos::new(3, -3, 21)), Some(&1003));
    assert_eq!(meshes.get(ChunkSectionPos::new(4, -4, 28)), Some(&4));
    assert_eq!(meshes.get(ChunkSectionPos::new(4, -4, 27)), None);
    let drained = meshes.drain();
    let expected: Vec<u32> = (0..50).map(|i| if i % 3 == 0 { 1000 + i } else { i }).collect();
    assert_eq!(drained, expected);
}

#[test]
fn mesh_without_vertices_is_not_stored() {
    let spos = ChunkSectionPos::new(0, 0, 0);
    let empty = MeshData { vertices: vec![], indices: vec![], section_pos: spos };
    assert!(!has_geometry(&empty));
    let vertex = BlockVertex {
        x: 0,
        y: 0,
        z: 0,
        ao: 0,
        corner: 0,
        face: Face::Up,
        state: BlockState { id: 1, kind: BlockKind::Solid },
        biome: Biome { id: 0 },
    };
    let full =
        MeshData { vertices: vec![vertex; 4], indices: vec![0, 1, 2, 0, 2, 3], section_pos: spos };
    assert!(has_geometry(&full));
}

#[test]
fn frames_take_turns() {
    let mut sync: FrameSync<Named> = FrameSync::new();
    assert_eq!(MAX_FRAMES_IN_FLIGHT, 2);
    assert_eq!(sync.next_frame(), 0);
    assert_eq!(sync.next_frame(), 1);
    assert_eq!(sync.next_frame(), 0);
    assert_eq!(sync.current_frame, 1);
    assert!(sync.check());
    sync.deletion_queues.pop();
    assert!(!sync.check());
    let mut arena: StagingArena<Named> = StagingArena::new();
    assert!(arena.check());
    arena.per_frame.push(Vec::new());
    assert!(!arena.check());
}

#[test]
fn objects_wait_for_their_frame() {
    let freed = RefCell::new(Vec::new());
    let mut sync: FrameSync<Named> = FrameSync::new();
    sync.add_to_deletion_queue(0, Named("a"));
    sync.add_to_deletion_queue(1, Named("b"));
    sync.add_to_deletion_queue(0, Named("c"));
    sync.process_deletion_queue(&freed, 0);
    assert_eq!(*freed.borrow(), vec!["a", "c"]);
    assert!(sync.deletion_queues[0].is_empty());
    assert_eq!(sync.deletion_queues[1].len(), 1);
    sync.process_deletion_queue(&freed, 0);
    assert_eq!(*freed.borrow(), vec!["a", "c"]);
    sync.add_to_deletion_queue(0, Named("d"));
    sync.destroy(&freed);
    assert_eq!(*freed.borrow(), vec!["a", "c", "d", "b"]);
    assert!(sync.deletion_queues.iter().all(|queue| queue.is_empty()));
}

#[test]
fn staging_buffers_are_freed_with_their_frame() {
    let freed = RefCell::new(Vec::new());
    let mut arena: StagingArena<Named> = StagingArena::new();
    arena.push(1, Named("x"));
    arena.push(1, Named("y"));
    arena.push(0, Named("z"));
    arena.clear_frame(&freed, 1);
    assert_eq!(*freed.borrow(), vec!["x", "y"]);
    arena.clear_frame(&freed, 1);
    assert_eq!(*freed.borrow(), vec!["x", "y"]);
    arena.push(1, Named("v"));
    arena.push(0, Named("w"));
    arena.destroy_all(&freed);
    assert_eq!(*freed.borrow(), vec!["x", "y", "z", "w", "v"]);
    assert!(arena.per_frame.iter().all(|list| list.is_empty()));
}

#[test]
fn ticks_between_stamps_do_not_go_below_zero() {
    let mut ticks = [0u64; TIMESTAMP_COUNT];
    ticks[START_FRAME] = 1_000;
    ticks[END_FRAME] = 4_500;
    ticks[START_UI_PASS] = 900;
    ticks[END_UI_PASS] = 800;
    ticks[START_HIZ_COMPUTE] = u64::MAX;
    let timings = Timings::from_ticks(ticks);
    assert_eq!(timings.delta_ticks(START_FRAME, END_FRAME), 3_500);
    assert_eq!(timings.delta_ticks(END_FRAME, START_FRAME), 0);
    assert_eq!(timings.delta_ticks(START_UI_PASS, END_UI_PASS), 0);
    assert_eq!(timings.delta_ticks(START_FRAME, START_HIZ_COMPUTE), u64::MAX - 1_000);
    assert_eq!(timings.delta_ticks(START_FRAME, START_FRAME), 0);
}
