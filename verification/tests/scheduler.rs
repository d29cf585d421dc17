use azalea_graphics::mesher::{Mesher, WorkerAction};
use azalea_graphics::position::{ChunkPos, ChunkSectionPos};
use azalea_graphics::queue::Job;
use azalea_graphics::snapshot::VisibilitySnapshot;

fn empty_snapshot(radius: i32, height: i32, cx: i32, cz: i32, min_y: i32) -> VisibilitySnapshot {
    let side = (2 * radius + 1) as usize;
    VisibilitySnapshot {
        radius,
        height,
        data: vec![0; side * side * height as usize],
        cx,
        cz,
        min_y,
    }
}

fn show(snapshot: &mut VisibilitySnapshot, spos: ChunkSectionPos, depth: f32) {
    assert!(snapshot.check());
    let dx = spos.x - snapshot.cx;
    let dy = spos.y - snapshot.base_y();
    let dz = spos.z - snapshot.cz;
    let slot = snapshot.index(dx, dy, dz).unwrap();
    snapshot.data[slot] = depth.to_bits();
}

fn positions(jobs: &[Job]) -> Vec<ChunkSectionPos> {
    jobs.iter().map(|job| job.spos).collect()
}

#[test]
fn visible_dirty_sections_are_listed_nearest_first() {
    let mut mesher = Mesher::for_cpus(4);
    for y in 0..5 {
        mesher.submit_section(ChunkSectionPos::new(0, y, 0));
    }
    let mut snapshot = empty_snapshot(2, 8, 0, 0, 0);
    show(&mut snapshot, ChunkSectionPos::new(0, 0, 0), 0.1);
    show(&mut snapshot, ChunkSectionPos::new(0, 1, 0), 0.2);
    show(&mut snapshot, ChunkSectionPos::new(0, 2, 0), 0.3);
    mesher.update_visibility(snapshot);
    let jobs = mesher.pending_jobs();
    assert_eq!(
        positions(&jobs),
        vec![
            ChunkSectionPos::new(0, 0, 0),
            ChunkSectionPos::new(0, 1, 0),
            ChunkSectionPos::new(0, 2, 0),
        ]
    );
    assert_eq!(jobs[0].prio, u32::MAX - 0.1f32.to_bits());
    assert_eq!(jobs[1].prio, u32::MAX - 0.2f32.to_bits());
    assert_eq!(jobs[2].prio, u32::MAX - 0.3f32.to_bits());
    assert!(jobs[0].prio > jobs[1].prio && jobs[1].prio > jobs[2].prio);
}

#[test]
fn nearer_section_comes_first_whatever_its_cell() {
    let mut mesher = Mesher::for_cpus(4);
    let far = ChunkSectionPos::new(-1, 0, -1);
    let near = ChunkSectionPos::new(1, 3, 1);
    let middle = ChunkSectionPos::new(0, 1, 0);
    mesher.submit_section(far);
    mesher.submit_section(near);
    mesher.submit_section(middle);
    let mut snapshot = empty_snapshot(1, 4, 0, 0, 0);
    show(&mut snapshot, far, 0.9);
    show(&mut snapshot, near, 0.05);
    show(&mut snapshot, middle, 0.5);
    mesher.update_visibility(snapshot);
    assert_eq!(positions(&mesher.pending_jobs()), vec![near, middle, far]);
}

#[test]
fn job_list_is_dirty_and_visible_and_nothing_else() {
    let mut mesher = Mesher::for_cpus(4);
    let dirty_visible = ChunkSectionPos::new(1, 0, 0);
    let dirty_hidden = ChunkSectionPos::new(0, 0, 1);
    let dirty_outside = ChunkSectionPos::new(40, 0, 0);
    let clean_visible = ChunkSectionPos::new(-1, 1, 0);
    mesher.submit_section(dirty_visible);
    mesher.submit_section(dirty_hidden);
    mesher.submit_section(dirty_outside);
    let mut snapshot = empty_snapshot(2, 2, 0, 0, 0);
    show(&mut snapshot, dirty_visible, 0.25);
    show(&mut snapshot, clean_visible, 0.125);
    mesher.update_visibility(snapshot);
    assert_eq!(positions(&mesher.pending_jobs()), vec![dirty_visible]);
    assert!(mesher.is_dirty(dirty_hidden));
    assert!(mesher.is_dirty(dirty_outside));
    assert!(!mesher.is_dirty(clean_visible));
}

#[test]
fn equal_depths_keep_the_order_of_the_cells() {
    let mut mesher = Mesher::for_cpus(4);
    let a = ChunkSectionPos::new(1, 1, 1);
    let b = ChunkSectionPos::new(-1, 0, 1);
    let c = ChunkSectionPos::new(0, 0, -1);
    let d = ChunkSectionPos::new(1, 0, -1);
    for p in [a, b, c, d] {
        mesher.submit_section(p);
    }
    let mut snapshot = empty_snapshot(1, 2, 0, 0, 0);
    for p in [a, b, c, d] {
        show(&mut snapshot, p, 0.5);
    }
    mesher.update_visibility(snapshot);
    // cells run along x first, then along z, then upward
    assert_eq!(positions(&mesher.pending_jobs()), vec![c, d, b, a]);
}

#[test]
fn submitting_twice_is_submitting_once() {
    let p = ChunkSectionPos::new(3, 1, -2);
    let mut once = Mesher::for_cpus(4);
    once.submit_section(p);
    let mut twice = Mesher::for_cpus(4);
    twice.submit_section(p);
    twice.submit_section(p);
    for mesher in [&mut once, &mut twice] {
        let mut snapshot = empty_snapshot(4, 4, 0, 0, 0);
        show(&mut snapshot, p, 0.5);
        mesher.update_visibility(snapshot);
        assert_eq!(positions(&mesher.pending_jobs()), vec![p]);
        assert_eq!(mesher.next_action(0), WorkerAction::Mesh(p));
        assert_eq!(mesher.next_action(0), WorkerAction::Park);
        assert!(!mesher.is_dirty(p));
    }
}

#[test]
fn no_section_is_claimed_twice_between_submissions() {
    let mut mesher = Mesher::for_cpus(16);
    let mut all = Vec::new();
    for x in -2..=2 {
        for z in -2..=2 {
            for y in 0..3 {
                all.push(ChunkSectionPos::new(x, y, z));
            }
        }
    }
    let mut snapshot = empty_snapshot(2, 3, 0, 0, 0);
    for (i, p) in all.iter().enumerate() {
        mesher.submit_section(*p);
        show(&mut snapshot, *p, 0.01 + (i % 7) as f32 * 0.1);
    }
    let again = VisibilitySnapshot {
        radius: snapshot.radius,
        height: snapshot.height,
        data: snapshot.data.clone(),
        cx: snapshot.cx,
        cz: snapshot.cz,
        min_y: snapshot.min_y,
    };
    mesher.update_visibility(snapshot);
    let mut claimed: Vec<ChunkSectionPos> = Vec::new();
    let mut turn = 0u32;
    loop {
        // eight workers ask in turn; a new snapshot arrives in the middle
        let worker = turn % 8;
        turn += 1;
        match mesher.next_action(worker) {
            WorkerAction::Mesh(p) => {
                assert!(!claimed.contains(&p), "{:?} was claimed twice", p);
                claimed.push(p);
                if claimed.len() == 20 {
                    let replay = VisibilitySnapshot {
                        radius: again.radius,
                        height: again.height,
                        data: again.data.clone(),
                        cx: again.cx,
                        cz: again.cz,
                        min_y: again.min_y,
                    };
                    mesher.update_visibility(replay);
                }
            }
            WorkerAction::Park => break,
            WorkerAction::Stop => panic!("no worker was told to leave"),
        }
    }
    assert_eq!(claimed.len(), all.len());
    for p in &all {
        assert!(claimed.contains(p));
        assert!(!mesher.is_dirty(*p));
    }
}

#[test]
fn stale_job_is_passed_over() {
    let mut mesher = Mesher::for_cpus(4);
    let a = ChunkSectionPos::new(0, 0, 0);
    let b = ChunkSectionPos::new(0, 1, 0);
    mesher.submit_section(a);
    mesher.submit_section(b);
    let mut first = empty_snapshot(1, 2, 0, 0, 0);
    show(&mut first, a, 0.1);
    show(&mut first, b, 0.2);
    mesher.update_visibility(first);
    assert_eq!(mesher.next_action(0), WorkerAction::Mesh(a));
    // the list is rebuilt with `b` only; `a` is no longer dirty
    let mut second = empty_snapshot(1, 2, 0, 0, 0);
    show(&mut second, a, 0.1);
    show(&mut second, b, 0.2);
    mesher.update_visibility(second);
    assert_eq!(positions(&mesher.pending_jobs()), vec![b]);
    assert_eq!(mesher.next_action(1), WorkerAction::Mesh(b));
    assert_eq!(mesher.next_action(0), WorkerAction::Park);
}

#[test]
fn section_resubmitted_while_in_flight_is_meshed_again() {
    let mut mesher = Mesher::for_cpus(4);
    let p = ChunkSectionPos::new(2, 5, -1);
    mesher.submit_section(p);
    let mut first = empty_snapshot(3, 8, 0, 0, 0);
    show(&mut first, p, 0.4);
    mesher.update_visibility(first);
    assert_eq!(mesher.next_action(0), WorkerAction::Mesh(p));
    // the worker is still meshing when the section changes again
    mesher.submit_section(p);
    assert!(mesher.is_dirty(p));
    // until the next snapshot the worker finds nothing more to do
    assert_eq!(mesher.next_action(0), WorkerAction::Park);
    mesher.record_mesh(1_000);
    let mut second = empty_snapshot(3, 8, 0, 0, 0);
    show(&mut second, p, 0.4);
    mesher.update_visibility(second);
    assert_eq!(positions(&mesher.pending_jobs()), vec![p]);
    assert_eq!(mesher.next_action(0), WorkerAction::Mesh(p));
    assert!(!mesher.is_dirty(p));
    assert_eq!(mesher.next_action(0), WorkerAction::Park);
}

#[test]
fn submit_chunk_submits_every_section_of_the_column() {
    let mut mesher = Mesher::for_cpus(4);
    mesher.submit_chunk(ChunkPos::new(7, -3), -64, 384);
    for y in -4..20 {
        assert!(mesher.is_dirty(ChunkSectionPos::new(7, y, -3)), "y = {}", y);
    }
    assert!(!mesher.is_dirty(ChunkSectionPos::new(7, -5, -3)));
    assert!(!mesher.is_dirty(ChunkSectionPos::new(7, 20, -3)));
    assert!(!mesher.is_dirty(ChunkSectionPos::new(8, 0, -3)));
    assert!(!mesher.is_dirty(ChunkSectionPos::new(7, 0, -2)));
}

#[test]
fn submit_chunk_of_a_flat_world_submits_nothing() {
    let mut mesher = Mesher::for_cpus(4);
    mesher.submit_chunk(ChunkPos::new(0, 0), 0, 15);
    assert!(!mesher.is_dirty(ChunkSectionPos::new(0, 0, 0)));
    mesher.submit_chunk(ChunkPos::new(0, 0), 0, 16);
    assert!(mesher.is_dirty(ChunkSectionPos::new(0, 0, 0)));
    assert!(!mesher.is_dirty(ChunkSectionPos::new(0, 1, 0)));
}

#[test]
fn snapshot_of_another_grid_is_dropped() {
    let mut mesher = Mesher::for_cpus(4);
    let p = ChunkSectionPos::new(0, 0, 0);
    mesher.submit_section(p);
    let mut stale = empty_snapshot(2, 4, 0, 0, 0);
    show(&mut stale, p, 0.5);
    assert!(!mesher.update_visibility_for(stale, 3, 4));
    assert!(mesher.pending_jobs().is_empty());
    assert!(mesher.current_visibility().is_none());
    let mut current = empty_snapshot(3, 4, 0, 0, 0);
    show(&mut current, p, 0.5);
    assert!(mesher.update_visibility_for(current, 3, 4));
    assert_eq!(positions(&mesher.pending_jobs()), vec![p]);
    assert_eq!(mesher.current_visibility().as_ref().unwrap().radius, 3);
}

#[test]
fn new_snapshot_starts_the_list_from_its_head() {
    let mut mesher = Mesher::for_cpus(4);
    let a = ChunkSectionPos::new(0, 0, 0);
    let b = ChunkSectionPos::new(1, 0, 0);
    mesher.submit_section(a);
    mesher.submit_section(b);
    let mut first = empty_snapshot(1, 1, 0, 0, 0);
    show(&mut first, a, 0.3);
    mesher.update_visibility(first);
    assert_eq!(mesher.next_action(0), WorkerAction::Mesh(a));
    assert!(mesher.pending_jobs().is_empty());
    let mut second = empty_snapshot(1, 1, 0, 0, 0);
    show(&mut second, b, 0.3);
    mesher.update_visibility(second);
    assert_eq!(positions(&mesher.pending_jobs()), vec![b]);
}

#[test]
fn workers_leave_when_told_or_when_the_pool_shrinks() {
    let mut mesher = Mesher::for_cpus(8);
    assert_eq!(mesher.get_worker_thread_count(), 4);
    let p = ChunkSectionPos::new(0, 0, 0);
    mesher.submit_section(p);
    let mut snapshot = empty_snapshot(1, 1, 0, 0, 0);
    show(&mut snapshot, p, 0.5);
    mesher.update_visibility(snapshot);
    assert_eq!(mesher.next_action(4), WorkerAction::Stop);
    assert_eq!(mesher.set_worker_threads(2), (2, 2));
    assert_eq!(mesher.get_worker_thread_count(), 2);
    assert_eq!(mesher.next_action(3), WorkerAction::Stop);
    assert_eq!(mesher.next_action(2), WorkerAction::Stop);
    assert!(mesher.is_dirty(p));
    assert_eq!(mesher.set_worker_threads(5), (2, 5));
    assert_eq!(mesher.set_worker_threads(5), (5, 5));
    assert_eq!(mesher.next_action(4), WorkerAction::Mesh(p));
    mesher.submit_section(p);
    mesher.stop();
    assert_eq!(mesher.next_action(0), WorkerAction::Stop);
    assert!(mesher.is_dirty(p));
}

#[test]
fn pool_starts_with_half_the_processors() {
    assert_eq!(Mesher::for_cpus(0).get_worker_thread_count(), 0);
    assert_eq!(Mesher::for_cpus(1).get_worker_thread_count(), 0);
    assert_eq!(Mesher::for_cpus(2).get_worker_thread_count(), 1);
    assert_eq!(Mesher::for_cpus(7).get_worker_thread_count(), 3);
    assert_eq!(Mesher::for_cpus(64).get_worker_thread_count(), 32);
    let here = Mesher::new();
    assert_eq!(here.get_worker_thread_count(), (num_cpus::get().max(1) as u32) / 2);
    assert!(here.pending_jobs().is_empty());
    assert_eq!(here.total_meshes(), 0);
}

#[test]
fn mesh_counters_add_up_and_wrap() {
    let mut mesher = Mesher::for_cpus(2);
    mesher.record_mesh(1_500);
    mesher.record_mesh(2_500);
    assert_eq!(mesher.total_meshes(), 2);
    assert_eq!(mesher.total_mesh_time_ns(), 4_000);
    mesher.record_mesh(u64::MAX);
    assert_eq!(mesher.total_meshes(), 3);
    assert_eq!(mesher.total_mesh_time_ns(), 3_999);
}

#[test]
fn sections_beyond_the_numbers_are_not_listed() {
    let mut mesher = Mesher::for_cpus(2);
    let edge = ChunkSectionPos::new(i32::MAX, 0, i32::MIN);
    mesher.submit_section(edge);
    let mut snapshot = empty_snapshot(1, 1, i32::MAX, i32::MIN, 0);
    for slot in 0..snapshot.data.len() {
        snapshot.data[slot] = 0.5f32.to_bits();
    }
    mesher.update_visibility(snapshot);
    assert_eq!(positions(&mesher.pending_jobs()), vec![edge]);
}

#[test]
fn claim_takes_the_first_section_still_dirty() {
    let mut mesher = Mesher::for_cpus(4);
    let a = ChunkSectionPos::new(0, 0, 0);
    let b = ChunkSectionPos::new(0, 1, 0);
    let c = ChunkSectionPos::new(0, 2, 0);
    for p in [a, b, c] {
        mesher.submit_section(p);
    }
    let mut snapshot = empty_snapshot(0, 3, 0, 0, 0);
    show(&mut snapshot, a, 0.1);
    show(&mut snapshot, b, 0.2);
    show(&mut snapshot, c, 0.3);
    mesher.update_visibility(snapshot);
    assert_eq!(mesher.claim_next(), Some(a));
    assert_eq!(positions(&mesher.pending_jobs()), vec![b, c]);
    assert_eq!(mesher.claim_next(), Some(b));
    assert_eq!(mesher.claim_next(), Some(c));
    assert_eq!(mesher.claim_next(), None);
    assert_eq!(mesher.claim_next(), None);
    assert!(mesher.pending_jobs().is_empty());
    // the list is used up: a section submitted now waits for a snapshot
    mesher.submit_section(a);
    assert_eq!(mesher.claim_next(), None);
    // claiming goes on while the workers are told to leave
    mesher.stop();
    assert_eq!(mesher.next_action(0), WorkerAction::Stop);
    let mut again = empty_snapshot(0, 3, 0, 0, 0);
    show(&mut again, a, 0.1);
    mesher.update_visibility(again);
    assert_eq!(mesher.claim_next(), Some(a));
}
