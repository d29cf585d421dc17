//! The job scheduler: which sections are dirty, which of them the last
//! visibility snapshot shows, and which of those a worker meshes next.

use vstd::prelude::*;
use crate::config::available_cpus;
use crate::dirty::DirtySet;
use crate::position::{div_toward_zero, div_trunc, ChunkPos, ChunkSectionPos, SECTION_SIDE};
use crate::queue::{is_job_list, Job, SharedQueue};
use crate::snapshot::VisibilitySnapshot;

verus! {

/// What a worker does next.
#[derive(Debug, Clone, Copy, PartialEq, Eq, Structural)]
pub enum WorkerAction {
    /// Leave: the pool stops, or has shrunk below this worker.
    Stop,
    /// Sleep until the job list is replaced.
    Park,
    /// Mesh this section: the worker has claimed it.
    Mesh(ChunkSectionPos),
}

/// The state of the scheduler as contracts see it.
pub struct MesherState {
    /// The sections that await a new mesh.
    pub dirty: Set<ChunkSectionPos>,
    /// The job list of the last snapshot.
    pub jobs: Seq<Job>,
    /// Number of jobs of the list that were handed out.
    pub cursor: int,
    /// The snapshot that the job list was made from.
    pub snapshot: Option<VisibilitySnapshot>,
    /// Number of workers that the pool is meant to have.
    pub worker_count: u32,
    /// Whether the workers were told to leave.
    pub should_stop: bool,
    /// Time spent meshing, in nanoseconds, all meshes together.
    pub total_mesh_time_ns: u64,
    /// Number of meshes made.
    pub total_meshes: u64,
}

/// The sections of a chunk column from height `lo` up to, not including,
/// height `hi`.
pub open spec fn column_sections(pos: ChunkPos, lo: int, hi: int) -> Set<ChunkSectionPos> {
    Set::new(|p: ChunkSectionPos| p.x == pos.x && p.z == pos.z && lo <= p.y < hi)
}

/// The y of the lowest section of a world whose first block is at `min_y`.
pub open spec fn lowest_section(min_y: i32) -> int {
    div_toward_zero(min_y as int, 16)
}

/// The y above the highest section of a world of a given height in blocks.
pub open spec fn sections_end(min_y: i32, height: u32) -> int {
    lowest_section(min_y) + div_toward_zero((height as i32) as int, 16)
}

/// Place of the first job at or after `from` whose section is still dirty;
/// the length of the list if there is none.
pub open spec fn first_claimable(jobs: Seq<Job>, dirty: Set<ChunkSectionPos>, from: int) -> int
    decreases jobs.len() - from,
{
    if from < 0 || from >= jobs.len() {
        jobs.len() as int
    } else if dirty.contains(jobs[from].spos) {
        from
    } else {
        first_claimable(jobs, dirty, from + 1)
    }
}

/// What `first_claimable` finds: a job whose section is dirty, with none
/// before it from `from` on.
pub proof fn lemma_first_claimable(jobs: Seq<Job>, dirty: Set<ChunkSectionPos>, from: int)
    requires
        0 <= from <= jobs.len(),
    ensures
        from <= first_claimable(jobs, dirty, from) <= jobs.len(),
        first_claimable(jobs, dirty, from) < jobs.len() ==> dirty.contains(
            jobs[first_claimable(jobs, dirty, from)].spos,
        ),
        forall|m: int|
            from <= m < first_claimable(jobs, dirty, from) ==> !dirty.contains(
                (#[trigger] jobs[m]).spos,
            ),
    decreases jobs.len() - from,
{
    if from < jobs.len() && !dirty.contains(jobs[from].spos) {
        lemma_first_claimable(jobs, dirty, from + 1);
    }
}

impl MesherState {
    /// The jobs handed out are jobs of the list.
    pub open spec fn wf(self) -> bool {
        0 <= self.cursor <= self.jobs.len()
    }

    /// A scheduler with nothing to do and a pool of `workers` workers.
    pub open spec fn initial(workers: u32) -> MesherState {
        MesherState {
            dirty: Set::empty(),
            jobs: Seq::empty(),
            cursor: 0,
            snapshot: None,
            worker_count: workers,
            should_stop: false,
            total_mesh_time_ns: 0,
            total_meshes: 0,
        }
    }

    /// The state after a section was submitted.
    pub open spec fn submit(self, spos: ChunkSectionPos) -> MesherState {
        MesherState { dirty: self.dirty.insert(spos), ..self }
    }

    /// The state after the sections `lo..hi` of a column were submitted.
    pub open spec fn submit_column(self, pos: ChunkPos, lo: int, hi: int) -> MesherState {
        MesherState { dirty: self.dirty.union(column_sections(pos, lo, hi)), ..self }
    }

    /// Says whether `post` is the state after a snapshot arrived: the job
    /// list is the one for the dirty set and the snapshot, nothing of it is
    /// handed out, and the rest is as before.
    pub open spec fn rebuilds_to(self, vis: VisibilitySnapshot, post: MesherState) -> bool {
        &&& is_job_list(post.jobs, self.dirty, vis)
        &&& post == MesherState { jobs: post.jobs, cursor: 0, snapshot: Some(vis), ..self }
    }

    /// The state after a claim, and the section that was claimed: that of
    /// the first job not handed out whose section is still dirty. The
    /// section leaves the dirty set with that; jobs whose sections are no
    /// longer dirty are passed over. Nothing is claimed if no such job is
    /// left, and the list is used up then.
    pub open spec fn claim_next(self) -> (MesherState, Option<ChunkSectionPos>) {
        let k = first_claimable(self.jobs, self.dirty, self.cursor);
        if k < self.jobs.len() {
            (
                MesherState { dirty: self.dirty.remove(self.jobs[k].spos), cursor: k + 1, ..self },
                Some(self.jobs[k].spos),
            )
        } else {
            (MesherState { cursor: self.jobs.len() as int, ..self }, None)
        }
    }

    /// The state after a worker asked what to do, and the answer: to leave
    /// if the pool stops or has no place for the worker, else to mesh the
    /// section that it claims, or to sleep if there is none to claim.
    pub open spec fn next_action(self, worker: u32) -> (MesherState, WorkerAction) {
        if self.should_stop || worker >= self.worker_count {
            (self, WorkerAction::Stop)
        } else {
            match self.claim_next().1 {
                Some(spos) => (self.claim_next().0, WorkerAction::Mesh(spos)),
                None => (self.claim_next().0, WorkerAction::Park),
            }
        }
    }

    /// The state after a mesh that took `nanos` nanoseconds was made. The
    /// counters wrap around.
    pub open spec fn record(self, nanos: u64) -> MesherState {
        MesherState {
            total_mesh_time_ns: wrapped(self.total_mesh_time_ns + nanos),
            total_meshes: wrapped(self.total_meshes + 1),
            ..self
        }
    }

    /// The state after the pool was given a new size.
    pub open spec fn resized(self, workers: u32) -> MesherState {
        MesherState { worker_count: workers, ..self }
    }

    /// The state after the workers were told to leave.
    pub open spec fn stopped(self) -> MesherState {
        MesherState { should_stop: true, ..self }
    }
}

/// A sum of two 64-bit counters, as a 64-bit counter holds it.
pub open spec fn wrapped(sum: int) -> u64 {
    (sum % 0x1_0000_0000_0000_0000) as u64
}

/// Number of workers that a pool starts with on a machine with `cpus`
/// processors: half the count, which is first taken as at least 1 and cut to
/// its low 32 bits.
pub open spec fn initial_workers(cpus: usize) -> u32 {
    ((if cpus >= 1 {
        cpus
    } else {
        1
    }) as u32) / 2
}

/// The scheduler of the meshing jobs: the dirty set, the job list that the
/// last snapshot gave, and the size and the counters of the worker pool.
///
/// Every operation is one step; callers that share a scheduler among threads
/// take one lock around each.
pub struct Mesher {
    dirty: DirtySet,
    shared_queue: SharedQueue,
    current_visibility: Option<VisibilitySnapshot>,
    should_stop: bool,
    worker_count: u32,
    total_mesh_time_ns: u64,
    total_meshes: u64,
}

impl Mesher {
    pub closed spec fn view(&self) -> MesherState {
        MesherState {
            dirty: self.dirty@,
            jobs: self.shared_queue.spec_jobs(),
            cursor: self.shared_queue.spec_cursor(),
            snapshot: self.current_visibility,
            worker_count: self.worker_count,
            should_stop: self.should_stop,
            total_mesh_time_ns: self.total_mesh_time_ns,
            total_meshes: self.total_meshes,
        }
    }

    /// A scheduler with nothing to do, for a machine with `cpus` processors.
    pub fn for_cpus(cpus: usize) -> (mesher: Mesher)
        ensures
            mesher@ == MesherState::initial(initial_workers(cpus)),
            mesher@.wf(),
    {
        let at_least_one: usize = if cpus >= 1 {
            cpus
        } else {
            1
        };
        let cut: u32 = #[verifier::truncate] (at_least_one as u32);
        Mesher {
            dirty: DirtySet::new(),
            shared_queue: SharedQueue::new(),
            current_visibility: None,
            should_stop: false,
            worker_count: cut / 2,
            total_mesh_time_ns: 0,
            total_meshes: 0,
        }
    }

    /// A scheduler with nothing to do, for this machine.
    pub fn new() -> (mesher: Mesher)
        ensures
            exists|cpus: usize|
                cpus >= 1 && mesher@ == MesherState::initial(#[trigger] initial_workers(cpus)),
            mesher@.wf(),
    {
        let cpus = available_cpus();
        Mesher::for_cpus(cpus)
    }

    pub fn submit_section(&mut self, spos: ChunkSectionPos)
        ensures
            old(self)@.wf(),
            final(self)@.wf(),
            final(self)@ == old(self)@.submit(spos),
    {
        proof {
            use_type_invariant(&self.shared_queue);
            self.shared_queue.lemma_cursor_in_range();
        }
        self.dirty.insert(spos);
    }

    /// Submits every section of a chunk column of a world whose first block
    /// is at height `min_y` and that is `height` blocks high.
    pub fn submit_chunk(&mut self, pos: ChunkPos, min_y: i32, height: u32)
        ensures
            old(self)@.wf(),
            final(self)@.wf(),
            final(self)@ == old(self)@.submit_column(
                pos,
                lowest_section(min_y),
                sections_end(min_y, height),
            ),
    {
        proof {
            use_type_invariant(&self.shared_queue);
            self.shared_queue.lemma_cursor_in_range();
        }
        let min: i32 = div_trunc(min_y, SECTION_SIDE);
        let signed: i32 = #[verifier::truncate] (height as i32);
        let max: i32 = min + div_trunc(signed, SECTION_SIDE);
        let mut y: i32 = min;
        assert(self.dirty@ =~= old(self).dirty@.union(
            column_sections(pos, min as int, min as int),
        ));
        while y < max
            invariant
                min <= y,
                y <= max || y == min,
                self.dirty@ == old(self).dirty@.union(column_sections(pos, min as int, y as int)),
                self.shared_queue == old(self).shared_queue,
                self.current_visibility == old(self).current_visibility,
                self.should_stop == old(self).should_stop,
                self.worker_count == old(self).worker_count,
                self.total_mesh_time_ns == old(self).total_mesh_time_ns,
                self.total_meshes == old(self).total_meshes,
            decreases max - y,
        {
            self.dirty.insert(ChunkSectionPos { x: pos.x, y, z: pos.z });
            assert(self.dirty@ =~= old(self).dirty@.union(
                column_sections(pos, min as int, y + 1),
            ));
            y = y + 1;
        }
        assert(self.dirty@ =~= old(self).dirty@.union(
            column_sections(pos, min as int, max as int),
        ));
    }

    /// Takes a new snapshot: the job list becomes the list of the dirty
    /// sections that the snapshot shows, the nearest first.
    pub fn update_visibility(&mut self, snapshot: VisibilitySnapshot)
        requires
            snapshot.wf(),
        ensures
            old(self)@.wf(),
            final(self)@.wf(),
            old(self)@.rebuilds_to(snapshot, final(self)@),
    {
        proof {
            use_type_invariant(&self.shared_queue);
            self.shared_queue.lemma_cursor_in_range();
        }
        self.shared_queue.clear_and_reprioritize(&snapshot, &self.dirty);
        self.current_visibility = Some(snapshot);
    }

    /// Takes a new snapshot if it was made for a grid of the given radius
    /// and height, and says so; one made for another grid is dropped.
    pub fn update_visibility_for(
        &mut self,
        snapshot: VisibilitySnapshot,
        radius: i32,
        height: i32,
    ) -> (taken: bool)
        requires
            snapshot.wf(),
        ensures
            old(self)@.wf(),
            final(self)@.wf(),
            taken == (snapshot.radius == radius && snapshot.height == height),
            taken ==> old(self)@.rebuilds_to(snapshot, final(self)@),
            !taken ==> final(self)@ == old(self)@,
    {
        proof {
            use_type_invariant(&self.shared_queue);
            self.shared_queue.lemma_cursor_in_range();
        }
        if snapshot.radius == radius && snapshot.height == height {
            self.update_visibility(snapshot);
            true
        } else {
            false
        }
    }

    /// Claims the next section to mesh: goes along the job list from where
    /// the last claim stopped, passes over the jobs whose sections are no
    /// longer dirty, and takes the first section that still is out of the
    /// dirty set. Nothing is claimed once the list is used up.
    pub fn claim_next(&mut self) -> (claimed: Option<ChunkSectionPos>)
        ensures
            old(self)@.wf(),
            final(self)@.wf(),
            (final(self)@, claimed) == old(self)@.claim_next(),
    {
        proof {
            use_type_invariant(&self.shared_queue);
            self.shared_queue.lemma_cursor_in_range();
        }
        loop
            invariant
                old(self)@.wf(),
                self.dirty@ == old(self).dirty@,
                self.shared_queue.spec_jobs() == old(self).shared_queue.spec_jobs(),
                old(self).shared_queue.spec_cursor() <= self.shared_queue.spec_cursor(),
                first_claimable(
                    self.shared_queue.spec_jobs(),
                    self.dirty@,
                    self.shared_queue.spec_cursor(),
                ) == first_claimable(
                    old(self).shared_queue.spec_jobs(),
                    old(self).dirty@,
                    old(self).shared_queue.spec_cursor(),
                ),
                self.current_visibility == old(self).current_visibility,
                self.should_stop == old(self).should_stop,
                self.worker_count == old(self).worker_count,
                self.total_mesh_time_ns == old(self).total_mesh_time_ns,
                self.total_meshes == old(self).total_meshes,
            decreases self.shared_queue.spec_jobs().len() - self.shared_queue.spec_cursor(),
        {
            let ghost before = self.dirty@;
            match self.shared_queue.pop(false) {
                None => {
                    return None;
                },
                Some(job) => {
                    if self.dirty.remove(job.spos) {
                        return Some(job.spos);
                    }
                    assert(self.dirty@ =~= before);
                },
            }
        }
    }

    /// Tells worker number `worker` what to do next, and claims the section
    /// for it if the answer is to mesh one.
    pub fn next_action(&mut self, worker: u32) -> (action: WorkerAction)
        ensures
            old(self)@.wf(),
            final(self)@.wf(),
            (final(self)@, action) == old(self)@.next_action(worker),
    {
        proof {
            use_type_invariant(&self.shared_queue);
            self.shared_queue.lemma_cursor_in_range();
        }
        if self.should_stop || worker >= self.worker_count {
            return WorkerAction::Stop;
        }
        match self.claim_next() {
            Some(spos) => WorkerAction::Mesh(spos),
            None => WorkerAction::Park,
        }
    }

    /// Counts a mesh that took `nanos` nanoseconds to make.
    pub fn record_mesh(&mut self, nanos: u64)
        ensures
            old(self)@.wf(),
            final(self)@.wf(),
            final(self)@ == old(self)@.record(nanos),
    {
        proof {
            use_type_invariant(&self.shared_queue);
            self.shared_queue.lemma_cursor_in_range();
        }
        self.total_mesh_time_ns = self.total_mesh_time_ns.wrapping_add(nanos);
        self.total_meshes = self.total_meshes.wrapping_add(1);
    }

    /// Gives the pool a new size. Returns the numbers of the workers to
    /// start, from the first up to, not including, the second: those from
    /// the old size up to the new one where the pool grows, none where it
    /// does not. A worker whose number is not below the new size is told to
    /// leave when it next asks what to do.
    pub fn set_worker_threads(&mut self, new_thread_count: u32) -> (start: (u32, u32))
        ensures
            old(self)@.wf(),
            final(self)@.wf(),
            final(self)@ == old(self)@.resized(new_thread_count),
            start.1 == new_thread_count,
            start.0 == if new_thread_count > old(self)@.worker_count {
                old(self)@.worker_count
            } else {
                new_thread_count
            },
    {
        proof {
            use_type_invariant(&self.shared_queue);
            self.shared_queue.lemma_cursor_in_range();
        }
        let current = self.worker_count;
        self.worker_count = new_thread_count;
        if new_thread_count > current {
            (current, new_thread_count)
        } else {
            (new_thread_count, new_thread_count)
        }
    }

    pub fn get_worker_thread_count(&self) -> (count: u32)
        ensures
            count == self@.worker_count,
    {
        self.worker_count
    }

    /// Tells the workers to leave.
    pub fn stop(&mut self)
        ensures
            old(self)@.wf(),
            final(self)@.wf(),
            final(self)@ == old(self)@.stopped(),
    {
        proof {
            use_type_invariant(&self.shared_queue);
            self.shared_queue.lemma_cursor_in_range();
        }
        self.should_stop = true;
    }

    /// Number of meshes made.
    pub fn total_meshes(&self) -> (count: u64)
        ensures
            count == self@.total_meshes,
    {
        self.total_meshes
    }

    /// Time spent meshing, in nanoseconds.
    pub fn total_mesh_time_ns(&self) -> (nanos: u64)
        ensures
            nanos == self@.total_mesh_time_ns,
    {
        self.total_mesh_time_ns
    }

    /// Says whether a section awaits a new mesh.
    pub fn is_dirty(&self, spos: ChunkSectionPos) -> (dirty: bool)
        ensures
            dirty == self@.dirty.contains(spos),
    {
        self.dirty.contains(spos)
    }

    /// The jobs that were not handed out yet, in their order.
    pub fn pending_jobs(&self) -> (jobs: Vec<Job>)
        ensures
            self@.wf(),
            jobs@ == self@.jobs.skip(self@.cursor),
    {
        self.shared_queue.pending()
    }

    /// The snapshot that the job list was made from.
    pub fn current_visibility(&self) -> (snapshot: &Option<VisibilitySnapshot>)
        ensures
            *snapshot == self@.snapshot,
    {
        &self.current_visibility
    }
}

} // verus!
