//! The job list: the dirty sections that a snapshot shows, the nearest first.

use vstd::prelude::*;
use vstd::seq_lib::*;
use crate::dirty::DirtySet;
use crate::position::ChunkSectionPos;
use crate::snapshot::{
    cell_slot, grid_side, lemma_cell_slot, Depth, VisibilitySnapshot, NOT_VISIBLE,
};

verus! {

/// A section to mesh, with how urgent it is.
#[derive(Debug, Clone, Copy)]
pub struct Job {
    pub prio: u32,
    pub spos: ChunkSectionPos,
}

/// The priority that a depth key gives: the nearer the cell, the higher.
pub open spec fn priority_of(depth: Depth) -> u32 {
    (u32::MAX - depth) as u32
}

/// The slot of a section's cell in a snapshot; `-1` for a section outside
/// the grid.
pub open spec fn slot_of(vis: VisibilitySnapshot, spos: ChunkSectionPos) -> int {
    match vis.spec_section_index(spos) {
        Some(s) => s,
        None => -1,
    }
}

/// The order of a job list: the higher priority first, and of two jobs of
/// one priority the one whose cell comes first in the snapshot.
pub open spec fn comes_before(vis: VisibilitySnapshot, a: Job, b: Job) -> bool {
    a.prio > b.prio || (a.prio == b.prio && slot_of(vis, a.spos) < slot_of(vis, b.spos))
}

/// A job list is the list for a dirty set and a snapshot if it holds exactly
/// the dirty sections that are visible, each once and with the priority that
/// its depth gives, in the order of `comes_before`.
pub open spec fn is_job_list(
    jobs: Seq<Job>,
    dirty: Set<ChunkSectionPos>,
    vis: VisibilitySnapshot,
) -> bool {
    &&& forall|i: int|
        0 <= i < jobs.len() ==> {
            &&& dirty.contains((#[trigger] jobs[i]).spos)
            &&& vis.spec_section_is_visible(jobs[i].spos)
            &&& Some(jobs[i].prio) == match vis.spec_section_depth(jobs[i].spos) {
                Some(d) => Some(priority_of(d)),
                None => None,
            }
        }
    &&& forall|p: ChunkSectionPos|
        dirty.contains(p) && #[trigger] vis.spec_section_is_visible(p) ==> exists|i: int|
            0 <= i < jobs.len() && (#[trigger] jobs[i]).spos == p
    &&& forall|i: int, j: int|
        0 <= i < j < jobs.len() ==> (#[trigger] jobs[i]).spos != (#[trigger] jobs[j]).spos
            && comes_before(vis, jobs[i], jobs[j])
}

/// Two sections with one cell are one section.
pub proof fn lemma_slot_names_section(
    vis: VisibilitySnapshot,
    p: ChunkSectionPos,
    q: ChunkSectionPos,
)
    requires
        vis.spec_section_index(p) is Some,
        vis.spec_section_index(p) == vis.spec_section_index(q),
    ensures
        p == q,
{
    let side = grid_side(vis.radius as int);
    let r = vis.radius as int;
    let b = vis.spec_base_y();
    lemma_cell_slot(side, vis.height as int, p.x - vis.cx + r, p.y - b, p.z - vis.cz + r);
    lemma_cell_slot(side, vis.height as int, q.x - vis.cx + r, q.y - b, q.z - vis.cz + r);
}

/// A job on its way into a job list, with the slot of its cell.
#[derive(Clone, Copy)]
struct Candidate {
    prio: u32,
    slot: usize,
    spos: ChunkSectionPos,
}

/// Says whether a candidate may stand before another in a job list.
spec fn not_after(a: Candidate, b: Candidate) -> bool {
    a.prio > b.prio || (a.prio == b.prio && a.slot <= b.slot)
}

/// Says whether candidates stand in the order of a job list.
spec fn ordered(list: Seq<Candidate>) -> bool {
    forall|i: int, j: int|
        0 <= i < j < list.len() ==> not_after(#[trigger] list[i], #[trigger] list[j])
}

/// Says whether a candidate is what a snapshot and a dirty set give for a
/// section.
spec fn is_candidate(c: Candidate, dirty: Set<ChunkSectionPos>, vis: VisibilitySnapshot) -> bool {
    &&& dirty.contains(c.spos)
    &&& vis.spec_section_is_visible(c.spos)
    &&& vis.spec_section_index(c.spos) == Some(c.slot as int)
    &&& c.prio == priority_of(vis.data@[c.slot as int])
}

/// The candidates for the cells of a snapshot that are visible and dirty,
/// in the order of the cells.
fn collect_candidates(vis: &VisibilitySnapshot, dirty: &DirtySet) -> (cand: Vec<Candidate>)
    requires
        vis.wf(),
    ensures
        forall|k: int| 0 <= k < cand.len() ==> is_candidate(#[trigger] cand[k], dirty@, *vis),
        forall|p: ChunkSectionPos|
            dirty@.contains(p) && #[trigger] vis.spec_section_is_visible(p) ==> exists|k: int|
                0 <= k < cand.len() && (#[trigger] cand[k]).spos == p,
        forall|a: int, b: int|
            0 <= a < b < cand.len() ==> (#[trigger] cand[a]).slot < (#[trigger] cand[b]).slot,
{
    let mut cand: Vec<Candidate> = Vec::new();
    let n: usize = vis.data.len();
    let r: i64 = vis.radius as i64;
    let side: i64 = 2 * r + 1;
    let base: i64 = vis.base_y() as i64;
    let cx: i64 = vis.cx as i64;
    let cz: i64 = vis.cz as i64;
    let mut i: usize = 0;
    let mut x: i64 = 0;
    let mut y: i64 = 0;
    let mut z: i64 = 0;
    proof {
        assert(cell_slot(side as int, 0, 0, 0) == 0) by (nonlinear_arith);
    }
    while i < n
        invariant
            vis.wf(),
            n == vis.data.len(),
            r == vis.radius,
            side == grid_side(vis.radius as int),
            base == vis.spec_base_y(),
            cx == vis.cx,
            cz == vis.cz,
            0 <= i <= n,
            0 <= x < side,
            0 <= z < side,
            0 <= y,
            i == cell_slot(side as int, x as int, y as int, z as int),
            forall|k: int|
                0 <= k < cand.len() ==> is_candidate(#[trigger] cand[k], dirty@, *vis)
                    && cand[k].slot < i,
            forall|p: ChunkSectionPos|
                dirty@.contains(p) && #[trigger] vis.spec_section_is_visible(p) && slot_of(*vis, p)
                    < i ==> exists|k: int| 0 <= k < cand.len() && (#[trigger] cand[k]).spos == p,
            forall|a: int, b: int|
                0 <= a < b < cand.len() ==> (#[trigger] cand[a]).slot < (#[trigger] cand[b]).slot,
        decreases n - i,
    {
        proof {
            // the running cell lies within the grid
            assert(y < vis.height) by (nonlinear_arith)
                requires
                    i == y * side * side + z * side + x,
                    i < side * side * vis.height,
                    0 <= x,
                    0 <= z,
                    0 <= y,
                    1 <= side,
            ;
        }
        let px: i64 = cx + (x - r);
        let py: i64 = base + y;
        let pz: i64 = cz + (z - r);
        let ghost old_cand = cand@;
        let fits: bool = -0x8000_0000 <= px && px <= 0x7fff_ffff && -0x8000_0000 <= py && py
            <= 0x7fff_ffff && -0x8000_0000 <= pz && pz <= 0x7fff_ffff;
        if fits {
            let spos = ChunkSectionPos { x: px as i32, y: py as i32, z: pz as i32 };
            assert(vis.spec_section_index(spos) == Some(i as int));
            let depth = vis.data[i];
            if depth != NOT_VISIBLE {
                if dirty.contains(spos) {
                    cand.push(Candidate { prio: u32::MAX - depth, slot: i, spos });
                }
            }
            proof {
                assert forall|p: ChunkSectionPos|
                    dirty@.contains(p) && #[trigger] vis.spec_section_is_visible(p) && slot_of(
                        *vis,
                        p,
                    ) < i + 1 implies exists|k: int|
                    0 <= k < cand.len() && (#[trigger] cand[k]).spos == p by {
                    if slot_of(*vis, p) < i {
                        let k = choose|k: int|
                            0 <= k < old_cand.len() && (#[trigger] old_cand[k]).spos == p;
                        assert(cand[k].spos == p);
                    } else {
                        lemma_slot_names_section(*vis, p, spos);
                        assert(cand[cand.len() - 1].spos == p);
                    }
                }
            }
        } else {
            proof {
                assert forall|p: ChunkSectionPos|
                    dirty@.contains(p) && #[trigger] vis.spec_section_is_visible(p) && slot_of(
                        *vis,
                        p,
                    ) < i + 1 implies exists|k: int|
                    0 <= k < cand.len() && (#[trigger] cand[k]).spos == p by {
                    if slot_of(*vis, p) < i {
                    } else {
                        lemma_cell_slot(
                            side as int,
                            vis.height as int,
                            p.x - vis.cx + r,
                            p.y - base,
                            p.z - vis.cz + r,
                        );
                        lemma_cell_slot(
                            side as int,
                            vis.height as int,
                            x as int,
                            y as int,
                            z as int,
                        );
                        assert(false);
                    }
                }
            }
        }
        proof {
            // the slot of the next cell
            assert(cell_slot(side as int, x + 1, y as int, z as int) == i + 1) by (nonlinear_arith)
                requires
                    i == cell_slot(side as int, x as int, y as int, z as int),
            ;
            if x + 1 == side {
                assert(cell_slot(side as int, 0, y as int, z + 1) == i + 1) by (nonlinear_arith)
                    requires
                        i == cell_slot(side as int, x as int, y as int, z as int),
                        x + 1 == side,
                ;
                if z + 1 == side {
                    assert(cell_slot(side as int, 0, y + 1, 0) == i + 1) by (nonlinear_arith)
                        requires
                            i == cell_slot(side as int, x as int, y as int, z as int),
                            x + 1 == side,
                            z + 1 == side,
                    ;
                }
            }
        }
        x = x + 1;
        if x == side {
            x = 0;
            z = z + 1;
            if z == side {
                z = 0;
                y = y + 1;
            }
        }
        i = i + 1;
    }
    proof {
        assert forall|p: ChunkSectionPos| #[trigger]
            vis.spec_section_is_visible(p) implies slot_of(*vis, p) < n by {
            lemma_cell_slot(
                side as int,
                vis.height as int,
                p.x - vis.cx + r,
                p.y - base,
                p.z - vis.cz + r,
            );
        }
    }
    cand
}

/// Merges two lists that stand in the order of a job list into one.
fn merge(left: &Vec<Candidate>, right: &Vec<Candidate>) -> (out: Vec<Candidate>)
    requires
        ordered(left@),
        ordered(right@),
    ensures
        ordered(out@),
        out@.to_multiset() == left@.to_multiset().add(right@.to_multiset()),
{
    broadcast use {vstd::multiset::group_multiset_axioms, group_to_multiset_ensures};

    let mut out: Vec<Candidate> = Vec::new();
    let mut i: usize = 0;
    let mut j: usize = 0;
    proof {
        assert(left@.take(0) =~= Seq::<Candidate>::empty());
        assert(right@.take(0) =~= Seq::<Candidate>::empty());
        assert(out@ =~= Seq::<Candidate>::empty());
        assert(Seq::<Candidate>::empty().to_multiset().len() == 0);
        assert(out@.to_multiset() =~= left@.take(0).to_multiset().add(
            right@.take(0).to_multiset(),
        ));
    }
    while i < left.len() || j < right.len()
        invariant
            ordered(left@),
            ordered(right@),
            i <= left.len(),
            j <= right.len(),
            out.len() == i + j,
            out@.to_multiset() == left@.take(i as int).to_multiset().add(
                right@.take(j as int).to_multiset(),
            ),
            ordered(out@),
            forall|k: int|
                0 <= k < out.len() ==> (i < left.len() ==> not_after(
                    #[trigger] out[k],
                    left[i as int],
                )) && (j < right.len() ==> not_after(out[k], right[j as int])),
        decreases left.len() - i + right.len() - j,
    {
        let from_left: bool = if i == left.len() {
            false
        } else if j == right.len() {
            true
        } else {
            let a = left[i];
            let b = right[j];
            a.prio > b.prio || (a.prio == b.prio && a.slot <= b.slot)
        };
        let ghost before = out@;
        if from_left {
            let c = left[i];
            out.push(c);
            proof {
                to_multiset_build(before, c);
                to_multiset_build(left@.take(i as int), c);
                assert(left@.take(i + 1) =~= left@.take(i as int).push(c));
                assert(out@.to_multiset() =~= left@.take(i + 1).to_multiset().add(
                    right@.take(j as int).to_multiset(),
                ));
                assert forall|a: int, b: int| 0 <= a < b < out.len() implies not_after(
                    #[trigger] out[a],
                    #[trigger] out[b],
                ) by {
                    if b < before.len() {
                        assert(not_after(before[a], before[b]));
                    } else {
                        assert(not_after(before[a], left[i as int]));
                    }
                }
                assert forall|k: int| 0 <= k < out.len() implies (i + 1 < left.len() ==> not_after(
                    #[trigger] out[k],
                    left[i + 1],
                )) && (j < right.len() ==> not_after(out[k], right[j as int])) by {
                    if i + 1 < left.len() {
                        assert(not_after(left[i as int], left[i + 1]));
                    }
                    if k < before.len() {
                        assert(out[k] == before[k]);
                    }
                }
            }
            i = i + 1;
        } else {
            let c = right[j];
            out.push(c);
            proof {
                to_multiset_build(before, c);
                to_multiset_build(right@.take(j as int), c);
                assert(right@.take(j + 1) =~= right@.take(j as int).push(c));
                assert(out@.to_multiset() =~= left@.take(i as int).to_multiset().add(
                    right@.take(j + 1).to_multiset(),
                ));
                assert forall|a: int, b: int| 0 <= a < b < out.len() implies not_after(
                    #[trigger] out[a],
                    #[trigger] out[b],
                ) by {
                    if b < before.len() {
                        assert(not_after(before[a], before[b]));
                    } else {
                        assert(not_after(before[a], right[j as int]));
                    }
                }
                assert forall|k: int| 0 <= k < out.len() implies (i < left.len() ==> not_after(
                    #[trigger] out[k],
                    left[i as int],
                )) && (j + 1 < right.len() ==> not_after(out[k], right[j + 1])) by {
                    if j + 1 < right.len() {
                        assert(not_after(right[j as int], right[j + 1]));
                    }
                    if k < before.len() {
                        assert(out[k] == before[k]);
                    }
                }
            }
            j = j + 1;
        }
    }
    proof {
        assert(left@.take(left.len() as int) =~= left@);
        assert(right@.take(right.len() as int) =~= right@);
    }
    out
}

/// Sorts candidates into the order of a job list, by merging sorted halves.
fn merge_sort(list: Vec<Candidate>) -> (out: Vec<Candidate>)
    ensures
        ordered(out@),
        out@.to_multiset() == list@.to_multiset(),
    decreases list.len(),
{
    if list.len() <= 1 {
        return list;
    }
    let ghost whole = list@;
    let mut left = list;
    let mid: usize = left.len() / 2;
    let right = left.split_off(mid);
    proof {
        assert(whole =~= left@ + right@);
        lemma_multiset_commutative(left@, right@);
    }
    let left = merge_sort(left);
    let right = merge_sort(right);
    merge(&left, &right)
}

/// The job list for a dirty set and a snapshot.
pub fn prioritize(vis: &VisibilitySnapshot, dirty: &DirtySet) -> (jobs: Vec<Job>)
    requires
        vis.wf(),
    ensures
        is_job_list(jobs@, dirty@, *vis),
{
    let cand = collect_candidates(vis, dirty);
    let ghost unsorted = cand@;
    let sorted = merge_sort(cand);
    proof {
        assert(unsorted.no_duplicates());
        unsorted.lemma_multiset_has_no_duplicates();
        sorted@.lemma_multiset_has_no_duplicates_conv();
        assert forall|i: int| 0 <= i < sorted.len() implies is_candidate(
            #[trigger] sorted[i],
            dirty@,
            *vis,
        ) by {
            assert(sorted@.contains(sorted[i]));
            to_multiset_contains(sorted@, sorted[i]);
            to_multiset_contains(unsorted, sorted[i]);
            let m = choose|m: int| 0 <= m < unsorted.len() && unsorted[m] == sorted[i];
            assert(is_candidate(unsorted[m], dirty@, *vis));
        }
    }
    let mut jobs: Vec<Job> = Vec::new();
    let mut i: usize = 0;
    while i < sorted.len()
        invariant
            i <= sorted.len(),
            jobs.len() == i,
            forall|k: int|
                0 <= k < i ==> (#[trigger] jobs[k]).prio == sorted[k].prio && jobs[k].spos
                    == sorted[k].spos,
        decreases sorted.len() - i,
    {
        let c = sorted[i];
        jobs.push(Job { prio: c.prio, spos: c.spos });
        i = i + 1;
    }
    proof {
        assert forall|p: ChunkSectionPos|
            dirty@.contains(p) && #[trigger] vis.spec_section_is_visible(p) implies exists|i: int|
            0 <= i < jobs.len() && (#[trigger] jobs[i]).spos == p by {
            let k = choose|k: int| 0 <= k < unsorted.len() && (#[trigger] unsorted[k]).spos == p;
            assert(unsorted.contains(unsorted[k]));
            to_multiset_contains(unsorted, unsorted[k]);
            to_multiset_contains(sorted@, unsorted[k]);
            let m = choose|m: int| 0 <= m < sorted.len() && sorted[m] == unsorted[k];
            assert(jobs[m].spos == p);
        }
        assert forall|i: int, j: int| 0 <= i < j < jobs.len() implies (#[trigger] jobs[i]).spos != (
        #[trigger] jobs[j]).spos && comes_before(*vis, jobs[i], jobs[j]) by {
            assert(not_after(sorted[i], sorted[j]));
            assert(sorted[i] != sorted[j]);
            assert(is_candidate(sorted[i], dirty@, *vis));
            assert(is_candidate(sorted[j], dirty@, *vis));
            if sorted[i].spos == sorted[j].spos {
                assert(sorted[i].slot == sorted[j].slot);
                assert(sorted[i].prio == sorted[j].prio);
            }
        }
        assert forall|i: int| 0 <= i < jobs.len() implies {
            &&& dirty@.contains((#[trigger] jobs[i]).spos)
            &&& vis.spec_section_is_visible(jobs[i].spos)
            &&& Some(jobs[i].prio) == match vis.spec_section_depth(jobs[i].spos) {
                Some(d) => Some(priority_of(d)),
                None => None,
            }
        } by {
            assert(is_candidate(sorted[i], dirty@, *vis));
        }
    }
    jobs
}

/// The job list that the workers draw from, with the place of the next job
/// to hand out. The list is replaced as a whole; between two replacements
/// the place only moves forward.
pub struct SharedQueue {
    jobs: Vec<Job>,
    next_job_index: usize,
}

impl SharedQueue {
    #[verifier::type_invariant]
    pub closed spec fn inv(&self) -> bool {
        self.next_job_index <= self.jobs.len()
    }

    /// The job list.
    pub closed spec fn spec_jobs(&self) -> Seq<Job> {
        self.jobs@
    }

    /// Number of jobs of the list that were handed out.
    pub closed spec fn spec_cursor(&self) -> int {
        self.next_job_index as int
    }

    /// The place of the next job lies within the list or at its end.
    pub proof fn lemma_cursor_in_range(&self)
        requires
            self.inv(),
        ensures
            0 <= self.spec_cursor() <= self.spec_jobs().len(),
    {
    }

    pub fn new() -> (queue: SharedQueue)
        ensures
            queue.spec_jobs() == Seq::<Job>::empty(),
            queue.spec_cursor() == 0,
    {
        SharedQueue { jobs: Vec::new(), next_job_index: 0 }
    }

    /// Hands out the next job of the list, unless the workers were told to
    /// stop or the list is used up.
    pub fn pop(&mut self, should_stop: bool) -> (job: Option<Job>)
        ensures
            final(self).spec_jobs() == old(self).spec_jobs(),
            0 <= old(self).spec_cursor() <= old(self).spec_jobs().len(),
            job is Some <==> !should_stop && old(self).spec_cursor() < old(self).spec_jobs().len(),
            job matches Some(j) ==> j == old(self).spec_jobs()[old(self).spec_cursor()]
                && final(self).spec_cursor() == old(self).spec_cursor() + 1,
            job is None ==> final(self).spec_cursor() == old(self).spec_cursor(),
    {
        proof {
            use_type_invariant(&*self);
        }
        if should_stop {
            return None;
        }
        if self.next_job_index < self.jobs.len() {
            let job = self.jobs[self.next_job_index];
            self.next_job_index = self.next_job_index + 1;
            Some(job)
        } else {
            None
        }
    }

    /// Replaces the list by the job list for a dirty set and a snapshot, and
    /// starts handing out from its head.
    pub fn clear_and_reprioritize(&mut self, vis: &VisibilitySnapshot, dirty: &DirtySet)
        requires
            vis.wf(),
        ensures
            is_job_list(final(self).spec_jobs(), dirty@, *vis),
            final(self).spec_cursor() == 0,
    {
        let jobs = prioritize(vis, dirty);
        self.next_job_index = 0;
        self.jobs = jobs;
    }

    /// Says whether every job of the list was handed out.
    pub fn is_empty(&self) -> (empty: bool)
        ensures
            empty == (self.spec_cursor() >= self.spec_jobs().len()),
    {
        self.next_job_index >= self.jobs.len()
    }

    /// The jobs of the list that were not handed out yet, in their order.
    pub fn pending(&self) -> (jobs: Vec<Job>)
        ensures
            0 <= self.spec_cursor() <= self.spec_jobs().len(),
            jobs@ == self.spec_jobs().skip(self.spec_cursor()),
    {
        proof {
            use_type_invariant(self);
        }
        let mut out: Vec<Job> = Vec::new();
        let mut i: usize = self.next_job_index;
        while i < self.jobs.len()
            invariant
                self.next_job_index <= i <= self.jobs.len(),
                out@ == self.jobs@.subrange(self.next_job_index as int, i as int),
            decreases self.jobs.len() - i,
        {
            out.push(self.jobs[i]);
            assert(out@ =~= self.jobs@.subrange(self.next_job_index as int, i + 1));
            i = i + 1;
        }
        assert(out@ =~= self.jobs@.skip(self.next_job_index as int));
        out
    }
}

} // verus!
