//! What holds of the scheduler over every course of operations.

use vstd::prelude::*;
use vstd::relations::{sorted_by, total_ordering};
use vstd::seq_lib::{lemma_sorted_unique, to_multiset_contains};
use crate::mesher::{
    column_sections, lemma_first_claimable, lowest_section, sections_end, MesherState,
    WorkerAction,
};
use crate::position::{lemma_key_injective, ChunkPos, ChunkSectionPos};
use crate::queue::{comes_before, is_job_list, slot_of, Job};
use crate::snapshot::VisibilitySnapshot;

verus! {

/// One operation on a scheduler.
pub enum Event {
    SubmitSection(ChunkSectionPos),
    /// A chunk column, with the height of the world's first block and the
    /// world's height in blocks.
    SubmitChunk(ChunkPos, i32, u32),
    UpdateVisibility(VisibilitySnapshot),
    ClaimNext,
    /// A worker, by its number, asks what to do.
    NextAction(u32),
    /// A mesh was made in so many nanoseconds.
    RecordMesh(u64),
    SetWorkerThreads(u32),
    Stop,
}

/// Says whether `post` can be the state after an operation on `pre`, by the
/// contracts of the scheduler's operations.
pub open spec fn follows(pre: MesherState, event: Event, post: MesherState) -> bool {
    match event {
        Event::SubmitSection(spos) => post == pre.submit(spos),
        Event::SubmitChunk(pos, min_y, height) => post == pre.submit_column(
            pos,
            lowest_section(min_y),
            sections_end(min_y, height),
        ),
        Event::UpdateVisibility(vis) => pre.rebuilds_to(vis, post),
        Event::ClaimNext => post == pre.claim_next().0,
        Event::NextAction(worker) => post == pre.next_action(worker).0,
        Event::RecordMesh(nanos) => post == pre.record(nanos),
        Event::SetWorkerThreads(workers) => post == pre.resized(workers),
        Event::Stop => post == pre.stopped(),
    }
}

/// The section that an operation claims for a worker, if it claims one.
pub open spec fn claims(pre: MesherState, event: Event) -> Option<ChunkSectionPos> {
    match event {
        Event::ClaimNext => pre.claim_next().1,
        Event::NextAction(worker) => match pre.next_action(worker).1 {
            WorkerAction::Mesh(spos) => Some(spos),
            _ => None,
        },
        _ => None,
    }
}

/// Says whether an operation submits a given section.
pub open spec fn submits(event: Event, spos: ChunkSectionPos) -> bool {
    match event {
        Event::SubmitSection(p) => p == spos,
        Event::SubmitChunk(pos, min_y, height) => column_sections(
            pos,
            lowest_section(min_y),
            sections_end(min_y, height),
        ).contains(spos),
        _ => false,
    }
}

/// A run of a scheduler: the states it goes through and the operations, in
/// whatever order the workers and the render thread make them.
pub open spec fn is_run(states: Seq<MesherState>, events: Seq<Event>) -> bool {
    &&& states.len() == events.len() + 1
    &&& forall|i: int|
        0 <= i < events.len() ==> (#[trigger] states[i]).wf() && follows(
            states[i],
            events[i],
            states[i + 1],
        )
}

/// To submit a section twice is to submit it once.
pub proof fn lemma_submit_idempotent(state: MesherState, spos: ChunkSectionPos)
    ensures
        state.submit(spos).submit(spos) == state.submit(spos),
{
    assert(state.dirty.insert(spos).insert(spos) =~= state.dirty.insert(spos));
}

/// To submit a section that is dirty already changes nothing.
pub proof fn lemma_submit_dirty_is_no_op(state: MesherState, spos: ChunkSectionPos)
    requires
        state.dirty.contains(spos),
    ensures
        state.submit(spos) == state,
{
    assert(state.dirty.insert(spos) =~= state.dirty);
}

/// A claimed section was dirty and is dirty no longer.
pub proof fn lemma_claim_takes_from_dirty(state: MesherState, spos: ChunkSectionPos)
    requires
        state.wf(),
        state.claim_next().1 == Some(spos),
    ensures
        state.dirty.contains(spos),
        !state.claim_next().0.dirty.contains(spos),
{
    lemma_first_claimable(state.jobs, state.dirty, state.cursor);
}

/// A section is claimed only from the job list, and the claim moves on
/// along the list: a job is handed out once.
pub proof fn lemma_claim_moves_on(state: MesherState)
    requires
        state.wf(),
    ensures
        state.cursor <= state.claim_next().0.cursor <= state.jobs.len(),
        state.claim_next().0.jobs == state.jobs,
        state.claim_next().1 matches Some(spos) ==> state.cursor < state.claim_next().0.cursor
            && state.jobs[state.claim_next().0.cursor - 1].spos == spos,
        state.claim_next().1 is None ==> state.claim_next().0.dirty == state.dirty && forall|k: int|
            state.cursor <= k < state.jobs.len() ==> !state.dirty.contains(
                (#[trigger] state.jobs[k]).spos,
            ),
{
    lemma_first_claimable(state.jobs, state.dirty, state.cursor);
}

/// An operation that does not submit a section does not make it dirty.
pub proof fn lemma_only_submit_dirties(
    pre: MesherState,
    event: Event,
    post: MesherState,
    spos: ChunkSectionPos,
)
    requires
        follows(pre, event, post),
        !submits(event, spos),
        !pre.dirty.contains(spos),
    ensures
        !post.dirty.contains(spos),
{
}

proof fn lemma_absent_until_submitted(
    states: Seq<MesherState>,
    events: Seq<Event>,
    spos: ChunkSectionPos,
    i: int,
    m: int,
)
    requires
        is_run(states, events),
        0 <= i < m <= events.len(),
        claims(states[i], events[i]) == Some(spos),
        forall|k: int| i < k < m ==> !submits(#[trigger] events[k], spos),
    ensures
        !states[m].dirty.contains(spos),
    decreases m - i,
{
    if m == i + 1 {
        assert(follows(states[i], events[i], states[i + 1]));
        lemma_claim_takes_from_dirty(states[i], spos);
    } else {
        lemma_absent_until_submitted(states, events, spos, i, m - 1);
        assert(follows(states[m - 1], events[m - 1], states[m]));
        lemma_only_submit_dirties(states[m - 1], events[m - 1], states[m], spos);
    }
}

/// No section is claimed twice unless it was submitted in between: in every
/// run, between two operations that claim one section for a worker lies an
/// operation that submits that section.
pub proof fn lemma_no_duplicate_claims(
    states: Seq<MesherState>,
    events: Seq<Event>,
    spos: ChunkSectionPos,
    i: int,
    j: int,
)
    requires
        is_run(states, events),
        0 <= i < j < events.len(),
        claims(states[i], events[i]) == Some(spos),
        claims(states[j], events[j]) == Some(spos),
    ensures
        exists|k: int| i < k < j && submits(#[trigger] events[k], spos),
{
    if forall|k: int| i < k < j ==> !submits(#[trigger] events[k], spos) {
        lemma_absent_until_submitted(states, events, spos, i, j);
        lemma_claim_takes_from_dirty(states[j], spos);
        assert(false);
    }
}

/// A section that was claimed and is submitted again is in the job list of
/// the next snapshot that shows it, and is claimed from it: the change is
/// not lost.
pub proof fn lemma_resubmitted_is_listed_again(
    state: MesherState,
    spos: ChunkSectionPos,
    vis: VisibilitySnapshot,
    post: MesherState,
)
    requires
        state.wf(),
        state.claim_next().1 == Some(spos),
        vis.spec_section_is_visible(spos),
        state.claim_next().0.submit(spos).rebuilds_to(vis, post),
    ensures
        exists|i: int| 0 <= i < post.jobs.len() && (#[trigger] post.jobs[i]).spos == spos,
        post.cursor == 0,
        post.dirty.contains(spos),
        post.claim_next().1 is Some,
{
    assert(state.claim_next().0.submit(spos).dirty.contains(spos));
    lemma_first_claimable(post.jobs, post.dirty, 0);
    let i = choose|i: int| 0 <= i < post.jobs.len() && (#[trigger] post.jobs[i]).spos == spos;
    assert(post.dirty.contains(post.jobs[i].spos));
}

/// In a job list the nearer section comes first: depth keys do not fall
/// along the list.
pub proof fn lemma_job_list_nearest_first(
    jobs: Seq<Job>,
    dirty: Set<ChunkSectionPos>,
    vis: VisibilitySnapshot,
    i: int,
    j: int,
)
    requires
        is_job_list(jobs, dirty, vis),
        0 <= i <= j < jobs.len(),
    ensures
        vis.spec_section_depth(jobs[i].spos) is Some,
        vis.spec_section_depth(jobs[j].spos) is Some,
        vis.spec_section_depth(jobs[i].spos).unwrap() <= vis.spec_section_depth(
            jobs[j].spos,
        ).unwrap(),
        jobs[i].prio >= jobs[j].prio,
{
    if i < j {
        assert(comes_before(vis, jobs[i], jobs[j]));
    }
}

/// Where all the listed sections lie at one depth, the depth keys do not
/// rise along the list either.
pub proof fn lemma_job_list_of_one_depth(
    jobs: Seq<Job>,
    dirty: Set<ChunkSectionPos>,
    vis: VisibilitySnapshot,
    i: int,
    j: int,
)
    requires
        is_job_list(jobs, dirty, vis),
        forall|p: ChunkSectionPos, q: ChunkSectionPos|
            dirty.contains(p) && dirty.contains(q) && #[trigger] vis.spec_section_is_visible(p)
                && #[trigger] vis.spec_section_is_visible(q) ==> vis.spec_section_depth(p)
                == vis.spec_section_depth(q),
        0 <= i <= j < jobs.len(),
    ensures
        vis.spec_section_depth(jobs[i].spos).unwrap() >= vis.spec_section_depth(
            jobs[j].spos,
        ).unwrap(),
{
    assert(vis.spec_section_is_visible(jobs[i].spos));
    assert(vis.spec_section_is_visible(jobs[j].spos));
}

/// The order of a job list, carried on to all jobs: by priority, then by the
/// slot of the cell, then by the section's key.
pub open spec fn ranks_before(vis: VisibilitySnapshot, a: Job, b: Job) -> bool {
    a.prio > b.prio || (a.prio == b.prio && (slot_of(vis, a.spos) < slot_of(vis, b.spos) || (
    slot_of(vis, a.spos) == slot_of(vis, b.spos) && a.spos.spec_key() <= b.spos.spec_key())))
}

proof fn lemma_job_once(
    jobs: Seq<Job>,
    dirty: Set<ChunkSectionPos>,
    vis: VisibilitySnapshot,
    job: Job,
)
    requires
        is_job_list(jobs, dirty, vis),
    ensures
        jobs.to_multiset().count(job) == (if jobs.contains(job) {
            1nat
        } else {
            0nat
        }),
{
    assert(jobs.no_duplicates());
    jobs.lemma_multiset_has_no_duplicates();
    to_multiset_contains(jobs, job);
}

/// A dirty set and a snapshot have one job list: two lists that both are
/// the job list of one dirty set and one snapshot are the same list.
pub proof fn lemma_job_list_unique(
    first: Seq<Job>,
    second: Seq<Job>,
    dirty: Set<ChunkSectionPos>,
    vis: VisibilitySnapshot,
)
    requires
        is_job_list(first, dirty, vis),
        is_job_list(second, dirty, vis),
    ensures
        first == second,
{
    let leq = |a: Job, b: Job| ranks_before(vis, a, b);
    assert forall|a: Job, b: Job| #[trigger] leq(a, b) && #[trigger] leq(b, a) implies a == b by {
        lemma_key_injective(a.spos, b.spos);
    }
    assert(total_ordering(leq));
    assert forall|i: int, j: int| 0 <= i < j < first.len() implies #[trigger] leq(
        first[i],
        first[j],
    ) by {
        assert(comes_before(vis, first[i], first[j]));
    }
    assert forall|i: int, j: int| 0 <= i < j < second.len() implies #[trigger] leq(
        second[i],
        second[j],
    ) by {
        assert(comes_before(vis, second[i], second[j]));
    }
    assert(sorted_by(first, leq));
    assert(sorted_by(second, leq));
    assert forall|job: Job| first.to_multiset().count(job) == second.to_multiset().count(job) by {
        lemma_job_once(first, dirty, vis, job);
        lemma_job_once(second, dirty, vis, job);
        if first.contains(job) {
            let i = choose|i: int| 0 <= i < first.len() && first[i] == job;
            assert(dirty.contains(first[i].spos) && vis.spec_section_is_visible(first[i].spos));
            let j = choose|j: int| 0 <= j < second.len() && (#[trigger] second[j]).spos == job.spos;
            assert(second[j] == job);
        }
        if second.contains(job) {
            let i = choose|i: int| 0 <= i < second.len() && second[i] == job;
            assert(dirty.contains(second[i].spos) && vis.spec_section_is_visible(second[i].spos));
            let j = choose|j: int| 0 <= j < first.len() && (#[trigger] first[j]).spos == job.spos;
            assert(first[j] == job);
        }
    }
    assert(first.to_multiset() =~= second.to_multiset());
    lemma_sorted_unique(first, second, leq);
}

} // verus!
