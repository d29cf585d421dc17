//! The set of the sections that await a new mesh.

use std::collections::HashSet;
use vstd::prelude::*;
use crate::position::{lemma_key_injective, ChunkSectionPos};

verus! {

broadcast use vstd::std_specs::hash::group_hash_axioms;

/// The sections that a set of keys stands for.
pub open spec fn sections_of(keys: Set<u128>) -> Set<ChunkSectionPos> {
    Set::new(|p: ChunkSectionPos| keys.contains(p.spec_key()))
}

/// Adding a section's key adds the section and nothing else.
pub proof fn lemma_sections_insert(keys: Set<u128>, p: ChunkSectionPos)
    ensures
        sections_of(keys.insert(p.spec_key())) == sections_of(keys).insert(p),
{
    assert forall|q: ChunkSectionPos|
        sections_of(keys.insert(p.spec_key())).contains(q) == sections_of(keys).insert(p).contains(
            q,
        ) by {
        if q.spec_key() == p.spec_key() {
            lemma_key_injective(q, p);
        }
    }
    assert(sections_of(keys.insert(p.spec_key())) =~= sections_of(keys).insert(p));
}

/// Removing a section's key removes the section and nothing else.
pub proof fn lemma_sections_remove(keys: Set<u128>, p: ChunkSectionPos)
    ensures
        sections_of(keys.remove(p.spec_key())) == sections_of(keys).remove(p),
{
    assert forall|q: ChunkSectionPos|
        sections_of(keys.remove(p.spec_key())).contains(q) == sections_of(keys).remove(p).contains(
            q,
        ) by {
        if q.spec_key() == p.spec_key() {
            lemma_key_injective(q, p);
        }
    }
    assert(sections_of(keys.remove(p.spec_key())) =~= sections_of(keys).remove(p));
}

/// The sections that await a new mesh. A section is in the set or not: to
/// add one that is there already changes nothing.
pub struct DirtySet {
    keys: HashSet<u128>,
}

impl DirtySet {
    /// The sections in the set.
    pub closed spec fn view(&self) -> Set<ChunkSectionPos> {
        sections_of(self.keys@)
    }

    pub fn new() -> (set: DirtySet)
        ensures
            set@ == Set::<ChunkSectionPos>::empty(),
    {
        let set = DirtySet { keys: HashSet::new() };
        assert(set@ =~= Set::<ChunkSectionPos>::empty());
        set
    }

    /// Adds a section; says whether it was absent.
    pub fn insert(&mut self, spos: ChunkSectionPos) -> (added: bool)
        ensures
            final(self)@ == old(self)@.insert(spos),
            added == !old(self)@.contains(spos),
    {
        proof {
            lemma_sections_insert(self.keys@, spos);
        }
        self.keys.insert(spos.key())
    }

    /// Takes a section out; says whether it was there.
    pub fn remove(&mut self, spos: ChunkSectionPos) -> (removed: bool)
        ensures
            final(self)@ == old(self)@.remove(spos),
            removed == old(self)@.contains(spos),
    {
        proof {
            lemma_sections_remove(self.keys@, spos);
        }
        let key = spos.key();
        self.keys.remove(&key)
    }

    pub fn contains(&self, spos: ChunkSectionPos) -> (found: bool)
        ensures
            found == self@.contains(spos),
    {
        let key = spos.key();
        self.keys.contains(&key)
    }
}

} // verus!
