//! The meshes that are drawn, by section.

use std::collections::HashMap;
use vstd::prelude::*;
use crate::frame::VkObject;
use crate::mesh::MeshData;
use crate::position::{lemma_key_injective, ChunkSectionPos};

verus! {

broadcast use vstd::std_specs::hash::group_hash_axioms;

/// What a table of keys holds, told by section.
pub open spec fn by_section<M>(table: Map<u128, M>) -> Map<ChunkSectionPos, M> {
    Map::new(
        |p: ChunkSectionPos| table.contains_key(p.spec_key()),
        |p: ChunkSectionPos| table[p.spec_key()],
    )
}

/// The meshes of one kind that are drawn, by section: a section has one
/// mesh or none.
pub struct SectionMeshes<M> {
    table: HashMap<u128, M>,
    order: Vec<ChunkSectionPos>,
}

impl<M> SectionMeshes<M> {
    /// The order names the sections of the table, each once.
    pub closed spec fn wf(&self) -> bool {
        &&& self.order@.no_duplicates()
        &&& forall|i: int|
            0 <= i < self.order.len() ==> self.table@.contains_key(
                (#[trigger] self.order[i]).spec_key(),
            )
        &&& forall|k: u128| #[trigger]
            self.table@.contains_key(k) ==> exists|i: int|
                0 <= i < self.order.len() && (#[trigger] self.order[i]).spec_key() == k
    }

    /// The mesh of every section that has one.
    pub closed spec fn view(&self) -> Map<ChunkSectionPos, M> {
        by_section(self.table@)
    }

    /// The sections that have a mesh, in the order in which they got their
    /// first one.
    pub closed spec fn spec_order(&self) -> Seq<ChunkSectionPos> {
        self.order@
    }

    pub fn new() -> (meshes: SectionMeshes<M>)
        ensures
            meshes.wf(),
            meshes@ == Map::<ChunkSectionPos, M>::empty(),
            meshes.spec_order() == Seq::<ChunkSectionPos>::empty(),
    {
        let meshes = SectionMeshes { table: HashMap::new(), order: Vec::new() };
        assert(meshes@ =~= Map::<ChunkSectionPos, M>::empty());
        meshes
    }

    /// Puts the mesh of a section in place and hands back the mesh that it
    /// replaces, if the section had one.
    pub fn insert(&mut self, key: ChunkSectionPos, mesh: M) -> (previous: Option<M>)
        requires
            old(self).wf(),
        ensures
            final(self).wf(),
            final(self)@ == old(self)@.insert(key, mesh),
            previous == (if old(self)@.contains_key(key) {
                Some(old(self)@[key])
            } else {
                None
            }),
            final(self).spec_order() == (if old(self)@.contains_key(key) {
                old(self).spec_order()
            } else {
                old(self).spec_order().push(key)
            }),
    {
        let k = key.key();
        let ghost before = self.table@;
        let ghost order_before = self.order@;
        let previous = self.table.insert(k, mesh);
        if previous.is_none() {
            self.order.push(key);
        }
        proof {
            assert forall|p: ChunkSectionPos| p.spec_key() == k implies p == key by {
                lemma_key_injective(p, key);
            }
            assert(by_section(self.table@) =~= by_section(before).insert(key, mesh));
            if previous is None {
                assert forall|i: int, j: int| 0 <= i < j < self.order.len() implies self.order[i]
                    != self.order[j] by {
                    if j == self.order.len() - 1 {
                        assert(before.contains_key(order_before[i].spec_key()));
                    }
                }
                assert forall|kk: u128| #[trigger] self.table@.contains_key(kk) implies exists|
                    i: int,
                | 0 <= i < self.order.len() && (#[trigger] self.order[i]).spec_key() == kk by {
                    if kk == k {
                        assert(self.order[self.order.len() - 1].spec_key() == kk);
                    } else {
                        let i = choose|i: int|
                            0 <= i < order_before.len() && (#[trigger] order_before[i]).spec_key()
                                == kk;
                        assert(self.order[i].spec_key() == kk);
                    }
                }
            } else {
                assert forall|kk: u128| #[trigger] self.table@.contains_key(kk) implies exists|
                    i: int,
                | 0 <= i < self.order.len() && (#[trigger] self.order[i]).spec_key() == kk by {
                    if kk == k {
                        let i = choose|i: int|
                            0 <= i < order_before.len() && (#[trigger] order_before[i]).spec_key()
                                == k;
                        assert(self.order[i].spec_key() == kk);
                    } else {
                        let i = choose|i: int|
                            0 <= i < order_before.len() && (#[trigger] order_before[i]).spec_key()
                                == kk;
                        assert(self.order[i].spec_key() == kk);
                    }
                }
            }
        }
        previous
    }

    /// The mesh of a section, if it has one.
    pub fn get(&self, key: ChunkSectionPos) -> (mesh: Option<&M>)
        ensures
            mesh matches Some(m) ==> self@.contains_key(key) && *m == self@[key],
            mesh is None ==> !self@.contains_key(key),
    {
        let k = key.key();
        self.table.get(&k)
    }

    /// Number of sections that have a mesh.
    pub fn len(&self) -> (count: usize)
        ensures
            count == self.spec_order().len(),
    {
        self.order.len()
    }

    /// Takes every mesh out, in the order in which the sections got their
    /// first one.
    pub fn drain(self) -> (meshes: Vec<M>)
        requires
            self.wf(),
        ensures
            meshes.len() == self.spec_order().len(),
            forall|i: int|
                0 <= i < meshes.len() ==> self@.contains_key(#[trigger] self.spec_order()[i])
                    && meshes[i] == self@[self.spec_order()[i]],
            forall|p: ChunkSectionPos| #[trigger]
                self@.contains_key(p) ==> self.spec_order().contains(p),
    {
        proof {
            assert forall|p: ChunkSectionPos| #[trigger]
                self@.contains_key(p) implies self.order@.contains(p) by {
                let i = choose|i: int|
                    0 <= i < self.order.len() && (#[trigger] self.order[i]).spec_key()
                        == p.spec_key();
                lemma_key_injective(self.order[i], p);
            }
        }
        let ghost whole = self.table@;
        let SectionMeshes { table, order } = self;
        let mut table = table;
        let mut meshes: Vec<M> = Vec::new();
        let mut i: usize = 0;
        while i < order.len()
            invariant
                i <= order.len(),
                meshes.len() == i,
                order@.no_duplicates(),
                forall|j: int|
                    i <= j < order.len() ==> table@.contains_key((#[trigger] order[j]).spec_key())
                        && table@[order[j].spec_key()] == whole[order[j].spec_key()],
                forall|j: int|
                    0 <= j < order.len() ==> whole.contains_key((#[trigger] order[j]).spec_key()),
                forall|j: int|
                    0 <= j < i ==> #[trigger] meshes[j] == whole[order[j].spec_key()],
            decreases order.len() - i,
        {
            let k = order[i].key();
            match table.remove(&k) {
                Some(mesh) => {
                    meshes.push(mesh);
                },
                None => {
                    assert(false);
                },
            }
            proof {
                assert forall|j: int| i + 1 <= j < order.len() implies table@.contains_key(
                    (#[trigger] order[j]).spec_key(),
                ) && table@[order[j].spec_key()] == whole[order[j].spec_key()] by {
                    if order[j].spec_key() == k {
                        lemma_key_injective(order[j], order[i as int]);
                    }
                }
            }
            i = i + 1;
        }
        meshes
    }
}

/// The meshes that are drawn: those of the solid blocks and those of the
/// water, by section.
pub struct MeshStore<M: VkObject> {
    pub blocks: SectionMeshes<M>,
    pub water: SectionMeshes<M>,
}

impl<M: VkObject> MeshStore<M> {
    pub open spec fn wf(&self) -> bool {
        self.blocks.wf() && self.water.wf()
    }

    pub fn new() -> (store: MeshStore<M>)
        ensures
            store.wf(),
            store.blocks@ == Map::<ChunkSectionPos, M>::empty(),
            store.water@ == Map::<ChunkSectionPos, M>::empty(),
    {
        MeshStore { blocks: SectionMeshes::new(), water: SectionMeshes::new() }
    }

    pub fn insert_block(&mut self, key: ChunkSectionPos, mesh: M) -> (previous: Option<M>)
        requires
            old(self).wf(),
        ensures
            final(self).wf(),
            final(self).blocks@ == old(self).blocks@.insert(key, mesh),
            final(self).water == old(self).water,
            previous == (if old(self).blocks@.contains_key(key) {
                Some(old(self).blocks@[key])
            } else {
                None
            }),
    {
        self.blocks.insert(key, mesh)
    }

    pub fn insert_water(&mut self, key: ChunkSectionPos, mesh: M) -> (previous: Option<M>)
        requires
            old(self).wf(),
        ensures
            final(self).wf(),
            final(self).water@ == old(self).water@.insert(key, mesh),
            final(self).blocks == old(self).blocks,
            previous == (if old(self).water@.contains_key(key) {
                Some(old(self).water@[key])
            } else {
                None
            }),
    {
        self.water.insert(key, mesh)
    }

    /// Takes every mesh out and frees it: those of the solid blocks first,
    /// then those of the water, each kind in the order in which the
    /// sections got their first mesh.
    pub fn drain_and_destroy(&mut self, ctx: &M::Context)
        requires
            old(self).wf(),
        ensures
            final(self).wf(),
            final(self).blocks@ == Map::<ChunkSectionPos, M>::empty(),
            final(self).water@ == Map::<ChunkSectionPos, M>::empty(),
    {
        let mut blocks: SectionMeshes<M> = SectionMeshes::new();
        let mut water: SectionMeshes<M> = SectionMeshes::new();
        core::mem::swap(&mut blocks, &mut self.blocks);
        core::mem::swap(&mut water, &mut self.water);
        let blocks = blocks.drain();
        destroy_meshes(&blocks, ctx);
        let water = water.drain();
        destroy_meshes(&water, ctx);
    }
}

/// Frees the meshes of a list, from the first to the last.
fn destroy_meshes<M: VkObject>(meshes: &Vec<M>, ctx: &M::Context) {
    let mut i: usize = 0;
    while i < meshes.len()
        invariant
            i <= meshes.len(),
        decreases meshes.len() - i,
    {
        meshes[i].destroy(ctx);
        i = i + 1;
    }
}

/// Says whether a mesh of a section is worth storing: one without vertices
/// is passed over, and what the section showed before stays.
pub fn has_geometry(data: &MeshData) -> (worth: bool)
    ensures
        worth == (data.vertices.len() > 0),
{
    data.vertices.len() > 0
}

} // verus!
