//! Chunk columns as the mesher reads them, and the local section: the
//! snapshot of one section with a rim of one block, which a meshing job owns
//! so that it needs no lock on the world while it meshes.

use vstd::prelude::*;
use crate::position::{div_floor, ChunkPos, ChunkSectionPos};

verus! {

/// What the mesher must know of a block state.
#[derive(Debug, Clone, Copy, PartialEq, Eq, Structural)]
pub enum BlockKind {
    /// Nothing to draw.
    Air,
    /// The liquid, drawn see-through.
    Water,
    /// Any other block.
    Solid,
}

/// A block state: its number in the game's table of states, and its kind.
#[derive(Debug, Clone, Copy, PartialEq, Eq, Structural)]
pub struct BlockState {
    pub id: u32,
    pub kind: BlockKind,
}

impl BlockState {
    /// The state of an empty block.
    pub open spec fn spec_air() -> BlockState {
        BlockState { id: 0, kind: BlockKind::Air }
    }

    pub fn air() -> (state: BlockState)
        ensures
            state == Self::spec_air(),
    {
        BlockState { id: 0, kind: BlockKind::Air }
    }

    pub fn is_air(self) -> (air: bool)
        ensures
            air == (self.kind == BlockKind::Air),
    {
        self.kind == BlockKind::Air
    }

    pub fn is_water(self) -> (water: bool)
        ensures
            water == (self.kind == BlockKind::Water),
    {
        self.kind == BlockKind::Water
    }
}

/// A biome, by its number in the world's table of biomes.
#[derive(Debug, Clone, Copy, PartialEq, Eq, Structural)]
pub struct Biome {
    pub id: u32,
}

/// Place of the block `(x, y, z)` in a section's buffer.
pub open spec fn block_slot(x: int, y: int, z: int) -> int {
    (y * 16 + z) * 16 + x
}

/// Place of the biome cell `(x, y, z)` in a buffer of 4×4×4 cells.
pub open spec fn biome_slot(x: int, y: int, z: int) -> int {
    (x * 4 + y) * 4 + z
}

/// Place of the block `(x, y, z)` in a local section's buffer.
pub open spec fn local_slot(x: int, y: int, z: int) -> int {
    (x * 18 + y) * 18 + z
}

/// One section of a chunk column: 16×16×16 block states and 4×4×4 biomes.
pub struct Section {
    pub blocks: Vec<BlockState>,
    pub biomes: Vec<Biome>,
}

impl Section {
    pub open spec fn wf(&self) -> bool {
        self.blocks.len() == 4096 && self.biomes.len() == 64
    }

    pub open spec fn spec_block(&self, x: int, y: int, z: int) -> BlockState {
        self.blocks@[block_slot(x, y, z)]
    }

    pub open spec fn spec_biome(&self, x: int, y: int, z: int) -> Biome {
        self.biomes@[biome_slot(x, y, z)]
    }

    pub fn check(&self) -> (ok: bool)
        ensures
            ok == self.wf(),
    {
        self.blocks.len() == 4096 && self.biomes.len() == 64
    }

    pub fn get_block_state(&self, x: u8, y: u8, z: u8) -> (state: BlockState)
        requires
            self.wf(),
            x < 16,
            y < 16,
            z < 16,
        ensures
            state == self.spec_block(x as int, y as int, z as int),
    {
        self.blocks[((y as usize) * 16 + (z as usize)) * 16 + (x as usize)]
    }

    pub fn get_biome(&self, x: u8, y: u8, z: u8) -> (biome: Biome)
        requires
            self.wf(),
            x < 4,
            y < 4,
            z < 4,
        ensures
            biome == self.spec_biome(x as int, y as int, z as int),
    {
        self.biomes[((x as usize) * 4 + (y as usize)) * 4 + (z as usize)]
    }
}

/// A chunk column: its sections from the lowest up.
pub struct Chunk {
    pub sections: Vec<Section>,
}

impl Chunk {
    pub open spec fn wf(&self) -> bool {
        forall|i: int| 0 <= i < self.sections.len() ==> (#[trigger] self.sections[i]).wf()
    }

    pub fn check(&self) -> (ok: bool)
        ensures
            ok == self.wf(),
    {
        let mut i: usize = 0;
        while i < self.sections.len()
            invariant
                i <= self.sections.len(),
                forall|k: int| 0 <= k < i ==> (#[trigger] self.sections[k]).wf(),
            decreases self.sections.len() - i,
        {
            if !self.sections[i].check() {
                return false;
            }
            i = i + 1;
        }
        true
    }
}

/// Places of the eight neighbours of a chunk column in a list of
/// neighbours.
pub const NORTH: usize = 0;

pub const SOUTH: usize = 1;

pub const EAST: usize = 2;

pub const WEST: usize = 3;

pub const NE: usize = 4;

pub const NW: usize = 5;

pub const SE: usize = 6;

pub const SW: usize = 7;

/// The step along x and z from a chunk column to its neighbour at a place
/// of the list: north is toward smaller z, east toward larger x.
pub open spec fn neighbor_step(place: int) -> (int, int) {
    if place == 0 {
        (0, -1)
    } else if place == 1 {
        (0, 1)
    } else if place == 2 {
        (1, 0)
    } else if place == 3 {
        (-1, 0)
    } else if place == 4 {
        (1, -1)
    } else if place == 5 {
        (-1, -1)
    } else if place == 6 {
        (1, 1)
    } else {
        (-1, 1)
    }
}

/// The place in the list of the neighbour at a step along x and z, if the
/// step leads to one of the eight neighbours.
pub open spec fn neighbor_place(dx: int, dz: int) -> Option<int> {
    if dx == 0 && dz == -1 {
        Some(0)
    } else if dx == 0 && dz == 1 {
        Some(1)
    } else if dx == 1 && dz == 0 {
        Some(2)
    } else if dx == -1 && dz == 0 {
        Some(3)
    } else if dx == 1 && dz == -1 {
        Some(4)
    } else if dx == -1 && dz == -1 {
        Some(5)
    } else if dx == 1 && dz == 1 {
        Some(6)
    } else if dx == -1 && dz == 1 {
        Some(7)
    } else {
        None
    }
}

/// The chunk columns around a column, in the order of the list of
/// neighbours; `None` where the neighbour's coordinates would not fit.
pub fn neighbor_positions(center: ChunkPos) -> (around: [Option<ChunkPos>; 8])
    ensures
        forall|place: int|
            0 <= place < 8 ==> #[trigger] around[place] == spec_neighbor_position(center, place),
{
    [
        neighbor_position(center, 0, -1),
        neighbor_position(center, 0, 1),
        neighbor_position(center, 1, 0),
        neighbor_position(center, -1, 0),
        neighbor_position(center, 1, -1),
        neighbor_position(center, -1, -1),
        neighbor_position(center, 1, 1),
        neighbor_position(center, -1, 1),
    ]
}

/// The chunk column at a place of the list of neighbours of a column.
pub open spec fn spec_neighbor_position(center: ChunkPos, place: int) -> Option<ChunkPos> {
    let x = center.x + neighbor_step(place).0;
    let z = center.z + neighbor_step(place).1;
    if i32::MIN <= x <= i32::MAX && i32::MIN <= z <= i32::MAX {
        Some(ChunkPos { x: x as i32, z: z as i32 })
    } else {
        None
    }
}

fn neighbor_position(center: ChunkPos, dx: i32, dz: i32) -> (pos: Option<ChunkPos>)
    requires
        -1 <= dx <= 1,
        -1 <= dz <= 1,
    ensures
        pos == (if i32::MIN <= center.x + dx <= i32::MAX && i32::MIN <= center.z + dz <= i32::MAX {
            Some(ChunkPos { x: (center.x + dx) as i32, z: (center.z + dz) as i32 })
        } else {
            None
        }),
{
    let x: i64 = center.x as i64 + dx as i64;
    let z: i64 = center.z as i64 + dz as i64;
    if x < -0x8000_0000 || x > 0x7fff_ffff || z < -0x8000_0000 || z > 0x7fff_ffff {
        None
    } else {
        Some(ChunkPos { x: x as i32, z: z as i32 })
    }
}

/// A snapshot of one section with one block more on every side: 18×18×18
/// block states, `None` where the world has no section, and the 4×4×4
/// biomes of the section itself.
pub struct LocalSection {
    pub blocks: Vec<Option<BlockState>>,
    pub biomes: Vec<Biome>,
    pub spos: ChunkSectionPos,
}

impl LocalSection {
    pub open spec fn wf(&self) -> bool {
        self.blocks.len() == 5832 && self.biomes.len() == 64
    }

    /// The state at `(x, y, z)`, each from 0 to 17; the section's own blocks
    /// are those from 1 to 16.
    pub open spec fn spec_block(&self, x: int, y: int, z: int) -> Option<BlockState> {
        self.blocks@[local_slot(x, y, z)]
    }

    pub open spec fn spec_biome(&self, x: int, y: int, z: int) -> Biome {
        self.biomes@[biome_slot(x, y, z)]
    }

    pub fn check(&self) -> (ok: bool)
        ensures
            ok == self.wf(),
    {
        self.blocks.len() == 5832 && self.biomes.len() == 64
    }

    pub fn block(&self, x: usize, y: usize, z: usize) -> (state: Option<BlockState>)
        requires
            self.wf(),
            x < 18,
            y < 18,
            z < 18,
        ensures
            state == self.spec_block(x as int, y as int, z as int),
    {
        self.blocks[(x * 18 + y) * 18 + z]
    }

    pub fn biome(&self, x: usize, y: usize, z: usize) -> (biome: Biome)
        requires
            self.wf(),
            x < 4,
            y < 4,
            z < 4,
        ensures
            biome == self.spec_biome(x as int, y as int, z as int),
    {
        self.biomes[(x * 4 + y) * 4 + z]
    }
}

/// A chunk column and its eight neighbours, as far as the world holds them,
/// borrowed for reading.
pub struct BorrowedChunks<'a> {
    pub center: &'a Chunk,
    pub neighbors: [Option<&'a Chunk>; 8],
    /// The y of the lowest section of the world.
    pub min_y: i32,
}

impl<'a> BorrowedChunks<'a> {
    pub open spec fn wf(&self) -> bool {
        &&& self.center.wf()
        &&& forall|place: int|
            0 <= place < 8 ==> (#[trigger] self.neighbors[place] matches Some(chunk)
                ==> chunk.wf())
    }

    /// The column at a step of whole chunks along x and z from the center.
    pub open spec fn spec_chunk_at(&self, dx: int, dz: int) -> Option<&'a Chunk> {
        if dx == 0 && dz == 0 {
            Some(self.center)
        } else {
            match neighbor_place(dx, dz) {
                Some(place) => self.neighbors[place],
                None => None,
            }
        }
    }

    /// The state of the block at `(lx, ly, lz)`, counted in blocks from the
    /// low corner of the section number `base_y` of the center column, if
    /// the world holds the section that the block lies in. The block may lie
    /// in a neighbour column or in the section above or below: the column is
    /// found by the coordinates divided by 16, rounded down, and the block
    /// within its section by the remainders.
    pub open spec fn spec_block_local(&self, base_y: int, lx: int, ly: int, lz: int) -> Option<
        BlockState,
    > {
        match self.spec_chunk_at(lx / 16, lz / 16) {
            Some(chunk) => {
                let section = base_y + ly / 16;
                if 0 <= section < chunk.sections.len() {
                    Some(chunk.sections[section].spec_block(lx % 16, ly % 16, lz % 16))
                } else {
                    None
                }
            },
            None => None,
        }
    }

    fn chunk_at(&self, dx: i32, dz: i32) -> (chunk: Option<&'a Chunk>)
        ensures
            chunk == self.spec_chunk_at(dx as int, dz as int),
    {
        if dx == 0 && dz == 0 {
            Some(self.center)
        } else if dx == 0 && dz == -1 {
            self.neighbors[NORTH]
        } else if dx == 0 && dz == 1 {
            self.neighbors[SOUTH]
        } else if dx == -1 && dz == 0 {
            self.neighbors[WEST]
        } else if dx == 1 && dz == 0 {
            self.neighbors[EAST]
        } else if dx == -1 && dz == -1 {
            self.neighbors[NW]
        } else if dx == 1 && dz == -1 {
            self.neighbors[NE]
        } else if dx == -1 && dz == 1 {
            self.neighbors[SW]
        } else if dx == 1 && dz == 1 {
            self.neighbors[SE]
        } else {
            None
        }
    }

    pub fn get_block_local(&self, base_y: i32, lx: i32, ly: i32, lz: i32) -> (state: Option<
        BlockState,
    >)
        requires
            self.wf(),
        ensures
            state == self.spec_block_local(base_y as int, lx as int, ly as int, lz as int),
    {
        self.block_local_wide(base_y as i64, lx, ly, lz)
    }

    fn block_local_wide(&self, base_y: i64, lx: i32, ly: i32, lz: i32) -> (state: Option<
        BlockState,
    >)
        requires
            self.wf(),
            -0x1_0000_0000 <= base_y <= 0x1_0000_0000,
        ensures
            state == self.spec_block_local(base_y as int, lx as int, ly as int, lz as int),
    {
        let cx_off: i32 = div_floor(lx, 16);
        let cy_off: i32 = div_floor(ly, 16);
        let cz_off: i32 = div_floor(lz, 16);
        let sx: i64 = lx as i64 - 16 * (cx_off as i64);
        let sy: i64 = ly as i64 - 16 * (cy_off as i64);
        let sz: i64 = lz as i64 - 16 * (cz_off as i64);
        proof {
            vstd::arithmetic::div_mod::lemma_fundamental_div_mod(lx as int, 16);
            vstd::arithmetic::div_mod::lemma_fundamental_div_mod(ly as int, 16);
            vstd::arithmetic::div_mod::lemma_fundamental_div_mod(lz as int, 16);
        }
        match self.chunk_at(cx_off, cz_off) {
            Some(chunk) => {
                let section: i64 = base_y + cy_off as i64;
                if section < 0 || section as u64 >= chunk.sections.len() as u64 {
                    return None;
                }
                proof {
                    if cx_off == 0 && cz_off == 0 {
                    } else {
                        let place = neighbor_place(cx_off as int, cz_off as int).unwrap();
                        assert(self.neighbors[place] == Some(chunk));
                    }
                    assert(chunk.sections[section as int].wf());
                }
                Some(chunk.sections[section as usize].get_block_state(sx as u8, sy as u8, sz as u8))
            },
            None => None,
        }
    }

    /// The biomes of the section number `base_y` of the center column, or
    /// the biome number 0 everywhere if the column has no such section.
    pub open spec fn spec_biome_local(&self, base_y: int, x: int, y: int, z: int) -> Biome {
        if 0 <= base_y < self.center.sections.len() {
            self.center.sections[base_y].spec_biome(x, y, z)
        } else {
            Biome { id: 0 }
        }
    }

    /// Builds the local section of a section of the center column.
    pub fn build_local_section(&self, spos: ChunkSectionPos) -> (local: LocalSection)
        requires
            self.wf(),
        ensures
            local.wf(),
            local.spos == spos,
            forall|x: int, y: int, z: int|
                0 <= x < 18 && 0 <= y < 18 && 0 <= z < 18 ==> #[trigger] local.spec_block(x, y, z)
                    == self.spec_block_local(spos.y - self.min_y, x - 1, y - 1, z - 1),
            forall|x: int, y: int, z: int|
                0 <= x < 4 && 0 <= y < 4 && 0 <= z < 4 ==> #[trigger] local.spec_biome(x, y, z)
                    == self.spec_biome_local(spos.y - self.min_y, x, y, z),
    {
        let base_y: i64 = spos.y as i64 - self.min_y as i64;
        let mut blocks: Vec<Option<BlockState>> = Vec::new();
        let mut i: usize = 0;
        let mut x: i32 = 0;
        let mut y: i32 = 0;
        let mut z: i32 = 0;
        while i < 5832
            invariant
                self.wf(),
                base_y == spos.y - self.min_y,
                0 <= i <= 5832,
                blocks.len() == i,
                0 <= x <= 18,
                0 <= y < 18,
                0 <= z < 18,
                i == local_slot(x as int, y as int, z as int),
                forall|xx: int, yy: int, zz: int|
                    0 <= xx < 18 && 0 <= yy < 18 && 0 <= zz < 18 && local_slot(xx, yy, zz) < i
                        ==> blocks[#[trigger] local_slot(xx, yy, zz)] == self.spec_block_local(
                        base_y as int,
                        xx - 1,
                        yy - 1,
                        zz - 1,
                    ),
            decreases 5832 - i,
        {
            let state = self.block_local_wide(base_y, x - 1, y - 1, z - 1);
            let ghost before = blocks@;
            blocks.push(state);
            proof {
                assert forall|xx: int, yy: int, zz: int|
                    0 <= xx < 18 && 0 <= yy < 18 && 0 <= zz < 18 && local_slot(xx, yy, zz) < i
                        + 1 implies blocks[#[trigger] local_slot(xx, yy, zz)]
                    == self.spec_block_local(base_y as int, xx - 1, yy - 1, zz - 1) by {
                    if local_slot(xx, yy, zz) < i {
                        assert(blocks[local_slot(xx, yy, zz)] == before[local_slot(xx, yy, zz)]);
                    } else {
                        assert(xx == x && yy == y && zz == z);
                    }
                }
            }
            z = z + 1;
            if z == 18 {
                z = 0;
                y = y + 1;
                if y == 18 {
                    y = 0;
                    x = x + 1;
                }
            }
            i = i + 1;
        }
        let mut biomes: Vec<Biome> = Vec::new();
        let mut b: usize = 0;
        let in_world: bool = 0 <= base_y && (base_y as u64) < self.center.sections.len() as u64;
        while b < 64
            invariant
                self.wf(),
                base_y == spos.y - self.min_y,
                in_world == (0 <= base_y < self.center.sections.len()),
                0 <= b <= 64,
                biomes.len() == b,
                forall|k: int|
                    0 <= k < b ==> #[trigger] biomes[k] == (if in_world {
                        self.center.sections[base_y as int].biomes[k]
                    } else {
                        Biome { id: 0 }
                    }),
            decreases 64 - b,
        {
            let biome = if in_world {
                assert(self.center.sections[base_y as int].wf());
                self.center.sections[base_y as usize].biomes[b]
            } else {
                Biome { id: 0 }
            };
            biomes.push(biome);
            b = b + 1;
        }
        LocalSection { blocks, biomes, spos }
    }
}

/// Builds the local section of a section from the chunk columns that the
/// world holds around it: nothing if the world does not hold the section's
/// own column. `world_min_y` is the height of the world's first block.
pub fn build_local_section<'a>(
    center: Option<&'a Chunk>,
    neighbors: [Option<&'a Chunk>; 8],
    world_min_y: i32,
    spos: ChunkSectionPos,
) -> (local: Option<LocalSection>)
    requires
        center matches Some(chunk) ==> chunk.wf(),
        forall|place: int|
            0 <= place < 8 ==> (#[trigger] neighbors[place] matches Some(chunk) ==> chunk.wf()),
    ensures
        local is Some <==> center is Some,
        local matches Some(section) ==> {
            let chunks = BorrowedChunks {
                center: center.unwrap(),
                neighbors,
                min_y: crate::position::div_toward_zero(world_min_y as int, 16) as i32,
            };
            &&& section.wf()
            &&& section.spos == spos
            &&& forall|x: int, y: int, z: int|
                0 <= x < 18 && 0 <= y < 18 && 0 <= z < 18 ==> #[trigger] section.spec_block(x, y, z)
                    == chunks.spec_block_local(spos.y - chunks.min_y, x - 1, y - 1, z - 1)
            &&& forall|x: int, y: int, z: int|
                0 <= x < 4 && 0 <= y < 4 && 0 <= z < 4 ==> #[trigger] section.spec_biome(x, y, z)
                    == chunks.spec_biome_local(spos.y - chunks.min_y, x, y, z)
        },
{
    match center {
        Some(chunk) => {
            let chunks = BorrowedChunks {
                center: chunk,
                neighbors,
                min_y: crate::position::div_trunc(world_min_y, 16),
            };
            Some(chunks.build_local_section(spos))
        },
        None => None,
    }
}

} // verus!
