//! Positions of chunk columns and of chunk sections.

use vstd::prelude::*;

verus! {

/// A chunk column, in chunk units.
#[derive(Clone, Copy, Debug, PartialEq, Eq, Hash, Structural)]
pub struct ChunkPos {
    pub x: i32,
    pub z: i32,
}

impl ChunkPos {
    pub fn new(x: i32, z: i32) -> (pos: ChunkPos)
        ensures
            pos == (ChunkPos { x, z }),
    {
        ChunkPos { x, z }
    }
}

/// A 16×16×16 cube of blocks, in section units.
#[derive(Clone, Copy, Debug, PartialEq, Eq, Hash, Structural)]
pub struct ChunkSectionPos {
    pub x: i32,
    pub y: i32,
    pub z: i32,
}

/// Side of a section, in blocks.
pub const SECTION_SIDE: i32 = 16;

/// The quotient of `a` by `b` rounded toward zero, as the machine divides
/// signed integers.
pub open spec fn div_toward_zero(a: int, b: int) -> int
    recommends
        b > 0,
{
    if a >= 0 {
        a / b
    } else {
        -((-a) / b)
    }
}

/// Divides a signed number by a positive one, rounding toward zero.
pub fn div_trunc(a: i32, b: i32) -> (q: i32)
    requires
        b > 0,
    ensures
        q == div_toward_zero(a as int, b as int),
{
    if a >= 0 {
        a / b
    } else {
        let wide: i64 = -(a as i64);
        (-(wide / (b as i64))) as i32
    }
}

/// Divides a signed number by a positive one, rounding down.
pub fn div_floor(a: i32, b: i32) -> (q: i32)
    requires
        b > 0,
    ensures
        q == (a as int) / (b as int),
{
    if a >= 0 {
        a / b
    } else {
        let wide: i64 = -(a as i64);
        let up: i64 = (wide + (b as i64) - 1) / (b as i64);
        assert(-up == (a as int) / (b as int) && 0 <= up <= wide) by (nonlinear_arith)
            requires
                wide == -(a as int),
                up == (wide + b - 1) / (b as int),
                b > 0,
                a < 0,
        ;
        (-up) as i32
    }
}

impl ChunkSectionPos {
    pub fn new(x: i32, y: i32, z: i32) -> (pos: ChunkSectionPos)
        ensures
            pos == (ChunkSectionPos { x, y, z }),
    {
        ChunkSectionPos { x, y, z }
    }

    /// The section that holds the block at `(x, y, z)`: each coordinate
    /// divided by the side of a section, rounded down.
    pub open spec fn spec_of_block(x: int, y: int, z: int) -> ChunkSectionPos {
        ChunkSectionPos { x: (x / 16) as i32, y: (y / 16) as i32, z: (z / 16) as i32 }
    }

    pub fn of_block(x: i32, y: i32, z: i32) -> (pos: ChunkSectionPos)
        ensures
            pos == Self::spec_of_block(x as int, y as int, z as int),
    {
        ChunkSectionPos {
            x: div_floor(x, SECTION_SIDE),
            y: div_floor(y, SECTION_SIDE),
            z: div_floor(z, SECTION_SIDE),
        }
    }

    /// The chunk column that a section belongs to.
    pub fn chunk(self) -> (pos: ChunkPos)
        ensures
            pos == (ChunkPos { x: self.x, z: self.z }),
    {
        ChunkPos { x: self.x, z: self.z }
    }

    /// A number that stands for the position in a hashed set: the three
    /// coordinates, each moved into `0..2^32`, written side by side.
    pub open spec fn spec_key(self) -> u128 {
        ((self.x + 0x8000_0000) * 0x1_0000_0000_0000_0000 + (self.y + 0x8000_0000) * 0x1_0000_0000
            + (self.z + 0x8000_0000)) as u128
    }

    pub fn key(self) -> (k: u128)
        ensures
            k == self.spec_key(),
    {
        let x: u128 = (self.x as i64 + 0x8000_0000) as u128;
        let y: u128 = (self.y as i64 + 0x8000_0000) as u128;
        let z: u128 = (self.z as i64 + 0x8000_0000) as u128;
        x * 0x1_0000_0000_0000_0000 + y * 0x1_0000_0000 + z
    }
}

/// Two positions with one key are one position.
pub proof fn lemma_key_injective(a: ChunkSectionPos, b: ChunkSectionPos)
    requires
        a.spec_key() == b.spec_key(),
    ensures
        a == b,
{
}

} // verus!
