//! The visibility snapshot: what the occlusion pass found for every cell of
//! the grid of sections around the camera.

use vstd::prelude::*;
use crate::position::{div_toward_zero, div_trunc, ChunkSectionPos, SECTION_SIDE};

verus! {

/// The depth of a cell as an ordered key: `0` says that the cell is not
/// visible, and of two positive keys the smaller one is the nearer cell.
///
/// The bit pattern of a non-negative 32-bit float is such a key, so a buffer
/// of depths that a graphics device wrote can be read as one key per cell.
pub type Depth = u32;

/// The key of a cell that is not visible.
pub const NOT_VISIBLE: Depth = 0;

/// What the occlusion pass found for every cell of a grid of sections around
/// the camera: one depth key per cell.
///
/// The grid spans `-radius..=radius` sections along x and z around the chunk
/// `(cx, cz)` and `0..height` sections upward from the lowest section of the
/// world, whose first block is at height `min_y`.
pub struct VisibilitySnapshot {
    pub radius: i32,
    pub height: i32,
    pub data: Vec<Depth>,
    pub cx: i32,
    pub cz: i32,
    pub min_y: i32,
}

/// Number of cells along x or z of a grid of a given radius.
pub open spec fn grid_side(radius: int) -> int {
    2 * radius + 1
}

/// Number of cells of a grid.
pub open spec fn grid_cells(radius: int, height: int) -> int {
    grid_side(radius) * grid_side(radius) * height
}

/// Place of the cell `(x, y, z)` in the buffer, where `x` and `z` count from
/// the grid's low edge: layer after layer, row after row.
pub open spec fn cell_slot(side: int, x: int, y: int, z: int) -> int {
    y * side * side + z * side + x
}

/// A slot within a grid names its cell: no two cells share a slot, and every
/// cell's slot lies within the buffer.
pub proof fn lemma_cell_slot(side: int, height: int, x: int, y: int, z: int)
    requires
        0 <= x < side,
        0 <= z < side,
        0 <= y < height,
    ensures
        0 <= cell_slot(side, x, y, z) < side * side * height,
        cell_slot(side, x, y, z) % side == x,
        (cell_slot(side, x, y, z) / side) % side == z,
        cell_slot(side, x, y, z) / (side * side) == y,
{
    let s = cell_slot(side, x, y, z);
    let row = y * side + z;
    assert(s == row * side + x) by (nonlinear_arith)
        requires
            s == y * side * side + z * side + x,
            row == y * side + z,
    ;
    vstd::arithmetic::div_mod::lemma_fundamental_div_mod_converse(s, side, row, x);
    vstd::arithmetic::div_mod::lemma_fundamental_div_mod_converse(row, side, y, z);
    assert(0 <= row < side * height) by (nonlinear_arith)
        requires
            row == y * side + z,
            0 <= z < side,
            0 <= y < height,
    ;
    assert(s < side * side * height) by (nonlinear_arith)
        requires
            s == row * side + x,
            0 <= x < side,
            0 <= row < side * height,
    ;
    assert(0 <= s) by (nonlinear_arith)
        requires
            s == row * side + x,
            0 <= x < side,
            0 <= row,
    ;
    vstd::arithmetic::div_mod::lemma_div_denominator(s, side, side);
}

impl VisibilitySnapshot {
    /// The grid is not empty of sense: its sizes are not negative and the
    /// buffer holds one key per cell.
    pub open spec fn wf(&self) -> bool {
        &&& self.radius >= 0
        &&& self.height >= 0
        &&& self.data.len() == grid_cells(self.radius as int, self.height as int)
    }

    /// The y of the lowest section of the grid.
    pub open spec fn spec_base_y(&self) -> int {
        div_toward_zero(self.min_y as int, 16)
    }

    /// Slot of the cell at offset `(dx, dy, dz)` from the grid's origin, if
    /// the offset lies within the grid.
    pub open spec fn spec_index(&self, dx: int, dy: int, dz: int) -> Option<int> {
        if -self.radius <= dx <= self.radius && -self.radius <= dz <= self.radius && 0 <= dy
            < self.height {
            Some(cell_slot(grid_side(self.radius as int), dx + self.radius, dy, dz + self.radius))
        } else {
            None
        }
    }

    /// The key of the cell at an offset, if the offset lies within the grid.
    pub open spec fn spec_depth(&self, dx: int, dy: int, dz: int) -> Option<Depth> {
        match self.spec_index(dx, dy, dz) {
            Some(i) => Some(self.data@[i]),
            None => None,
        }
    }

    /// A cell is visible if it lies within the grid and its key is not `0`.
    pub open spec fn spec_is_visible(&self, dx: int, dy: int, dz: int) -> bool {
        match self.spec_depth(dx, dy, dz) {
            Some(d) => d != NOT_VISIBLE,
            None => false,
        }
    }

    /// Slot of the cell of a section, if the section lies within the grid.
    pub open spec fn spec_section_index(&self, spos: ChunkSectionPos) -> Option<int> {
        self.spec_index(spos.x - self.cx, spos.y - self.spec_base_y(), spos.z - self.cz)
    }

    /// The key of a section's cell, if the section lies within the grid.
    pub open spec fn spec_section_depth(&self, spos: ChunkSectionPos) -> Option<Depth> {
        self.spec_depth(spos.x - self.cx, spos.y - self.spec_base_y(), spos.z - self.cz)
    }

    /// A section is visible if its cell is.
    pub open spec fn spec_section_is_visible(&self, spos: ChunkSectionPos) -> bool {
        self.spec_is_visible(spos.x - self.cx, spos.y - self.spec_base_y(), spos.z - self.cz)
    }

    /// Says whether the snapshot is well formed.
    pub fn check(&self) -> (ok: bool)
        ensures
            ok == self.wf(),
    {
        if self.radius < 0 || self.height < 0 {
            return false;
        }
        match entry_count(self.radius, self.height) {
            Some(n) => n == self.data.len(),
            None => false,
        }
    }

    /// The y of the lowest section of the grid.
    pub fn base_y(&self) -> (y: i32)
        ensures
            y == self.spec_base_y(),
    {
        div_trunc(self.min_y, SECTION_SIDE)
    }

    fn index_wide(&self, dx: i64, dy: i64, dz: i64) -> (slot: Option<usize>)
        requires
            self.wf(),
        ensures
            match slot {
                Some(i) => self.spec_index(dx as int, dy as int, dz as int) == Some(i as int) && i
                    < self.data.len(),
                None => self.spec_index(dx as int, dy as int, dz as int) is None,
            },
    {
        let r: i64 = self.radius as i64;
        if dx < -r || dx > r {
            return None;
        }
        if dz < -r || dz > r {
            return None;
        }
        if dy < 0 || dy >= self.height as i64 {
            return None;
        }
        let ghost side_int = grid_side(self.radius as int);
        proof {
            lemma_cell_slot(side_int, self.height as int, dx + r, dy as int, dz + r);
            assert(side_int <= side_int * side_int * self.height) by (nonlinear_arith)
                requires
                    side_int >= 1,
                    self.height >= 1,
            ;
            assert(side_int * side_int <= side_int * side_int * self.height) by (nonlinear_arith)
                requires
                    side_int >= 1,
                    self.height >= 1,
            ;
        }
        let side: usize = (2 * r + 1) as usize;
        let x: usize = (dx + r) as usize;
        let z: usize = (dz + r) as usize;
        let y: usize = dy as usize;
        proof {
            assert(y * side <= y * side + z);
            assert(0 <= y * side + z < side * self.height) by (nonlinear_arith)
                requires
                    0 <= z < side,
                    0 <= y < self.height,
            ;
            assert((y * side + z) * side == y * side * side + z * side) by (nonlinear_arith);
            assert(y * side * side <= y * side * side + z * side + x) by (nonlinear_arith)
                requires
                    0 <= z,
                    0 <= x,
                    0 <= side,
            ;
            assert(z * side <= y * side * side + z * side + x) by (nonlinear_arith)
                requires
                    0 <= y,
                    0 <= x,
                    0 <= side,
            ;
            assert(y * side <= y * side * side) by (nonlinear_arith)
                requires
                    0 <= y,
                    1 <= side,
            ;
        }
        Some(y * side * side + z * side + x)
    }

    pub fn index(&self, dx: i32, dy: i32, dz: i32) -> (slot: Option<usize>)
        requires
            self.wf(),
        ensures
            match slot {
                Some(i) => self.spec_index(dx as int, dy as int, dz as int) == Some(i as int) && i
                    < self.data.len(),
                None => self.spec_index(dx as int, dy as int, dz as int) is None,
            },
    {
        self.index_wide(dx as i64, dy as i64, dz as i64)
    }

    /// The offset of the cell at a slot of the buffer from the grid's
    /// origin, if the buffer has that slot: what `index` is undone by.
    pub fn cell_offset(&self, slot: usize) -> (offset: Option<(i32, i32, i32)>)
        requires
            self.wf(),
        ensures
            offset is Some <==> slot < self.data.len(),
            offset matches Some((dx, dy, dz)) ==> self.spec_index(dx as int, dy as int, dz as int)
                == Some(slot as int),
    {
        if slot >= self.data.len() {
            return None;
        }
        let r: i64 = self.radius as i64;
        let side: u64 = (2 * r + 1) as u64;
        let ghost s = side as int;
        let ghost h = self.height as int;
        proof {
            assert(h >= 1) by (nonlinear_arith)
                requires
                    0 <= slot < s * s * h,
                    h >= 0,
                    s >= 1,
            ;
            assert(1 <= s * s <= s * s * h) by (nonlinear_arith)
                requires
                    s >= 1,
                    h >= 1,
            ;
        }
        let layer: u64 = side * side;
        let y: u64 = slot as u64 / layer;
        let rem: u64 = slot as u64 % layer;
        let z: u64 = rem / side;
        let x: u64 = rem % side;
        proof {
            vstd::arithmetic::div_mod::lemma_fundamental_div_mod(slot as int, layer as int);
            vstd::arithmetic::div_mod::lemma_fundamental_div_mod(rem as int, s);
            assert(z < s) by (nonlinear_arith)
                requires
                    rem == s * z + x,
                    rem < s * s,
                    0 <= x,
                    s >= 1,
            ;
            assert(y < h) by (nonlinear_arith)
                requires
                    slot == (s * s) * y + rem,
                    slot < s * s * h,
                    0 <= rem,
                    s >= 1,
            ;
            assert(cell_slot(s, x as int, y as int, z as int) == slot) by (nonlinear_arith)
                requires
                    slot == (s * s) * y + rem,
                    rem == s * z + x,
            ;
        }
        Some(((x as i64 - r) as i32, y as i32, (z as i64 - r) as i32))
    }

    pub fn get_depth(&self, dx: i32, dy: i32, dz: i32) -> (depth: Option<Depth>)
        requires
            self.wf(),
        ensures
            depth == self.spec_depth(dx as int, dy as int, dz as int),
    {
        match self.index(dx, dy, dz) {
            Some(i) => Some(self.data[i]),
            None => None,
        }
    }

    pub fn is_visible(&self, dx: i32, dy: i32, dz: i32) -> (visible: bool)
        requires
            self.wf(),
        ensures
            visible == self.spec_is_visible(dx as int, dy as int, dz as int),
    {
        match self.index(dx, dy, dz) {
            Some(i) => self.data[i] != NOT_VISIBLE,
            None => false,
        }
    }

    pub fn section_depth(&self, spos: ChunkSectionPos) -> (depth: Option<Depth>)
        requires
            self.wf(),
        ensures
            depth == self.spec_section_depth(spos),
    {
        let dx: i64 = spos.x as i64 - self.cx as i64;
        let dy: i64 = spos.y as i64 - self.base_y() as i64;
        let dz: i64 = spos.z as i64 - self.cz as i64;
        match self.index_wide(dx, dy, dz) {
            Some(i) => Some(self.data[i]),
            None => None,
        }
    }

    pub fn section_is_visible(&self, spos: ChunkSectionPos) -> (visible: bool)
        requires
            self.wf(),
        ensures
            visible == self.spec_section_is_visible(spos),
    {
        match self.section_depth(spos) {
            Some(d) => d != NOT_VISIBLE,
            None => false,
        }
    }
}

/// Number of cells of a grid, if the sizes are not negative and the number
/// fits the machine's word.
pub fn entry_count(radius: i32, height: i32) -> (count: Option<usize>)
    ensures
        match count {
            Some(n) => radius >= 0 && height >= 0 && n == grid_cells(radius as int, height as int),
            None => radius < 0 || height < 0 || grid_cells(radius as int, height as int)
                > usize::MAX,
        },
{
    if radius < 0 || height < 0 {
        return None;
    }
    let side: u64 = 2 * (radius as u64) + 1;
    let h: u64 = height as u64;
    let ghost cells = grid_cells(radius as int, height as int);
    if h == 0 {
        assert(cells == 0) by (nonlinear_arith)
            requires
                cells == grid_side(radius as int) * grid_side(radius as int) * 0,
        ;
        return Some(0);
    }
    assert(side * side <= 0xffff_ffff * 0xffff_ffff) by (nonlinear_arith)
        requires
            0 <= side <= 0xffff_ffff,
    ;
    let layer: u64 = side * side;
    assert(layer * h <= 0xffff_ffff_ffff_ffff * 0x7fff_ffff) by (nonlinear_arith)
        requires
            0 <= layer <= 0xffff_ffff_ffff_ffff,
            0 <= h <= 0x7fff_ffff,
    ;
    let total: u128 = (layer as u128) * (h as u128);
    assert(total == cells) by (nonlinear_arith)
        requires
            total == layer * h,
            layer == side * side,
            side == grid_side(radius as int),
            h == height,
            cells == grid_side(radius as int) * grid_side(radius as int) * height,
    ;
    if total > usize::MAX as u128 {
        None
    } else {
        Some(total as usize)
    }
}

/// The radius and the height of the grid for a render distance, in chunks,
/// and a world of a given height in blocks whose first block is at `min_y`:
/// the radius is the render distance, and the height is the world's height
/// less `min_y`, in sections, rounded toward zero. Nothing if one of them
/// does not fit 32 bits with a sign.
pub fn grid_for_world(render_distance: u32, world_height: u32, min_y: i32) -> (grid: Option<
    (i32, i32),
>)
    ensures
        match grid {
            Some((radius, height)) => radius == render_distance && height == div_toward_zero(
                world_height - min_y,
                16,
            ),
            None => render_distance > i32::MAX || div_toward_zero(world_height - min_y, 16)
                > i32::MAX,
        },
{
    if render_distance > 0x7fff_ffff {
        return None;
    }
    let span: i64 = world_height as i64 - min_y as i64;
    let sections: i64 = if span >= 0 {
        span / 16
    } else {
        -((-span) / 16)
    };
    if sections > 0x7fff_ffff {
        return None;
    }
    Some((render_distance as i32, sections as i32))
}

/// The sizes of the buffers that the occlusion pass writes and the host
/// reads back: those of a grid of a radius and a height. A snapshot is made
/// for the grid that the buffers have when it is read.
#[derive(Debug, Clone, Copy, PartialEq, Eq, Structural)]
pub struct VisibilityBuffers {
    pub radius: i32,
    pub height: i32,
    pub entry_count: usize,
    pub byte_size: u64,
}

impl VisibilityBuffers {
    /// The sizes are those of the grid.
    pub open spec fn wf(&self) -> bool {
        &&& self.radius >= 0
        &&& self.height >= 0
        &&& self.entry_count == grid_cells(self.radius as int, self.height as int)
        &&& self.byte_size == 4 * self.entry_count
    }

    /// Says whether buffers can be had for a grid: its sizes are not
    /// negative, and its cells and their bytes can be counted.
    pub open spec fn spec_fits(radius: int, height: int) -> bool {
        &&& radius >= 0
        &&& height >= 0
        &&& grid_cells(radius, height) <= usize::MAX
        &&& 4 * grid_cells(radius, height) <= u64::MAX
    }

    /// Number of cells of a grid, and the bytes of a buffer that holds one
    /// 32-bit key for each, if buffers can be had for the grid.
    pub fn calc(radius: i32, height: i32) -> (sizes: Option<(usize, u64)>)
        ensures
            sizes is Some <==> Self::spec_fits(radius as int, height as int),
            sizes matches Some((count, bytes)) ==> count == grid_cells(
                radius as int,
                height as int,
            ) && bytes == 4 * count,
    {
        match entry_count(radius, height) {
            Some(count) => {
                if count as u64 > u64::MAX / 4 {
                    None
                } else {
                    Some((count, 4 * (count as u64)))
                }
            },
            None => None,
        }
    }

    /// Says whether the sizes are those of the grid.
    pub fn check(&self) -> (ok: bool)
        ensures
            ok == self.wf(),
    {
        match Self::calc(self.radius, self.height) {
            Some((entry_count, byte_size)) => self.entry_count == entry_count && self.byte_size
                == byte_size,
            None => false,
        }
    }

    /// Number of work groups of the occlusion pass along x, y and z: one
    /// for every cell, with the layers of the grid along y.
    pub fn dispatch_size(&self) -> (groups: (u32, u32, u32))
        requires
            self.wf(),
        ensures
            groups.0 == grid_side(self.radius as int),
            groups.1 == self.height,
            groups.2 == grid_side(self.radius as int),
    {
        let side: u32 = (2 * (self.radius as i64) + 1) as u32;
        (side, self.height as u32, side)
    }

    /// The buffers for a grid, if they can be had.
    pub fn new(radius: i32, height: i32) -> (buffers: Option<VisibilityBuffers>)
        ensures
            buffers is Some <==> Self::spec_fits(radius as int, height as int),
            buffers matches Some(b) ==> b.wf() && b.radius == radius && b.height == height,
    {
        match Self::calc(radius, height) {
            Some((entry_count, byte_size)) => Some(
                VisibilityBuffers { radius, height, entry_count, byte_size },
            ),
            None => None,
        }
    }

    /// Gives the buffers the sizes of another grid and says whether they
    /// have to be made anew: they have if the grid differs from the one they
    /// had. Nothing changes, and nothing is said, if buffers cannot be had
    /// for the grid.
    pub fn resize(&mut self, new_radius: i32, new_height: i32) -> (replaced: Option<bool>)
        requires
            old(self).wf(),
        ensures
            final(self).wf(),
            match replaced {
                Some(changed) => {
                    &&& final(self).radius == new_radius
                    &&& final(self).height == new_height
                    &&& changed == (old(self).radius != new_radius || old(self).height
                        != new_height)
                },
                None => *final(self) == *old(self) && !Self::spec_fits(
                    new_radius as int,
                    new_height as int,
                ),
            },
    {
        if self.radius == new_radius && self.height == new_height {
            return Some(false);
        }
        match VisibilityBuffers::new(new_radius, new_height) {
            Some(buffers) => {
                *self = buffers;
                Some(true)
            },
            None => None,
        }
    }

    /// The snapshot of what was read back, taken while the camera is in the
    /// chunk `(cx, cz)` of a world whose first block is at height `min_y`;
    /// nothing if the data is not one key for every cell of the grid.
    pub fn snapshot(&self, data: Vec<Depth>, cx: i32, cz: i32, min_y: i32) -> (snapshot: Option<
        VisibilitySnapshot,
    >)
        requires
            self.wf(),
        ensures
            snapshot is Some <==> data.len() == self.entry_count,
            snapshot matches Some(s) ==> s.wf() && s.radius == self.radius && s.height
                == self.height && s.data@ == data@ && s.cx == cx && s.cz == cz && s.min_y == min_y,
    {
        if data.len() == self.entry_count {
            Some(
                VisibilitySnapshot {
                    radius: self.radius,
                    height: self.height,
                    data,
                    cx,
                    cz,
                    min_y,
                },
            )
        } else {
            None
        }
    }
}

} // verus!
