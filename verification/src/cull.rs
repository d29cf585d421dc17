//! The occlusion pass: for every cell of the grid around the camera, whether
//! the frustum rejects it and whether the depth pyramid hides it.

use vstd::prelude::*;
use crate::hiz::{
    ancestor, clamped, is_pyramid, larger, lemma_levels_fit, lemma_levels_positive,
    lemma_pyramid_keeps_bounds, lemma_pyramid_levels, levels_of, min4, sample_level, spec_sample,
    DepthImage, HiZPyramid,
};
use crate::position::{div_toward_zero, div_trunc, ChunkSectionPos};
use crate::snapshot::{Depth, VisibilitySnapshot, NOT_VISIBLE};

verus! {

/// What the projection of one corner of a cell's box found.
#[derive(Debug, Clone, Copy)]
pub struct ClipCorner {
    /// Whether the corner lies in front of the camera.
    pub in_front: bool,
    /// For each of the six planes of the view frustum, whether the corner
    /// lies on its inner side: left, right, bottom, top, near and far, in
    /// this order.
    pub inside: [bool; 6],
}

/// The rectangle on the screen that bounds a cell's box, in texels of the
/// depth image, after it was cut to the screen.
#[derive(Debug, Clone, Copy, PartialEq, Eq, Structural)]
pub struct ScreenRect {
    pub x0: u32,
    pub y0: u32,
    pub x1: u32,
    pub y1: u32,
}

/// The projection of a cell's box: its eight corners, the rectangle that
/// bounds it on the screen and the depth key of its nearest point.
#[derive(Debug, Clone, Copy)]
pub struct CellProjection {
    pub corners: [ClipCorner; 8],
    pub rect: ScreenRect,
    pub near_depth: Depth,
}

impl ScreenRect {
    /// A rectangle without width or without height.
    pub open spec fn spec_degenerate(self) -> bool {
        self.x1 <= self.x0 || self.y1 <= self.y0
    }

    /// The larger of the rectangle's width and height.
    pub open spec fn spec_extent(self) -> int {
        larger(self.x1 - self.x0, self.y1 - self.y0)
    }

    /// The level of a pyramid whose texels are about as large as the
    /// rectangle: the binary logarithm of its extent, rounded down.
    pub open spec fn spec_level(self) -> int {
        levels_of(self.spec_extent()) - 1
    }

    pub fn degenerate(&self) -> (flat: bool)
        ensures
            flat == self.spec_degenerate(),
    {
        self.x1 <= self.x0 || self.y1 <= self.y0
    }

    pub fn level(&self) -> (level: u32)
        requires
            !self.spec_degenerate(),
        ensures
            level == self.spec_level(),
            level < 32,
    {
        let w: u32 = self.x1 - self.x0;
        let h: u32 = self.y1 - self.y0;
        let mut m: u32 = if w >= h {
            w
        } else {
            h
        };
        let ghost top = m;
        let mut n: u32 = 0;
        proof {
            lemma_levels_fit(top as int);
        }
        while m > 1
            invariant
                0 <= n < 32,
                levels_of(top as int) <= 32,
                levels_of(top as int) == n + levels_of(m as int),
            decreases m,
        {
            proof {
                lemma_levels_positive(m as int / 2);
            }
            m = m / 2;
            n = n + 1;
        }
        n
    }
}

impl CellProjection {
    /// Every corner lies on the outer side of a plane.
    pub open spec fn spec_outside_plane(self, plane: int) -> bool {
        forall|c: int| 0 <= c < 8 ==> !(#[trigger] self.corners[c]).inside[plane]
    }

    /// The frustum rejects the cell: some plane has every corner on its
    /// outer side.
    pub open spec fn spec_frustum_rejects(self) -> bool {
        exists|plane: int| 0 <= plane < 6 && #[trigger] self.spec_outside_plane(plane)
    }

    /// No corner lies in front of the camera.
    pub open spec fn spec_behind_camera(self) -> bool {
        forall|c: int| 0 <= c < 8 ==> !(#[trigger] self.corners[c]).in_front
    }

    /// The cell lies wholly within the frustum.
    pub open spec fn spec_within_frustum(self) -> bool {
        forall|c: int|
            0 <= c < 8 ==> (#[trigger] self.corners[c]).in_front && forall|plane: int|
                0 <= plane < 6 ==> #[trigger] self.corners[c].inside[plane]
    }

    /// The key of the nearest surface that a pyramid shows behind the
    /// cell's rectangle: the smallest of the samples at its four corners.
    pub open spec fn spec_occluder(self, levels: Seq<DepthImage>) -> Depth {
        let l = self.rect.spec_level();
        min4(
            spec_sample(levels, l, self.rect.x0 as int, self.rect.y0 as int),
            spec_sample(levels, l, self.rect.x1 as int, self.rect.y0 as int),
            spec_sample(levels, l, self.rect.x0 as int, self.rect.y1 as int),
            spec_sample(levels, l, self.rect.x1 as int, self.rect.y1 as int),
        )
    }

    /// What the occlusion pass writes for the cell: the depth key of its
    /// nearest point where the cell is visible, `0` where it is not. The
    /// cell is visible if the frustum does not reject it, a corner lies in
    /// front of the camera, its rectangle has a width and a height, and its
    /// nearest point is nearer than everything that the pyramid shows at the
    /// rectangle's corners.
    pub open spec fn spec_value(self, levels: Seq<DepthImage>) -> Depth {
        if self.spec_frustum_rejects() || self.spec_behind_camera() || self.rect.spec_degenerate() {
            NOT_VISIBLE
        } else if self.near_depth < self.spec_occluder(levels) {
            self.near_depth
        } else {
            NOT_VISIBLE
        }
    }

    fn outside_plane(&self, plane: usize) -> (outside: bool)
        requires
            plane < 6,
        ensures
            outside == self.spec_outside_plane(plane as int),
    {
        let mut c: usize = 0;
        while c < 8
            invariant
                c <= 8,
                plane < 6,
                forall|k: int| 0 <= k < c ==> !(#[trigger] self.corners[k]).inside[plane as int],
            decreases 8 - c,
        {
            if self.corners[c].inside[plane] {
                return false;
            }
            c = c + 1;
        }
        true
    }

    pub fn frustum_rejects(&self) -> (rejected: bool)
        ensures
            rejected == self.spec_frustum_rejects(),
    {
        let mut plane: usize = 0;
        while plane < 6
            invariant
                plane <= 6,
                forall|p: int| 0 <= p < plane ==> !#[trigger] self.spec_outside_plane(p),
            decreases 6 - plane,
        {
            if self.outside_plane(plane) {
                return true;
            }
            plane = plane + 1;
        }
        false
    }

    pub fn behind_camera(&self) -> (behind: bool)
        ensures
            behind == self.spec_behind_camera(),
    {
        let mut c: usize = 0;
        while c < 8
            invariant
                c <= 8,
                forall|k: int| 0 <= k < c ==> !(#[trigger] self.corners[k]).in_front,
            decreases 8 - c,
        {
            if self.corners[c].in_front {
                return false;
            }
            c = c + 1;
        }
        true
    }

    /// Decides whether the cell is visible and gives the key to write for
    /// it.
    pub fn cull(&self, hiz: &HiZPyramid) -> (value: Depth)
        ensures
            value == self.spec_value(hiz@),
    {
        if self.frustum_rejects() {
            return NOT_VISIBLE;
        }
        if self.behind_camera() {
            return NOT_VISIBLE;
        }
        if self.rect.degenerate() {
            return NOT_VISIBLE;
        }
        let level = self.rect.level();
        let s1 = hiz.sample(level, self.rect.x0, self.rect.y0);
        let s2 = hiz.sample(level, self.rect.x1, self.rect.y0);
        let s3 = hiz.sample(level, self.rect.x0, self.rect.y1);
        let s4 = hiz.sample(level, self.rect.x1, self.rect.y1);
        let a = if s1 <= s2 {
            s1
        } else {
            s2
        };
        let b = if s3 <= s4 {
            s3
        } else {
            s4
        };
        let occluder = if a <= b {
            a
        } else {
            b
        };
        if self.near_depth < occluder {
            self.near_depth
        } else {
            NOT_VISIBLE
        }
    }
}

/// Side of a cell of the grid, in blocks.
pub const CELL_BLOCKS: i64 = 16;

/// The corner with the smallest coordinates of the box of a section, in
/// blocks.
pub open spec fn section_corner(spos: ChunkSectionPos) -> (int, int, int) {
    (16 * spos.x, 16 * spos.y, 16 * spos.z)
}

/// The corner with the smallest coordinates of the box of the cell at an
/// offset from the origin of the grid, in blocks. The grid lies round the
/// chunk `(cx, cz)` and starts at the lowest section of a world whose first
/// block is at height `min_y`; the box of the cell reaches `CELL_BLOCKS`
/// blocks further along every axis.
pub fn cell_corner(cx: i32, cz: i32, min_y: i32, dx: i32, dy: i32, dz: i32) -> (corner: (
    i64,
    i64,
    i64,
))
    ensures
        corner.0 == 16 * (cx + dx),
        corner.1 == 16 * (div_toward_zero(min_y as int, 16) + dy),
        corner.2 == 16 * (cz + dz),
{
    let base: i64 = div_trunc(min_y, 16) as i64;
    (
        CELL_BLOCKS * (cx as i64 + dx as i64),
        CELL_BLOCKS * (base + dy as i64),
        CELL_BLOCKS * (cz as i64 + dz as i64),
    )
}

/// The cell that a snapshot reads for a section is the cell whose box is the
/// box of the section.
pub proof fn lemma_cell_is_section(
    vis: VisibilitySnapshot,
    spos: ChunkSectionPos,
    dx: int,
    dy: int,
    dz: int,
)
    requires
        dx == spos.x - vis.cx,
        dy == spos.y - vis.spec_base_y(),
        dz == spos.z - vis.cz,
    ensures
        vis.spec_section_index(spos) == vis.spec_index(dx, dy, dz),
        section_corner(spos) == (
            16 * (vis.cx + dx),
            16 * (div_toward_zero(vis.min_y as int, 16) + dy),
            16 * (vis.cz + dz),
        ),
{
}

/// Says whether some plane of the frustum has no corner of a box on its
/// inner side and in front of the camera.
pub open spec fn spec_outside_frustum(corners: [ClipCorner; 8]) -> bool {
    exists|plane: int| 0 <= plane < 6 && #[trigger] spec_plane_rejects(corners, plane)
}

/// Says whether no corner of a box lies on the inner side of a plane and in
/// front of the camera.
pub open spec fn spec_plane_rejects(corners: [ClipCorner; 8], plane: int) -> bool {
    forall|c: int| 0 <= c < 8 ==> !((#[trigger] corners[c]).in_front && corners[c].inside[plane])
}

/// The frustum test of the draw loop: a box is drawn unless, for some plane
/// of the frustum, none of its corners that lie in front of the camera lies
/// on the plane's inner side.
pub fn aabb_visible(corners: &[ClipCorner; 8]) -> (visible: bool)
    ensures
        visible == !spec_outside_frustum(*corners),
{
    let mut plane: usize = 0;
    while plane < 6
        invariant
            plane <= 6,
            forall|p: int| 0 <= p < plane ==> !#[trigger] spec_plane_rejects(*corners, p),
        decreases 6 - plane,
    {
        let mut all_outside = true;
        let mut c: usize = 0;
        while c < 8
            invariant
                c <= 8,
                plane < 6,
                all_outside == forall|k: int|
                    0 <= k < c ==> !((#[trigger] corners[k]).in_front
                        && corners[k].inside[plane as int]),
            decreases 8 - c,
        {
            if corners[c].in_front && corners[c].inside[plane] {
                all_outside = false;
            }
            c = c + 1;
        }
        if all_outside {
            assert(spec_plane_rejects(*corners, plane as int));
            return false;
        }
        plane = plane + 1;
    }
    true
}

/// The occlusion pass over a grid: the key of every cell, in the order of
/// the cells' slots, from the projections of the cells in that order.
pub fn cull_chunks(projections: &Vec<CellProjection>, hiz: &HiZPyramid) -> (visible: Vec<Depth>)
    ensures
        visible.len() == projections.len(),
        forall|i: int|
            0 <= i < visible.len() ==> #[trigger] visible[i] == projections[i].spec_value(hiz@),
{
    let mut visible: Vec<Depth> = Vec::new();
    let mut i: usize = 0;
    while i < projections.len()
        invariant
            i <= projections.len(),
            visible.len() == i,
            forall|k: int| 0 <= k < i ==> #[trigger] visible[k] == projections[k].spec_value(hiz@),
        decreases projections.len() - i,
    {
        visible.push(projections[i].cull(hiz));
        i = i + 1;
    }
    visible
}

/// What a sample reads is the key of a texel of the pyramid.
pub proof fn lemma_sample_within(levels: Seq<DepthImage>, level: int, x: int, y: int) -> (at: (
    int,
    int,
    int,
))
    requires
        is_pyramid(levels),
        0 <= level,
        0 <= x,
        0 <= y,
    ensures
        0 <= at.0 < levels.len(),
        0 <= at.1 < levels[at.0].width,
        0 <= at.2 < levels[at.0].height,
        spec_sample(levels, level, x, y) == levels[at.0].spec_texel(at.1, at.2),
{
    let l = sample_level(levels, level);
    lemma_pyramid_levels(levels, l);
    lemma_ancestor_not_negative(x, level as nat);
    lemma_ancestor_not_negative(y, level as nat);
    (
        l,
        clamped(ancestor(x, level as nat), levels[l].width as int),
        clamped(ancestor(y, level as nat), levels[l].height as int),
    )
}

/// A coordinate that is not negative stays so when it is halved.
pub proof fn lemma_ancestor_not_negative(c: int, levels: nat)
    requires
        0 <= c,
    ensures
        0 <= ancestor(c, levels),
    decreases levels,
{
    if levels > 0 {
        lemma_ancestor_not_negative(c / 2, (levels - 1) as nat);
    }
}

/// A cell that lies wholly within the frustum, with a rectangle that has a
/// width and a height, is visible where every key of the depth image is
/// farther than the cell's nearest point: its own depth key is written.
pub proof fn lemma_cell_in_front_is_visible(cell: CellProjection, levels: Seq<DepthImage>)
    requires
        is_pyramid(levels),
        cell.spec_within_frustum(),
        !cell.rect.spec_degenerate(),
        forall|k: int|
            0 <= k < levels[0].texels.len() ==> cell.near_depth < #[trigger] levels[0].texels[k],
    ensures
        cell.spec_value(levels) == cell.near_depth,
{
    assert(cell.corners[0].in_front);
    assert forall|plane: int| 0 <= plane < 6 implies !#[trigger] cell.spec_outside_plane(plane) by {
        assert(cell.corners[0].inside[plane]);
    }
    let l = cell.rect.spec_level();
    lemma_levels_positive(cell.rect.spec_extent());
    assert(levels[0].texels.len() >= 1) by (nonlinear_arith)
        requires
            levels[0].texels.len() == levels[0].width * levels[0].height,
            levels[0].width >= 1,
            levels[0].height >= 1,
    ;
    assert(cell.near_depth < levels[0].texels[0]);
    let low: Depth = (cell.near_depth + 1) as Depth;
    let r = cell.rect;
    let a = lemma_sample_within(levels, l, r.x0 as int, r.y0 as int);
    lemma_pyramid_keeps_bounds(levels, low, u32::MAX, a.0, a.1, a.2);
    let b = lemma_sample_within(levels, l, r.x1 as int, r.y0 as int);
    lemma_pyramid_keeps_bounds(levels, low, u32::MAX, b.0, b.1, b.2);
    let c = lemma_sample_within(levels, l, r.x0 as int, r.y1 as int);
    lemma_pyramid_keeps_bounds(levels, low, u32::MAX, c.0, c.1, c.2);
    let d = lemma_sample_within(levels, l, r.x1 as int, r.y1 as int);
    lemma_pyramid_keeps_bounds(levels, low, u32::MAX, d.0, d.1, d.2);
}

/// A cell is not visible where no key of the depth image is farther than
/// the cell's nearest point: behind an occluder that fills the screen, `0`
/// is written.
pub proof fn lemma_cell_behind_is_invisible(cell: CellProjection, levels: Seq<DepthImage>)
    requires
        is_pyramid(levels),
        forall|k: int|
            0 <= k < levels[0].texels.len() ==> #[trigger] levels[0].texels[k] <= cell.near_depth,
    ensures
        cell.spec_value(levels) == NOT_VISIBLE,
{
    if !cell.rect.spec_degenerate() {
        let l = cell.rect.spec_level();
        lemma_levels_positive(cell.rect.spec_extent());
        let r = cell.rect;
        let a = lemma_sample_within(levels, l, r.x0 as int, r.y0 as int);
        lemma_pyramid_keeps_bounds(levels, 0, cell.near_depth, a.0, a.1, a.2);
    }
}

/// A cell is not visible where the pyramid shows, at a corner of the cell's
/// rectangle, a surface that is not farther than the cell's nearest point.
pub proof fn lemma_occluded_corner_hides_cell(
    cell: CellProjection,
    levels: Seq<DepthImage>,
    x: int,
    y: int,
)
    requires
        x == cell.rect.x0 || x == cell.rect.x1,
        y == cell.rect.y0 || y == cell.rect.y1,
        spec_sample(levels, cell.rect.spec_level(), x, y) <= cell.near_depth,
    ensures
        cell.spec_value(levels) == NOT_VISIBLE,
{
}

} // verus!
