//! The hierarchical depth pyramid: a depth image and, level above level, the
//! smallest depth key of every block of 2 by 2 texels of the level below.

use vstd::prelude::*;
use vstd::arithmetic::power2::{lemma_pow2_pos, lemma_pow2_unfold, pow2};
use crate::snapshot::Depth;

verus! {

/// A depth image: one depth key per texel, row after row. Of two keys the
/// smaller one is the nearer surface.
pub struct DepthImage {
    pub width: u32,
    pub height: u32,
    pub texels: Vec<Depth>,
}

/// The smaller of two keys.
pub open spec fn min2(a: Depth, b: Depth) -> Depth {
    if a <= b {
        a
    } else {
        b
    }
}

/// The smallest of four keys.
pub open spec fn min4(a: Depth, b: Depth, c: Depth, d: Depth) -> Depth {
    min2(min2(a, b), min2(c, d))
}

/// The extent of the level above a level of extent `extent`: half of it,
/// rounded down, and at least 1.
pub open spec fn halved(extent: int) -> int {
    if extent / 2 >= 1 {
        extent / 2
    } else {
        1
    }
}

/// The extent of level `level` of a pyramid over an image of extent
/// `extent`.
pub open spec fn mip_extent(extent: int, level: nat) -> int
    decreases level,
{
    if level == 0 {
        extent
    } else {
        halved(mip_extent(extent, (level - 1) as nat))
    }
}

/// The coordinate, in a level of extent `extent`, of one of the two texels
/// along an axis that the texel `c` of the level above is made from: `2c`
/// for `k == 0` and `2c + 1` for `k == 1`, kept within the level.
pub open spec fn source(c: int, extent: int, k: int) -> int {
    if 2 * c + k <= extent - 1 {
        2 * c + k
    } else {
        extent - 1
    }
}

/// The coordinate that `c` has `levels` levels up: halved that many times.
pub open spec fn ancestor(c: int, levels: nat) -> int
    decreases levels,
{
    if levels == 0 {
        c
    } else {
        ancestor(c / 2, (levels - 1) as nat)
    }
}

/// The texels with one ancestor `d` levels up are a run of `2^d` along each
/// axis: the ancestor of `c` is `c / 2^d`.
pub proof fn lemma_ancestor_is_quotient(c: int, levels: nat)
    requires
        0 <= c,
    ensures
        ancestor(c, levels) == c / (pow2(levels) as int),
    decreases levels,
{
    lemma_pow2_pos(levels);
    if levels == 0 {
        assert(pow2(0) == 1) by {
            vstd::arithmetic::power2::lemma2_to64();
        }
    } else {
        lemma_ancestor_is_quotient(c / 2, (levels - 1) as nat);
        lemma_pow2_unfold(levels);
        lemma_pow2_pos((levels - 1) as nat);
        vstd::arithmetic::div_mod::lemma_div_denominator(c, 2, pow2((levels - 1) as nat) as int);
    }
}

/// The larger of two extents.
pub open spec fn larger(a: int, b: int) -> int {
    if a >= b {
        a
    } else {
        b
    }
}

/// Number of levels of a pyramid whose larger extent is `extent`: one more
/// than the number of times that the extent can be halved before it is 1.
pub open spec fn levels_of(extent: int) -> nat
    decreases extent,
{
    if extent <= 1 {
        1
    } else {
        1 + levels_of(extent / 2)
    }
}

/// A pyramid has at least one level.
pub proof fn lemma_levels_positive(extent: int)
    ensures
        levels_of(extent) >= 1,
    decreases extent,
{
    if extent > 1 {
        lemma_levels_positive(extent / 2);
    }
}

/// A pyramid over an extent of 32 bits has at most 32 levels.
pub proof fn lemma_levels_fit(extent: int)
    requires
        extent <= u32::MAX,
    ensures
        levels_of(extent) <= 32,
{
    if extent >= 1 {
        lemma_levels_bracket(extent);
        vstd::arithmetic::power2::lemma2_to64();
        if levels_of(extent) - 1 > 32 {
            vstd::arithmetic::power2::lemma_pow2_strictly_increases(
                32,
                (levels_of(extent) - 1) as nat,
            );
        }
    }
}

/// Number of levels of a pyramid over an image.
pub open spec fn spec_mip_levels(width: int, height: int) -> nat {
    levels_of(larger(width, height))
}

/// The number of levels of a pyramid is the number of binary digits of its
/// larger extent.
pub proof fn lemma_levels_bracket(extent: int)
    requires
        extent >= 1,
    ensures
        pow2((levels_of(extent) - 1) as nat) <= extent < pow2(levels_of(extent)),
    decreases extent,
{
    vstd::arithmetic::power2::lemma2_to64();
    if extent > 1 {
        lemma_levels_bracket(extent / 2);
        lemma_pow2_unfold(levels_of(extent));
        lemma_pow2_unfold(levels_of(extent / 2));
    }
}

/// The key at `(x, y)` in a buffer that holds rows of `width` keys.
pub open spec fn texel_at(texels: Seq<Depth>, width: int, x: int, y: int) -> Depth {
    texels[y * width + x]
}

/// The key that the level above `src` has at `(x, y)`: the smallest key of
/// the four texels of `src` that the texel is made from.
pub open spec fn reduced_texel(src: DepthImage, x: int, y: int) -> Depth {
    min4(
        src.spec_texel(source(x, src.width as int, 0), source(y, src.height as int, 0)),
        src.spec_texel(source(x, src.width as int, 1), source(y, src.height as int, 0)),
        src.spec_texel(source(x, src.width as int, 0), source(y, src.height as int, 1)),
        src.spec_texel(source(x, src.width as int, 1), source(y, src.height as int, 1)),
    )
}

impl DepthImage {
    /// An image has at least one texel, and a key for each.
    pub open spec fn wf(&self) -> bool {
        &&& self.width >= 1
        &&& self.height >= 1
        &&& self.texels.len() == self.width * self.height
    }

    /// The key at a texel.
    pub open spec fn spec_texel(&self, x: int, y: int) -> Depth {
        texel_at(self.texels@, self.width as int, x, y)
    }

    /// Says whether the image is well formed.
    pub fn check(&self) -> (ok: bool)
        ensures
            ok == self.wf(),
    {
        if self.width == 0 || self.height == 0 {
            return false;
        }
        assert(self.width * self.height <= 0xffff_ffff * 0xffff_ffff) by (nonlinear_arith)
            requires
                self.width <= 0xffff_ffff,
                self.height <= 0xffff_ffff,
        ;
        let cells: u64 = (self.width as u64) * (self.height as u64);
        self.texels.len() as u64 == cells
    }

    /// An image with one key at every texel, if it has a texel and its
    /// number of texels fits the machine's word.
    pub fn filled(width: u32, height: u32, value: Depth) -> (image: Option<DepthImage>)
        ensures
            image is Some <==> width >= 1 && height >= 1 && width * height <= usize::MAX,
            image matches Some(img) ==> img.wf() && img.width == width && img.height == height
                && forall|i: int| 0 <= i < img.texels.len() ==> img.texels[i] == value,
    {
        if width == 0 || height == 0 {
            return None;
        }
        assert(width * height <= 0xffff_ffff * 0xffff_ffff) by (nonlinear_arith)
            requires
                width <= 0xffff_ffff,
                height <= 0xffff_ffff,
        ;
        let cells: u64 = (width as u64) * (height as u64);
        if cells > usize::MAX as u64 {
            return None;
        }
        let n: usize = cells as usize;
        let mut texels: Vec<Depth> = Vec::new();
        let mut i: usize = 0;
        while i < n
            invariant
                i <= n,
                texels.len() == i,
                forall|k: int| 0 <= k < i ==> texels[k] == value,
            decreases n - i,
        {
            texels.push(value);
            i = i + 1;
        }
        Some(DepthImage { width, height, texels })
    }

    /// The key at a texel, if the image has that texel.
    pub fn texel(&self, x: u32, y: u32) -> (depth: Option<Depth>)
        requires
            self.wf(),
        ensures
            depth is Some <==> x < self.width && y < self.height,
            depth matches Some(d) ==> d == self.spec_texel(x as int, y as int),
    {
        if x < self.width && y < self.height {
            Some(self.fetch(x, y))
        } else {
            None
        }
    }

    fn fetch(&self, x: u32, y: u32) -> (depth: Depth)
        requires
            self.wf(),
            x < self.width,
            y < self.height,
        ensures
            depth == self.spec_texel(x as int, y as int),
    {
        assert(y * self.width + x < self.width * self.height) by (nonlinear_arith)
            requires
                x < self.width,
                y < self.height,
        ;
        assert(0 <= y * self.width) by (nonlinear_arith)
            requires
                0 <= y,
                0 <= self.width,
        ;
        self.texels[(y as usize) * (self.width as usize) + (x as usize)]
    }

    /// The key at a texel, where a coordinate beyond the image's edge is
    /// taken as the edge.
    pub fn texel_clamped(&self, x: u32, y: u32) -> (depth: Depth)
        requires
            self.wf(),
        ensures
            depth == self.spec_texel(
                if x < self.width {
                    x as int
                } else {
                    self.width - 1
                },
                if y < self.height {
                    y as int
                } else {
                    self.height - 1
                },
            ),
    {
        let cx: u32 = if x < self.width {
            x
        } else {
            self.width - 1
        };
        let cy: u32 = if y < self.height {
            y
        } else {
            self.height - 1
        };
        self.fetch(cx, cy)
    }
}

/// Says whether `dst` is `src` one level up: half the extents, and at every
/// texel the smallest key of the four texels of `src` that it is made from.
#[verifier::opaque]
pub open spec fn is_reduction(src: DepthImage, dst: DepthImage) -> bool {
    &&& dst.wf()
    &&& dst.width == halved(src.width as int)
    &&& dst.height == halved(src.height as int)
    &&& forall|x: int, y: int|
        0 <= x < dst.width && 0 <= y < dst.height ==> #[trigger] dst.spec_texel(x, y)
            == reduced_texel(src, x, y)
}

/// The extent of the level above a level.
pub fn halve(extent: u32) -> (up: u32)
    ensures
        up == halved(extent as int),
{
    if extent / 2 >= 1 {
        extent / 2
    } else {
        1
    }
}

/// Copies a depth image into the lowest level of a pyramid.
pub fn copy(src: &DepthImage) -> (dst: DepthImage)
    requires
        src.wf(),
    ensures
        dst.wf(),
        dst.width == src.width,
        dst.height == src.height,
        dst.texels@ == src.texels@,
{
    let mut texels: Vec<Depth> = Vec::new();
    let mut i: usize = 0;
    while i < src.texels.len()
        invariant
            i <= src.texels.len(),
            texels@ == src.texels@.take(i as int),
        decreases src.texels.len() - i,
    {
        texels.push(src.texels[i]);
        assert(texels@ =~= src.texels@.take(i + 1));
        i = i + 1;
    }
    assert(src.texels@.take(src.texels.len() as int) =~= src.texels@);
    DepthImage { width: src.width, height: src.height, texels }
}

fn source_coord(c: u32, extent: u32, k: u32) -> (s: u32)
    requires
        extent >= 1,
        k <= 1,
        c < halved(extent as int),
    ensures
        s == source(c as int, extent as int, k as int),
        s < extent,
{
    let wide: u64 = 2 * (c as u64) + (k as u64);
    if wide <= (extent - 1) as u64 {
        wide as u32
    } else {
        extent - 1
    }
}

/// Makes the level above a level: every texel gets the smallest key of the
/// four texels below it.
pub fn reduce(src: &DepthImage) -> (dst: DepthImage)
    requires
        src.wf(),
    ensures
        is_reduction(*src, dst),
{
    let dw: u32 = halve(src.width);
    let dh: u32 = halve(src.height);
    let mut texels: Vec<Depth> = Vec::new();
    let mut y: u32 = 0;
    assert(dw * dh <= src.width * src.height) by (nonlinear_arith)
        requires
            1 <= dw <= src.width,
            1 <= dh <= src.height,
    ;
    while y < dh
        invariant
            src.wf(),
            dw == halved(src.width as int),
            dh == halved(src.height as int),
            y <= dh,
            texels.len() == y * dw,
            forall|xx: int, yy: int|
                0 <= xx < dw && 0 <= yy < y ==> #[trigger] texel_at(texels@, dw as int, xx, yy)
                    == reduced_texel(*src, xx, yy),
        decreases dh - y,
    {
        let y0 = source_coord(y, src.height, 0);
        let y1 = source_coord(y, src.height, 1);
        let mut x: u32 = 0;
        while x < dw
            invariant
                src.wf(),
                dw == halved(src.width as int),
                dh == halved(src.height as int),
                y < dh,
                x <= dw,
                y0 == source(y as int, src.height as int, 0),
                y1 == source(y as int, src.height as int, 1),
                y0 < src.height,
                y1 < src.height,
                texels.len() == y * dw + x,
                forall|xx: int, yy: int|
                    0 <= xx < dw && 0 <= yy < y ==> #[trigger] texel_at(texels@, dw as int, xx, yy)
                        == reduced_texel(*src, xx, yy),
                forall|xx: int|
                    0 <= xx < x ==> #[trigger] texel_at(texels@, dw as int, xx, y as int)
                        == reduced_texel(*src, xx, y as int),
            decreases dw - x,
        {
            let x0 = source_coord(x, src.width, 0);
            let x1 = source_coord(x, src.width, 1);
            let d0 = src.fetch(x0, y0);
            let d1 = src.fetch(x1, y0);
            let d2 = src.fetch(x0, y1);
            let d3 = src.fetch(x1, y1);
            let a = if d0 <= d1 {
                d0
            } else {
                d1
            };
            let b = if d2 <= d3 {
                d2
            } else {
                d3
            };
            let d = if a <= b {
                a
            } else {
                b
            };
            let ghost before = texels@;
            texels.push(d);
            proof {
                assert forall|xx: int, yy: int| 0 <= xx < dw && 0 <= yy < y implies #[trigger]
                    texel_at(texels@, dw as int, xx, yy) == reduced_texel(*src, xx, yy) by {
                    assert(0 <= yy * dw + xx < y * dw) by (nonlinear_arith)
                        requires
                            0 <= xx < dw,
                            0 <= yy < y,
                    ;
                    assert(texel_at(texels@, dw as int, xx, yy) == texel_at(
                        before,
                        dw as int,
                        xx,
                        yy,
                    ));
                }
                assert forall|xx: int| 0 <= xx < x + 1 implies #[trigger] texel_at(
                    texels@,
                    dw as int,
                    xx,
                    y as int,
                ) == reduced_texel(*src, xx, y as int) by {
                    if xx < x {
                        assert(texel_at(texels@, dw as int, xx, y as int) == texel_at(
                            before,
                            dw as int,
                            xx,
                            y as int,
                        ));
                    }
                }
            }
            x = x + 1;
        }
        proof {
            assert((y + 1) * dw == y * dw + dw) by (nonlinear_arith);
        }
        y = y + 1;
    }
    assert(dh * dw == dw * dh) by (nonlinear_arith);
    reveal(is_reduction);
    DepthImage { width: dw, height: dh, texels }
}

/// Number of levels of a pyramid over an image.
pub fn mip_levels(width: u32, height: u32) -> (levels: u32)
    ensures
        levels == spec_mip_levels(width as int, height as int),
        1 <= levels <= 32,
{
    let mut m: u32 = if width >= height {
        width
    } else {
        height
    };
    let mut n: u32 = 1;
    let ghost top = m;
    proof {
        lemma_levels_fit(top as int);
    }
    while m > 1
        invariant
            1 <= n <= 32,
            levels_of(top as int) <= 32,
            levels_of(top as int) == n - 1 + levels_of(m as int),
        decreases m,
    {
        proof {
            lemma_levels_positive(m as int / 2);
        }
        m = m / 2;
        n = n + 1;
    }
    n
}

/// A pyramid of depth images: level 0 is the depth image itself, and every
/// level above holds, at every texel, the smallest key of the four texels
/// below it, up to a level of one texel.
pub struct HiZPyramid {
    levels: Vec<DepthImage>,
}

/// Says whether a list of images is a pyramid.
pub open spec fn is_pyramid(levels: Seq<DepthImage>) -> bool {
    &&& levels.len() >= 1
    &&& levels[0].wf()
    &&& levels.len() == spec_mip_levels(levels[0].width as int, levels[0].height as int)
    &&& forall|l: int|
        0 <= l < levels.len() - 1 ==> is_reduction(#[trigger] levels[l], levels[l + 1])
}

/// Every level of a pyramid is an image, with the extents of its level.
pub proof fn lemma_pyramid_levels(levels: Seq<DepthImage>, l: int)
    requires
        is_pyramid(levels),
        0 <= l < levels.len(),
    ensures
        levels[l].wf(),
        levels[l].width == mip_extent(levels[0].width as int, l as nat),
        levels[l].height == mip_extent(levels[0].height as int, l as nat),
        levels_of(larger(levels[l].width as int, levels[l].height as int)) == levels.len() - l,
    decreases l,
{
    if l > 0 {
        lemma_pyramid_levels(levels, l - 1);
        reveal(is_reduction);
        assert(is_reduction(levels[l - 1], levels[l]));
    }
}

/// The top level of a pyramid is one texel.
pub proof fn lemma_pyramid_top(levels: Seq<DepthImage>)
    requires
        is_pyramid(levels),
    ensures
        levels[levels.len() - 1].width == 1,
        levels[levels.len() - 1].height == 1,
{
    lemma_pyramid_levels(levels, levels.len() - 1);
    let top = levels[levels.len() - 1];
    lemma_levels_positive(larger(top.width as int, top.height as int) / 2);
}

/// Says whether the texel `(x, y)` of level `i` and its ancestors on the
/// `up` levels above all lie within their levels. They do so wherever the
/// extents halve without a remainder; where an extent is odd, its last
/// texel is left out of the level above.
pub open spec fn feeds_up(levels: Seq<DepthImage>, i: int, x: int, y: int, up: nat) -> bool
    decreases up,
{
    &&& 0 <= i < levels.len()
    &&& 0 <= x < levels[i].width
    &&& 0 <= y < levels[i].height
    &&& up > 0 ==> feeds_up(levels, i + 1, x / 2, y / 2, (up - 1) as nat)
}

/// A texel of a pyramid is not above any texel that it was made from: for
/// levels `i <= j`, the key at level `j` is at most the key of every texel
/// of level `i` whose ancestor it is. Those texels are a block of
/// `2^(j - i)` by `2^(j - i)` texels, as far as it lies within the levels.
pub proof fn lemma_coarse_bounds_fine(levels: Seq<DepthImage>, i: int, j: int, x: int, y: int)
    requires
        is_pyramid(levels),
        0 <= i <= j < levels.len(),
        feeds_up(levels, i, x, y, (j - i) as nat),
    ensures
        levels[j].spec_texel(ancestor(x, (j - i) as nat), ancestor(y, (j - i) as nat))
            <= levels[i].spec_texel(x, y),
    decreases j - i,
{
    if i < j {
        lemma_pyramid_levels(levels, i);
        reveal(is_reduction);
        assert(is_reduction(levels[i], levels[i + 1]));
        let src = levels[i];
        let dst = levels[i + 1];
        assert(feeds_up(levels, i + 1, x / 2, y / 2, (j - i - 1) as nat));
        assert(dst.spec_texel(x / 2, y / 2) == reduced_texel(src, x / 2, y / 2));
        assert(source(x / 2, src.width as int, x % 2) == x);
        assert(source(y / 2, src.height as int, y % 2) == y);
        lemma_coarse_bounds_fine(levels, i + 1, j, x / 2, y / 2);
    }
}

/// A texel of a pyramid is at most every texel of the block below it: for
/// levels `i <= j` and `d = j - i`, the key at `(bx, by)` of level `j` is at
/// most the key at `(x, y)` of level `i` wherever `(x, y)` lies in the block
/// of `2^d` by `2^d` texels at `(bx * 2^d, by * 2^d)` and feeds level `j`.
pub proof fn lemma_block_bound(
    levels: Seq<DepthImage>,
    i: int,
    j: int,
    bx: int,
    by: int,
    x: int,
    y: int,
)
    requires
        is_pyramid(levels),
        0 <= i <= j < levels.len(),
        0 <= bx,
        0 <= by,
        bx * pow2((j - i) as nat) <= x < (bx + 1) * pow2((j - i) as nat),
        by * pow2((j - i) as nat) <= y < (by + 1) * pow2((j - i) as nat),
        feeds_up(levels, i, x, y, (j - i) as nat),
    ensures
        levels[j].spec_texel(bx, by) <= levels[i].spec_texel(x, y),
{
    let d = (j - i) as nat;
    let side = pow2(d) as int;
    lemma_pow2_pos(d);
    assert(0 <= bx * side) by (nonlinear_arith)
        requires
            0 <= bx,
            0 < side,
    ;
    assert(0 <= by * side) by (nonlinear_arith)
        requires
            0 <= by,
            0 < side,
    ;
    assert(x - bx * side < side && y - by * side < side) by (nonlinear_arith)
        requires
            x < (bx + 1) * side,
            y < (by + 1) * side,
    ;
    vstd::arithmetic::div_mod::lemma_fundamental_div_mod_converse(x, side, bx, x - bx * side);
    vstd::arithmetic::div_mod::lemma_fundamental_div_mod_converse(y, side, by, y - by * side);
    lemma_ancestor_is_quotient(x, d);
    lemma_ancestor_is_quotient(y, d);
    lemma_coarse_bounds_fine(levels, i, j, x, y);
}

/// Where the extents of the levels `i..j` are even, every texel of level `i`
/// feeds level `j`: the whole block counts.
pub proof fn lemma_even_levels_feed_up(levels: Seq<DepthImage>, i: int, j: int, x: int, y: int)
    requires
        is_pyramid(levels),
        0 <= i <= j < levels.len(),
        0 <= x < levels[i].width,
        0 <= y < levels[i].height,
        forall|l: int|
            i <= l < j ==> (#[trigger] levels[l]).width % 2 == 0 && levels[l].height % 2 == 0,
    ensures
        feeds_up(levels, i, x, y, (j - i) as nat),
    decreases j - i,
{
    if i < j {
        reveal(is_reduction);
        assert(is_reduction(levels[i], levels[i + 1]));
        assert(levels[i].width % 2 == 0 && levels[i].height % 2 == 0);
        lemma_even_levels_feed_up(levels, i + 1, j, x / 2, y / 2);
    }
}

/// The keys of a pyramid stay within the bounds of the keys of its level 0:
/// a pyramid over an image of one key holds that key everywhere.
pub proof fn lemma_pyramid_keeps_bounds(
    levels: Seq<DepthImage>,
    low: Depth,
    high: Depth,
    l: int,
    x: int,
    y: int,
)
    requires
        is_pyramid(levels),
        forall|k: int|
            0 <= k < levels[0].texels.len() ==> low <= #[trigger] levels[0].texels[k] <= high,
        0 <= l < levels.len(),
        0 <= x < levels[l].width,
        0 <= y < levels[l].height,
    ensures
        low <= levels[l].spec_texel(x, y) <= high,
    decreases l,
{
    lemma_pyramid_levels(levels, l);
    if l == 0 {
        lemma_texel_in_image(levels[0], x, y);
    } else {
        lemma_pyramid_levels(levels, l - 1);
        let src = levels[l - 1];
        let w = src.width as int;
        let h = src.height as int;
        reveal(is_reduction);
        assert(is_reduction(src, levels[l]));
        assert(levels[l].spec_texel(x, y) == reduced_texel(src, x, y));
        lemma_pyramid_keeps_bounds(levels, low, high, l - 1, source(x, w, 0), source(y, h, 0));
        lemma_pyramid_keeps_bounds(levels, low, high, l - 1, source(x, w, 1), source(y, h, 0));
        lemma_pyramid_keeps_bounds(levels, low, high, l - 1, source(x, w, 0), source(y, h, 1));
        lemma_pyramid_keeps_bounds(levels, low, high, l - 1, source(x, w, 1), source(y, h, 1));
    }
}

/// A texel of an image has its key in the image's buffer.
pub proof fn lemma_texel_in_image(image: DepthImage, x: int, y: int)
    requires
        image.wf(),
        0 <= x < image.width,
        0 <= y < image.height,
    ensures
        0 <= y * image.width + x < image.texels.len(),
{
    assert(0 <= y * image.width + x < image.width * image.height) by (nonlinear_arith)
        requires
            0 <= x < image.width,
            0 <= y < image.height,
    ;
}

/// Side of the square of texels that one work group of the device covers.
pub const WORKGROUP_SIDE: u32 = 8;

/// Number of work groups along an axis that cover an extent: the extent
/// over the side of a group, rounded up, and at least 1.
pub open spec fn spec_group_count(extent: int) -> int {
    larger(1, (extent + 7) / 8)
}

pub fn group_count(extent: u32) -> (groups: u32)
    ensures
        groups == spec_group_count(extent as int),
{
    let side: u64 = WORKGROUP_SIDE as u64;
    let wide: u64 = (extent as u64 + (side - 1)) / side;
    if wide >= 1 {
        wide as u32
    } else {
        1
    }
}

/// The work that the device is given for one level of a pyramid.
#[derive(Debug, Clone, Copy, PartialEq, Eq, Structural)]
pub struct LevelDispatch {
    pub level: u32,
    pub width: u32,
    pub height: u32,
    pub groups_x: u32,
    pub groups_y: u32,
}

/// The work for level `level` of a pyramid over an image.
pub open spec fn spec_level_dispatch(width: u32, height: u32, level: nat) -> LevelDispatch {
    LevelDispatch {
        level: level as u32,
        width: mip_extent(width as int, level) as u32,
        height: mip_extent(height as int, level) as u32,
        groups_x: spec_group_count(mip_extent(width as int, level)) as u32,
        groups_y: spec_group_count(mip_extent(height as int, level)) as u32,
    }
}

/// The work for every level of a pyramid of `mip_levels` levels over an
/// image, from level 0 up: the copy into level 0 first, then one reduction
/// for each level above.
pub fn dispatch_plan(width: u32, height: u32, mip_levels: u32) -> (plan: Vec<LevelDispatch>)
    ensures
        plan.len() == larger(1, mip_levels as int),
        forall|l: int|
            0 <= l < plan.len() ==> #[trigger] plan[l] == spec_level_dispatch(
                width,
                height,
                l as nat,
            ),
{
    let mut plan: Vec<LevelDispatch> = Vec::new();
    let mut w: u32 = width;
    let mut h: u32 = height;
    plan.push(
        LevelDispatch {
            level: 0,
            width: w,
            height: h,
            groups_x: group_count(w),
            groups_y: group_count(h),
        },
    );
    let mut level: u32 = 1;
    while level < mip_levels
        invariant
            1 <= level,
            level <= mip_levels || level == 1,
            plan.len() == level,
            w == mip_extent(width as int, (level - 1) as nat),
            h == mip_extent(height as int, (level - 1) as nat),
            forall|l: int|
                0 <= l < plan.len() ==> #[trigger] plan[l] == spec_level_dispatch(
                    width,
                    height,
                    l as nat,
                ),
        decreases mip_levels - level,
    {
        w = halve(w);
        h = halve(h);
        plan.push(
            LevelDispatch {
                level,
                width: w,
                height: h,
                groups_x: group_count(w),
                groups_y: group_count(h),
            },
        );
        level = level + 1;
    }
    plan
}

impl HiZPyramid {
    #[verifier::type_invariant]
    pub closed spec fn inv(&self) -> bool {
        is_pyramid(self.levels@)
    }

    /// The levels, from the depth image up to the level of one texel.
    pub closed spec fn view(&self) -> Seq<DepthImage> {
        self.levels@
    }

    /// Builds the pyramid over a depth image: copies the image into level 0
    /// and reduces level after level until one texel is left.
    pub fn build(depth: &DepthImage) -> (pyramid: HiZPyramid)
        requires
            depth.wf(),
        ensures
            is_pyramid(pyramid@),
            pyramid@[0].width == depth.width,
            pyramid@[0].height == depth.height,
            pyramid@[0].texels@ == depth.texels@,
            pyramid@[pyramid@.len() - 1].width == 1,
            pyramid@[pyramid@.len() - 1].height == 1,
    {
        let count: u32 = mip_levels(depth.width, depth.height);
        let mut levels: Vec<DepthImage> = Vec::new();
        levels.push(copy(depth));
        let mut l: u32 = 1;
        while l < count
            invariant
                depth.wf(),
                count == spec_mip_levels(depth.width as int, depth.height as int),
                1 <= l <= count,
                levels.len() == l,
                levels[0].wf(),
                levels[0].width == depth.width,
                levels[0].height == depth.height,
                levels[0].texels@ == depth.texels@,
                levels[l - 1].wf(),
                levels_of(larger(levels[l - 1].width as int, levels[l - 1].height as int)) == count
                    - (l - 1),
                forall|k: int|
                    0 <= k < levels.len() - 1 ==> is_reduction(#[trigger] levels[k], levels[k + 1]),
            decreases count - l,
        {
            let next = reduce(&levels[(l - 1) as usize]);
            let ghost before = levels@;
            proof {
                let last = before[l - 1];
                assert(next.wf() && next.width == halved(last.width as int) && next.height
                    == halved(last.height as int)) by {
                    reveal(is_reduction);
                }
                assert(levels_of(larger(next.width as int, next.height as int)) == count - l) by {
                    lemma_levels_positive(larger(last.width as int, last.height as int) / 2);
                }
            }
            levels.push(next);
            proof {
                assert forall|k: int| 0 <= k < levels.len() - 1 implies is_reduction(
                    #[trigger] levels[k],
                    levels[k + 1],
                ) by {
                    if k < l - 1 {
                        assert(levels[k] == before[k] && levels[k + 1] == before[k + 1]);
                        assert(is_reduction(before[k], before[k + 1]));
                    } else {
                        assert(levels[k] == before[l - 1]);
                    }
                }
            }
            l = l + 1;
        }
        proof {
            lemma_pyramid_top(levels@);
        }
        HiZPyramid { levels }
    }

    /// Number of levels.
    pub fn level_count(&self) -> (count: usize)
        ensures
            is_pyramid(self@),
            count == self@.len(),
    {
        proof {
            use_type_invariant(self);
        }
        self.levels.len()
    }

    /// The levels, from the depth image up.
    pub fn levels(&self) -> (levels: &Vec<DepthImage>)
        ensures
            is_pyramid(self@),
            levels@ == self@,
    {
        proof {
            use_type_invariant(self);
        }
        &self.levels
    }

    /// The key of the texel of a level that holds the texel `(x, y)` of
    /// level 0, where a level past the top is taken as the top and a
    /// coordinate beyond the edge as the edge.
    pub fn sample(&self, level: u32, x: u32, y: u32) -> (depth: Depth)
        ensures
            is_pyramid(self@),
            depth == spec_sample(self@, level as int, x as int, y as int),
    {
        proof {
            use_type_invariant(self);
        }
        let top: usize = self.levels.len() - 1;
        let l: usize = if (level as usize) < top {
            level as usize
        } else {
            top
        };
        proof {
            lemma_pyramid_levels(self.levels@, l as int);
        }
        let lx: u32 = shift_down(x, level);
        let ly: u32 = shift_down(y, level);
        self.levels[l].texel_clamped(lx, ly)
    }
}

/// A coordinate halved `levels` times.
pub fn shift_down(c: u32, levels: u32) -> (up: u32)
    ensures
        up == ancestor(c as int, levels as nat),
{
    let mut v: u32 = c;
    let mut k: u32 = 0;
    while k < levels && v > 0
        invariant
            k <= levels,
            ancestor(v as int, (levels - k) as nat) == ancestor(c as int, levels as nat),
        decreases levels - k,
    {
        v = v / 2;
        k = k + 1;
    }
    proof {
        if v == 0 {
            lemma_ancestor_of_zero((levels - k) as nat);
        }
    }
    v
}

/// Zero halved is zero.
pub proof fn lemma_ancestor_of_zero(levels: nat)
    ensures
        ancestor(0, levels) == 0,
    decreases levels,
{
    if levels > 0 {
        lemma_ancestor_of_zero((levels - 1) as nat);
    }
}

/// The level that a sample at `level` reads: the level itself, or the top.
pub open spec fn sample_level(levels: Seq<DepthImage>, level: int) -> int {
    if level < levels.len() - 1 {
        level
    } else {
        levels.len() - 1
    }
}

/// A coordinate kept within an extent.
pub open spec fn clamped(c: int, extent: int) -> int {
    if c < extent {
        c
    } else {
        extent - 1
    }
}

/// What a sample of a pyramid reads for the texel `(x, y)` of level 0 at a
/// level.
pub open spec fn spec_sample(levels: Seq<DepthImage>, level: int, x: int, y: int) -> Depth {
    let l = sample_level(levels, level);
    levels[l].spec_texel(
        clamped(ancestor(x, level as nat), levels[l].width as int),
        clamped(ancestor(y, level as nat), levels[l].height as int),
    )
}

} // verus!
