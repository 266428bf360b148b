//! Slippy-map tile addresses and their Web Mercator bounding boxes.
//!
//! A tile address `(z, x, y)` (origin top-left, `2^z` tiles per axis) maps to
//! a square in the spherical-Mercator plane. The classical formulas go
//! through longitude/latitude and the transcendental functions `sinh`,
//! `atan`, `tan` and `ln`, but they cancel exactly: with `E = pi * R` the
//! half extent of the projection (`R = 6378137.0`, so `E` is about
//! 20037508.342789244 meters) and `n = 2^z`, the box is
//!
//! ```text
//! minx = E * (2x - n) / n        maxx = E * (2(x+1) - n) / n
//! maxy = E * (n - 2y) / n        miny = E * (n - 2(y+1)) / n
//! ```
//!
//! because `ln(tan(pi/4 + atan(sinh(t))/2)) = asinh(sinh(t)) = t`.
//! The transform is therefore held here exactly, as integer numerators over
//! the common denominator `n`; scaling by `E` into floating-point meters is
//! a one-multiplication step for the embedding program.

use vstd::prelude::*;
use vstd::arithmetic::power2::{pow2, lemma_pow2_unfold, lemma_pow2_strictly_increases, lemma2_to64};
use vstd::bits::{lemma_u64_shl_is_mul, lemma_u64_pow2_no_overflow};

verus! {

/// A tile's bounding box in the Web Mercator plane, held exactly.
///
/// Each coordinate is `numerator / denom` in units of the half extent
/// `E = pi * 6378137.0` meters: `-denom` stands for the western/southern
/// edge of the world, `denom` for the eastern/northern edge. `denom` is
/// `2^z` for the zoom level the box came from.
#[derive(Clone, Copy, Debug, PartialEq, Eq, Structural)]
pub struct BBox {
    pub minx_num: i64,
    pub miny_num: i64,
    pub maxx_num: i64,
    pub maxy_num: i64,
    pub denom: u64,
}

/// The box of tile `(z, x, y)`, as exact fractions of the half extent.
pub open spec fn spec_tile_bbox(z: int, x: int, y: int) -> BBox {
    BBox {
        minx_num: (2 * x - pow2(z as nat)) as i64,
        miny_num: (pow2(z as nat) - 2 * y - 2) as i64,
        maxx_num: (2 * x + 2 - pow2(z as nat)) as i64,
        maxy_num: (pow2(z as nat) - 2 * y) as i64,
        denom: pow2(z as nat) as u64,
    }
}

/// Compute the bounding box of tile `(z, x, y)`.
///
/// Inputs follow the slippy-map scheme: `x, y < 2^z`. Zoom levels above 31
/// are out of the addressable range and are a caller error, as is an
/// out-of-range tile index; both are excluded up front so the computation
/// is exact and total on everything it admits.
pub fn tile_to_bbox(z: u32, x: u32, y: u32) -> (b: BBox)
    requires
        z <= 31,
        x < pow2(z as nat),
        y < pow2(z as nat),
    ensures
        b == spec_tile_bbox(z as int, x as int, y as int),
        b.denom == pow2(z as nat),
        b.minx_num == 2 * (x as int) - pow2(z as nat),
        b.maxx_num == 2 * (x as int) + 2 - pow2(z as nat),
        b.maxy_num == pow2(z as nat) - 2 * (y as int),
        b.miny_num == pow2(z as nat) - 2 * (y as int) - 2,
{
    let shift: u64 = z as u64;
    proof {
        lemma_u64_pow2_no_overflow(shift as nat);
        lemma_u64_shl_is_mul(1u64, shift);
        lemma2_to64();
        if z < 31 {
            lemma_pow2_strictly_increases(z as nat, 31);
        }
    }
    let n: u64 = 1u64 << shift;
    let minx_num: i64 = 2 * (x as i64) - (n as i64);
    let maxx_num: i64 = 2 * (x as i64) + 2 - (n as i64);
    let maxy_num: i64 = (n as i64) - 2 * (y as i64);
    let miny_num: i64 = (n as i64) - 2 * (y as i64) - 2;
    BBox { minx_num, miny_num, maxx_num, maxy_num, denom: n }
}

/// The root tile spans the whole projection: its box is the full square
/// from `-E` to `E` on both axes.
pub proof fn lemma_root_bbox()
    ensures
        spec_tile_bbox(0, 0, 0) == (BBox {
            minx_num: -1i64,
            miny_num: -1i64,
            maxx_num: 1,
            maxy_num: 1,
            denom: 1,
        }),
{
    lemma2_to64();
}

/// The four children of a tile partition it exactly: in the children's
/// (doubled) denominator, the outer edges of the child boxes coincide with
/// the parent's edges, and the inner edges of all four meet on the parent's
/// midlines — no gaps and no overlaps, with no tolerance needed.
pub proof fn lemma_children_partition(z: u32, x: u32, y: u32)
    requires
        z < 31,
        x < pow2(z as nat),
        y < pow2(z as nat),
    ensures
        ({
            let parent = spec_tile_bbox(z as int, x as int, y as int);
            let nw = spec_tile_bbox(z + 1, 2 * x, 2 * y);
            let ne = spec_tile_bbox(z + 1, 2 * x + 1, 2 * y);
            let sw = spec_tile_bbox(z + 1, 2 * x, 2 * y + 1);
            let se = spec_tile_bbox(z + 1, 2 * x + 1, 2 * y + 1);
            &&& nw.denom == 2 * parent.denom
            // the western edges of the left children sit on the parent's western edge
            &&& nw.minx_num == 2 * parent.minx_num
            &&& sw.minx_num == 2 * parent.minx_num
            // the eastern edges of the right children sit on the parent's eastern edge
            &&& ne.maxx_num == 2 * parent.maxx_num
            &&& se.maxx_num == 2 * parent.maxx_num
            // left and right children meet exactly on the vertical midline
            &&& nw.maxx_num == ne.minx_num
            &&& sw.maxx_num == se.minx_num
            &&& nw.maxx_num == parent.minx_num + parent.maxx_num
            // the northern edges of the top children sit on the parent's northern edge
            &&& nw.maxy_num == 2 * parent.maxy_num
            &&& ne.maxy_num == 2 * parent.maxy_num
            // the southern edges of the bottom children sit on the parent's southern edge
            &&& sw.miny_num == 2 * parent.miny_num
            &&& se.miny_num == 2 * parent.miny_num
            // top and bottom children meet exactly on the horizontal midline
            &&& nw.miny_num == sw.maxy_num
            &&& ne.miny_num == se.maxy_num
            &&& nw.miny_num == parent.miny_num + parent.maxy_num
            // all four children share the same denominator
            &&& ne.denom == nw.denom
            &&& sw.denom == nw.denom
            &&& se.denom == nw.denom
        }),
{
    lemma_pow2_unfold((z + 1) as nat);
    lemma2_to64();
    if z < 31 {
        lemma_pow2_strictly_increases(z as nat, 31);
    }
}

} // verus!
