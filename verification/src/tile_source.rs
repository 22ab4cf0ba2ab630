//! Tile pyramid fallback.
//!
//! When a tile has no data, its ancestors are tried one zoom level at a time.
//! The transform that re-projects an ancestor's geometry into the requested
//! tile's space is exact here: a [`TileRect`] scales by `2^level` and offsets
//! by dyadic fractions `col_num / 2^level` and `row_num / 2^level`.
//! [`fallback_chain`] lists every ancestor together with its transform, in the
//! order they are to be tried; the caller queries its storage for each entry
//! in turn and uses the first hit.

use vstd::prelude::*;

use vstd::arithmetic::div_mod::lemma_breakdown;
use vstd::arithmetic::power2::pow2;

use crate::geometry::GeoPoint;
use crate::tile::TileId;

verus! {

/// The transform from a found ancestor tile's local coordinates into the
/// requested tile's space: scale by `2^level`, after subtracting the offset
/// `(col_num / 2^level, row_num / 2^level)`. The identity transform has
/// `level == 0`.
#[derive(Debug, Copy, Clone, PartialEq, Eq, Structural)]
pub struct TileRect {
    pub col_num: u32,
    pub row_num: u32,
    pub level: u16,
}

impl TileRect {
    /// Offsets are proper fractions: the numerators lie inside the level's
    /// denominator.
    pub open spec fn wf(self) -> bool {
        self.level <= 30 && self.col_num < pow2(self.level as nat) && self.row_num < pow2(
            self.level as nat,
        )
    }

    /// The identity transform: no fallback happened.
    pub fn identity() -> (r: TileRect)
        ensures
            r == (TileRect { col_num: 0, row_num: 0, level: 0 }),
            r.wf(),
    {
        proof {
            vstd::arithmetic::power2::lemma2_to64();
        }
        TileRect { col_num: 0, row_num: 0, level: 0 }
    }

    /// The scale factor of this transform: `2^level`.
    pub fn scale(&self) -> (r: u32)
        requires
            self.level <= 30,
        ensures
            r == pow2(self.level as nat),
    {
        pow2_u32(self.level)
    }

    /// Re-projects a point in raw ancestor-tile units (1/4096 of the ancestor
    /// tile's edge) into raw units of the requested tile:
    /// `(p / 4096 - offset) * scale`, exactly, still in units of 1/4096.
    pub fn offset(&self, p: GeoPoint) -> (r: GeoPoint)
        requires
            self.wf(),
            -0x10_0000 <= p.x <= 0x10_0000,
            -0x10_0000 <= p.y <= 0x10_0000,
        ensures
            r.x == p.x * pow2(self.level as nat) - self.col_num * 4096,
            r.y == p.y * pow2(self.level as nat) - self.row_num * 4096,
    {
        let s = pow2_u32(self.level) as i64;
        assert(s <= 0x4000_0000);
        assert(p.x * s <= 0x10_0000 * 0x4000_0000 && p.x * s >= -0x10_0000 * 0x4000_0000)
            by (nonlinear_arith)
            requires
                -0x10_0000 <= p.x <= 0x10_0000,
                0 < s <= 0x4000_0000,
        ;
        assert(p.y * s <= 0x10_0000 * 0x4000_0000 && p.y * s >= -0x10_0000 * 0x4000_0000)
            by (nonlinear_arith)
            requires
                -0x10_0000 <= p.y <= 0x10_0000,
                0 < s <= 0x4000_0000,
        ;
        GeoPoint {
            x: p.x * s - (self.col_num as i64) * 4096,
            y: p.y * s - (self.row_num as i64) * 4096,
        }
    }
}

/// Computes `2^e` for small exponents.
#[verifier::loop_isolation(false)]
fn pow2_u32(e: u16) -> (r: u32)
    requires
        e <= 30,
    ensures
        r == pow2(e as nat),
        1 <= r <= 0x4000_0000,
{
    proof {
        vstd::arithmetic::power2::lemma2_to64();
    }
    let mut r: u32 = 1;
    let mut i: u16 = 0;
    while i < e
        invariant
            0 <= i <= e,
            r == pow2(i as nat),
            r <= 0x4000_0000,
        decreases e - i,
    {
        proof {
            vstd::arithmetic::power2::lemma_pow2_adds(i as nat, 1);
            vstd::arithmetic::power2::lemma2_to64();
            vstd::arithmetic::power2::lemma_pow2_strictly_increases(i as nat + 1, 31);
        }
        r = r * 2;
        i = i + 1;
    }
    r
}

/// Accumulates, while walking up the pyramid, which low coordinate bits the
/// requested tile lost at each parent step.
#[derive(Debug, Copy, Clone, PartialEq, Eq, Structural)]
pub struct TileRectBuilder {
    pub column: u32,
    pub row: u32,
    pub parents: u16,
}

impl TileRectBuilder {
    pub open spec fn wf(self) -> bool {
        self.parents <= 30 && self.column < pow2(self.parents as nat) && self.row < pow2(
            self.parents as nat,
        )
    }

    /// A builder that has walked no step yet.
    pub fn new() -> (r: TileRectBuilder)
        ensures
            r == (TileRectBuilder { column: 0, row: 0, parents: 0 }),
            r.wf(),
    {
        proof {
            vstd::arithmetic::power2::lemma2_to64();
        }
        TileRectBuilder { column: 0, row: 0, parents: 0 }
    }

    /// Steps to the parent tile, recording the coordinate bits the step
    /// discards; fails at zoom 0.
    pub fn parent(&mut self, tile_id: TileId) -> (r: Option<TileId>)
        requires
            old(self).wf(),
            tile_id.zoom > 0 ==> old(self).parents < 30,
        ensures
            final(self).wf(),
            tile_id.zoom == 0 ==> r is None && *final(self) == *old(self),
            tile_id.zoom > 0 ==> {
                &&& r == tile_id.spec_parent()
                &&& final(self).parents == old(self).parents + 1
                &&& final(self).column == old(self).column + (tile_id.column % 2)
                    * pow2(old(self).parents as nat)
                &&& final(self).row == old(self).row + (tile_id.row % 2) * pow2(
                    old(self).parents as nat,
                )
            },
    {
        if tile_id.zoom == 0 {
            return None;
        }
        let p = pow2_u32(self.parents);
        proof {
            vstd::arithmetic::power2::lemma_pow2_adds(self.parents as nat, 1);
            vstd::arithmetic::power2::lemma2_to64();
            assert((tile_id.column % 2) * p <= p && (tile_id.row % 2) * p <= p)
                by (nonlinear_arith)
                requires p >= 0;
            assert(pow2(self.parents as nat + 1) == 2 * pow2(self.parents as nat));
        }
        self.column = self.column + (tile_id.column % 2) * p;
        self.row = self.row + (tile_id.row % 2) * p;
        self.parents = self.parents + 1;
        tile_id.parent()
    }

    /// The accumulated transform. The column offset numerator is the
    /// accumulated column bits; the row offset is mirrored, because tile rows
    /// grow downward while the target space grows upward.
    pub fn rect(self) -> (r: TileRect)
        requires
            self.wf(),
        ensures
            r.wf(),
            r.level == self.parents,
            r.col_num == self.column,
            r.row_num == pow2(self.parents as nat) - 1 - self.row,
    {
        let p = pow2_u32(self.parents);
        TileRect { col_num: self.column, row_num: p - 1 - self.row, level: self.parents }
    }
}

/// All candidate tiles for a request, nearest first: the requested tile
/// itself, then each ancestor up to zoom 0, each with the exact transform
/// that re-projects its content into the requested tile's space. A resolver
/// queries storage for each entry in order and uses the first hit; if none
/// hits, the requested tile has no geometry.
#[verifier::loop_isolation(false)]
pub fn fallback_chain(id: TileId) -> (r: Vec<(TileId, TileRect)>)
    requires
        id.zoom <= 30,
    ensures
        r@.len() == id.zoom + 1,
        forall|i: int|
            0 <= i < r@.len() ==> {
                let (t, rect) = #[trigger] r@[i];
                &&& t.zoom == id.zoom - i
                &&& t.column == id.column as int / pow2(i as nat) as int
                &&& t.row == id.row as int / pow2(i as nat) as int
                &&& rect.level == i
                &&& rect.col_num == id.column as int % pow2(i as nat) as int
                &&& rect.row_num == pow2(i as nat) - 1 - (id.row as int % pow2(i as nat) as int)
                &&& rect.wf()
            },
{
    let mut r: Vec<(TileId, TileRect)> = Vec::new();
    let mut builder = TileRectBuilder::new();
    let mut cur = id;
    proof {
        vstd::arithmetic::power2::lemma2_to64();
        assert(pow2(0) == 1);
        assert(id.column as int / 1int == id.column as int);
        assert(id.row as int / 1int == id.row as int);
        assert(id.column as int % 1int == 0);
        assert(id.row as int % 1int == 0);
    }
    loop
        invariant
            builder.wf(),
            builder.parents == id.zoom - cur.zoom,
            cur.zoom <= id.zoom,
            r@.len() == id.zoom - cur.zoom,
            cur.column == id.column as int / pow2((id.zoom - cur.zoom) as nat) as int,
            cur.row == id.row as int / pow2((id.zoom - cur.zoom) as nat) as int,
            builder.column == id.column as int % pow2((id.zoom - cur.zoom) as nat) as int,
            builder.row == id.row as int % pow2((id.zoom - cur.zoom) as nat) as int,
            forall|i: int|
                0 <= i < r@.len() ==> {
                    let (t, rect) = #[trigger] r@[i];
                    &&& t.zoom == id.zoom - i
                    &&& t.column == id.column as int / pow2(i as nat) as int
                    &&& t.row == id.row as int / pow2(i as nat) as int
                    &&& rect.level == i
                    &&& rect.col_num == id.column as int % pow2(i as nat) as int
                    &&& rect.row_num == pow2(i as nat) - 1 - (id.row as int % pow2(i as nat) as int)
                    &&& rect.wf()
                },
        decreases cur.zoom,
    {
        let rect = builder.rect();
        r.push((cur, rect));
        let ghost steps = (id.zoom - cur.zoom) as nat;
        match builder.parent(cur) {
            Some(up) => {
                proof {
                    lemma_breakdown(id.column as int, pow2(steps) as int, 2);
                    lemma_breakdown(id.row as int, pow2(steps) as int, 2);
                    vstd::arithmetic::power2::lemma_pow2_adds(steps, 1);
                    vstd::arithmetic::power2::lemma2_to64();
                    vstd::arithmetic::div_mod::lemma_div_denominator(
                        id.column as int,
                        pow2(steps) as int,
                        2,
                    );
                    vstd::arithmetic::div_mod::lemma_div_denominator(
                        id.row as int,
                        pow2(steps) as int,
                        2,
                    );
                }
                cur = up;
            },
            None => {
                return r;
            },
        }
    }
}

} // verus!
