//! Axis-aligned collision between the player box and the grid's solid
//! tiles. The player box is a little smaller than a tile; a position is
//! occupiable exactly when no solid tile overlaps it on both axes at once.
use vstd::prelude::*;

use crate::tilemap::kind_at;
use crate::tilemap::lemma_max_row_len_ge;
use crate::tilemap::TileGrid;
use crate::tilemap::TileKind;
use crate::MAX_COORD;
use crate::PLAYER_HALF;
use crate::TILE_HALF;
use crate::TILE_SUBUNITS;

verus! {

/// Magnitude of an integer.
pub open spec fn abs_of(v: int) -> int {
    if v < 0 {
        -v
    } else {
        v
    }
}

/// The standard overlap test for two axis-aligned boxes: their centers are
/// closer than the sum of the half-sides on both axes at once.
pub open spec fn boxes_overlap(px: int, py: int, tx: int, ty: int) -> bool {
    &&& abs_of(px - tx) < PLAYER_HALF + TILE_HALF
    &&& abs_of(py - ty) < PLAYER_HALF + TILE_HALF
}

/// Whether the tile at cell `(c, r)` is solid and its box overlaps the
/// player box centered at world position `(px, py)`.
pub open spec fn solid_tile_blocks(
    rows: Seq<Seq<TileKind>>,
    px: int,
    py: int,
    c: int,
    r: int,
) -> bool {
    &&& kind_at(rows, c, r) == TileKind::Solid
    &&& boxes_overlap(px, py, c * (TILE_SUBUNITS as int), -r * (TILE_SUBUNITS as int))
}

/// Whether any solid tile of the grid overlaps the player box at `(px, py)`.
pub open spec fn blocked(rows: Seq<Seq<TileKind>>, px: int, py: int) -> bool {
    exists|c: int, r: int| #[trigger] solid_tile_blocks(rows, px, py, c, r)
}

/// Whether the player box centered at `(px, py)` may stand there: true
/// exactly when no solid tile overlaps it. Pure; checked per axis by the
/// movement code so that a wall on one axis still allows sliding on the
/// other.
#[verifier::loop_isolation(false)]
pub fn can_occupy(px: i64, py: i64, grid: &TileGrid) -> (ok: bool)
    requires
        grid.wf(),
        -MAX_COORD <= px <= MAX_COORD,
        -MAX_COORD <= py <= MAX_COORD,
    ensures
        ok <==> !blocked(grid@, px as int, py as int),
{
    let h = grid.height();
    let w = grid.width();
    let mut r: usize = 0;
    while r < h
        invariant
            r <= h,
            forall|c: int, rr: int| 0 <= rr < r ==> !#[trigger] solid_tile_blocks(
                grid@,
                px as int,
                py as int,
                c,
                rr,
            ),
        decreases h - r,
    {
        let mut c: usize = 0;
        while c < w
            invariant
                c <= w,
                forall|cc: int| 0 <= cc < c ==> !#[trigger] solid_tile_blocks(
                    grid@,
                    px as int,
                    py as int,
                    cc,
                    r as int,
                ),
            decreases w - c,
        {
            let k = grid.classify(c as i64, r as i64);
            if k == TileKind::Solid {
                let tx: i64 = (c as i64) * TILE_SUBUNITS;
                let ty: i64 = -((r as i64) * TILE_SUBUNITS);
                let dx: i64 = if px >= tx {
                    px - tx
                } else {
                    tx - px
                };
                let dy: i64 = if py >= ty {
                    py - ty
                } else {
                    ty - py
                };
                if dx < PLAYER_HALF + TILE_HALF && dy < PLAYER_HALF + TILE_HALF {
                    assert(solid_tile_blocks(grid@, px as int, py as int, c as int, r as int));
                    return false;
                }
            }
            c += 1;
        }
        assert forall|cc: int| !solid_tile_blocks(
            grid@,
            px as int,
            py as int,
            cc,
            r as int,
        ) by {
            if cc < 0 || cc >= w {
                lemma_max_row_len_ge(grid@, r as int);
                assert(kind_at(grid@, cc, r as int) == TileKind::Open);
            }
        }
        r += 1;
    }
    assert forall|c: int, rr: int| !solid_tile_blocks(grid@, px as int, py as int, c, rr) by {
        if !(0 <= rr < h) {
            assert(kind_at(grid@, c, rr) == TileKind::Open);
        }
    }
    true
}

/// A player box centered exactly on a solid cell's world position cannot
/// stand there: the overlap with that very tile is total on both axes.
pub proof fn lemma_solid_center_blocked(rows: Seq<Seq<TileKind>>, c: int, r: int)
    requires
        kind_at(rows, c, r) == TileKind::Solid,
    ensures
        blocked(rows, c * (TILE_SUBUNITS as int), -r * (TILE_SUBUNITS as int)),
{
    assert(solid_tile_blocks(
        rows,
        c * (TILE_SUBUNITS as int),
        -r * (TILE_SUBUNITS as int),
        c,
        r,
    ));
}

/// A position whose player box lies wholly inside one cell, none of whose
/// eight neighbours (nor the cell itself) is solid, is always occupiable:
/// every solid tile is then at least a full tile away on some axis.
pub proof fn lemma_open_interior_occupiable(
    rows: Seq<Seq<TileKind>>,
    px: int,
    py: int,
    c0: int,
    r0: int,
)
    requires
        abs_of(px - c0 * (TILE_SUBUNITS as int)) + PLAYER_HALF <= TILE_HALF,
        abs_of(py + r0 * (TILE_SUBUNITS as int)) + PLAYER_HALF <= TILE_HALF,
        forall|c: int, r: int|
            c0 - 1 <= c <= c0 + 1 && r0 - 1 <= r <= r0 + 1 ==> #[trigger] kind_at(rows, c, r)
                != TileKind::Solid,
    ensures
        !blocked(rows, px, py),
{
    if blocked(rows, px, py) {
        let (c, r) = choose|c: int, r: int| #[trigger] solid_tile_blocks(rows, px, py, c, r);
        assert(!(c0 - 1 <= c <= c0 + 1 && r0 - 1 <= r <= r0 + 1));
        if c <= c0 - 2 || c >= c0 + 2 {
            assert(abs_of(px - c * (TILE_SUBUNITS as int)) >= PLAYER_HALF + TILE_HALF);
        } else {
            assert(r <= r0 - 2 || r >= r0 + 2);
            assert(abs_of(py + r * (TILE_SUBUNITS as int)) >= PLAYER_HALF + TILE_HALF);
        }
    }
}

} // verus!
