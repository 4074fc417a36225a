//! Axis-aligned rectangles and their overlap test.
use vstd::prelude::*;

verus! {

/// The rectangles `[ax, ay, aw, ah]` and `[bx, by, bw, bh]` (left, bottom,
/// width, height) share an interior point: edges that only touch do not count.
pub open spec fn rects_overlap(
    ax: int, ay: int, aw: int, ah: int,
    bx: int, by: int, bw: int, bh: int,
) -> bool {
    ax < bx + bw && ax + aw > bx && ay < by + bh && ay + ah > by
}

/// Whether two rectangles overlap, edges that only touch not counting.
pub fn rects_intersect(
    ax: i64, ay: i64, aw: i64, ah: i64,
    bx: i64, by: i64, bw: i64, bh: i64,
) -> (r: bool)
    ensures
        r == rects_overlap(ax as int, ay as int, aw as int, ah as int,
            bx as int, by as int, bw as int, bh as int),
{
    (ax as i128) < (bx as i128) + (bw as i128)
        && (ax as i128) + (aw as i128) > (bx as i128)
        && (ay as i128) < (by as i128) + (bh as i128)
        && (ay as i128) + (ah as i128) > (by as i128)
}

/// Overlap does not depend on which rectangle comes first.
pub proof fn lemma_overlap_symmetric(
    ax: int, ay: int, aw: int, ah: int,
    bx: int, by: int, bw: int, bh: int,
)
    ensures
        rects_overlap(ax, ay, aw, ah, bx, by, bw, bh)
            == rects_overlap(bx, by, bw, bh, ax, ay, aw, ah),
{
}

/// Rectangles whose spans on the horizontal axis, or on the vertical axis,
/// share no interior point never overlap.
pub proof fn lemma_disjoint_spans_never_overlap(
    ax: int, ay: int, aw: int, ah: int,
    bx: int, by: int, bw: int, bh: int,
)
    requires
        ax + aw <= bx || bx + bw <= ax || ay + ah <= by || by + bh <= ay,
    ensures
        !rects_overlap(ax, ay, aw, ah, bx, by, bw, bh),
{
}

/// Rectangles whose edges only touch, the right edge of one lying on the left
/// edge of the other or the top edge of one on the bottom edge of the other,
/// do not overlap.
pub proof fn lemma_touching_edges_do_not_overlap(
    ax: int, ay: int, aw: int, ah: int,
    bx: int, by: int, bw: int, bh: int,
)
    requires
        ax + aw == bx || ay + ah == by,
    ensures
        !rects_overlap(ax, ay, aw, ah, bx, by, bw, bh),
        !rects_overlap(bx, by, bw, bh, ax, ay, aw, ah),
{
}

} // verus!
