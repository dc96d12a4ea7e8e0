//! A clip vertex that repeats the vertex before it makes no difference.

use crate::algorithm::{clip_from, clipped, degenerate, spec_clip_edge, spec_clip_polygons};
use crate::common::Point;
use vstd::prelude::*;

verus! {

/// Index of the vertex before vertex `i` on the closed polygon.
pub open spec fn before(clipper: Seq<Point>, i: int) -> int {
    if i == 0 {
        clipper.len() - 1
    } else {
        i - 1
    }
}

/// Vertex `i` repeats the vertex before it, and the edge between the two is
/// one that the clipper passes over.
pub open spec fn repeats(clipper: Seq<Point>, i: int) -> bool {
    &&& 0 <= i < clipper.len()
    &&& clipper[i] == clipper[before(clipper, i)]
    &&& degenerate(clipper[before(clipper, i)], clipper[i])
}

/// Behind the removed vertex the two runs see the same vertices, one place
/// apart.
proof fn lemma_same_after(
    output: Seq<Point>,
    clipper: Seq<Point>,
    i: int,
    k: int,
    r: Point,
    used: bool,
)
    requires
        0 <= i < k <= clipper.len(),
    ensures
        clip_from(output, clipper, k, r, used) == clip_from(
            output,
            clipper.remove(i),
            k - 1,
            r,
            used,
        ),
    decreases clipper.len() - k,
{
    let shorter = clipper.remove(i);
    if k < clipper.len() {
        let s = clipper[k];
        assert(shorter[k - 1] == s);
        if degenerate(r, s) {
            lemma_same_after(output, clipper, i, k + 1, r, used);
        } else {
            let next = spec_clip_edge(output, r, s);
            if next.len() >= 3 {
                lemma_same_after(next, clipper, i, k + 1, s, true);
            }
        }
    }
}

/// Before the repeated vertex the two runs see the same vertices; the run
/// on the longer polygon then passes over the repeated one.
proof fn lemma_same_before(
    output: Seq<Point>,
    clipper: Seq<Point>,
    i: int,
    k: int,
    r: Point,
    used: bool,
)
    requires
        1 <= i,
        repeats(clipper, i),
        0 <= k < i,
    ensures
        clip_from(output, clipper, k, r, used) == clip_from(
            output,
            clipper.remove(i),
            k,
            r,
            used,
        ),
    decreases i - k,
{
    let shorter = clipper.remove(i);
    let s = clipper[k];
    assert(shorter[k] == s);
    if k < i - 1 {
        if degenerate(r, s) {
            lemma_same_before(output, clipper, i, k + 1, r, used);
        } else {
            let next = spec_clip_edge(output, r, s);
            if next.len() >= 3 {
                lemma_same_before(next, clipper, i, k + 1, s, true);
            }
        }
    } else {
        // Vertex `i` comes next, and equals `s`.
        assert(clipper[i] == s);
        if degenerate(r, s) {
            assert(clip_from(output, clipper, i, r, used) == clip_from(
                output,
                clipper,
                i + 1,
                r,
                used,
            ));
            lemma_same_after(output, clipper, i, i + 1, r, used);
        } else {
            let next = spec_clip_edge(output, r, s);
            if next.len() >= 3 {
                assert(clip_from(next, clipper, i, s, true) == clip_from(
                    next,
                    clipper,
                    i + 1,
                    s,
                    true,
                ));
                lemma_same_after(next, clipper, i, i + 1, s, true);
            }
        }
    }
}

/// A degenerate clip edge is passed over, and the result is what it would be
/// without the vertex at which the edge ends: if vertex `i` of `clipper`
/// repeats the vertex before it, clipping by `clipper` leaves the polygon,
/// and so the area, that clipping by `clipper` without vertex `i` leaves.
/// The clip polygon needs a fourth vertex, to be a polygon without it.
pub proof fn lemma_repeated_clip_vertex(polygon: Seq<Point>, clipper: Seq<Point>, i: int)
    requires
        clipper.len() >= 4,
        repeats(clipper, i),
    ensures
        clipped(polygon, clipper) == clipped(polygon, clipper.remove(i)),
        spec_clip_polygons(polygon, clipper) == spec_clip_polygons(polygon, clipper.remove(i)),
{
    let shorter = clipper.remove(i);
    let r = clipper.last();
    assert(shorter.last() == r);
    if i == 0 {
        assert(clip_from(polygon, clipper, 0, r, false) == clip_from(
            polygon,
            clipper,
            1,
            r,
            false,
        ));
        lemma_same_after(polygon, clipper, 0, 1, r, false);
    } else {
        lemma_same_before(polygon, clipper, i, 0, r, false);
    }
}

} // verus!
