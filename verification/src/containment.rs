//! Polygons that lie wholly on one side of a clip edge.
//!
//! These hold of the rounded arithmetic as it is: they rest on the outcome
//! of the half-plane tests alone, whatever the numbers are.

use crate::algorithm::{
    clip_from, clipped, degenerate, spec_clip_edge, spec_clip_polygons, spec_inside,
    spec_polygon_area, walk, ClipError,
};
use crate::common::Point;
use crate::degeneracy::before;
use crate::scalar::Scalar;
use vstd::prelude::*;

verus! {

/// The clip edge from `r` to `s` keeps every vertex of `subject`.
pub open spec fn keeps_all(subject: Seq<Point>, r: Point, s: Point) -> bool {
    forall|j: int| 0 <= j < subject.len() ==> spec_inside(#[trigger] subject[j], r, r.spec_to(s))
}

/// The clip edge from `r` to `s` keeps no vertex of `subject`.
pub open spec fn keeps_none(subject: Seq<Point>, r: Point, s: Point) -> bool {
    forall|j: int| 0 <= j < subject.len() ==> !spec_inside(#[trigger] subject[j], r, r.spec_to(s))
}

/// No vertex of the closed polygon repeats the vertex before it, as the walk
/// tests it: no edge vector is the zero vector.
pub open spec fn no_repeats(subject: Seq<Point>) -> bool {
    forall|j: int|
        0 <= j < subject.len() ==> !degenerate(subject[before(subject, j)], #[trigger] subject[j])
}

/// Every edge of `clipper` has a length and keeps every vertex of `polygon`.
pub open spec fn contains(clipper: Seq<Point>, polygon: Seq<Point>) -> bool {
    forall|k: int|
        0 <= k < clipper.len() ==> {
            &&& !degenerate(clipper[before(clipper, k)], #[trigger] clipper[k])
            &&& keeps_all(polygon, clipper[before(clipper, k)], clipper[k])
        }
}

proof fn lemma_walk_outside(subject: Seq<Point>, r: Point, s: Point, j: int, a: Point)
    requires
        0 <= j <= subject.len(),
        keeps_none(subject, r, s),
    ensures
        walk(subject, r, r.spec_to(s), j, a, false) == Seq::<Point>::empty(),
    decreases subject.len() - j,
{
    if j < subject.len() {
        let b = subject[j];
        if degenerate(a, b) {
            lemma_walk_outside(subject, r, s, j + 1, a);
        } else {
            lemma_walk_outside(subject, r, s, j + 1, b);
        }
    }
}

proof fn lemma_walk_inside(subject: Seq<Point>, r: Point, s: Point, j: int)
    requires
        0 <= j <= subject.len(),
        0 < subject.len(),
        keeps_all(subject, r, s),
        no_repeats(subject),
    ensures
        walk(subject, r, r.spec_to(s), j, subject[before(subject, j)], true) == subject.subrange(
            j,
            subject.len() as int,
        ),
    decreases subject.len() - j,
{
    if j < subject.len() {
        let b = subject[j];
        lemma_walk_inside(subject, r, s, j + 1);
        assert(before(subject, j + 1) == j);
        assert(seq![b] + subject.subrange(j + 1, subject.len() as int) == subject.subrange(
            j,
            subject.len() as int,
        ));
    }
}

/// A clip edge that keeps no vertex of a polygon leaves nothing of it.
pub proof fn lemma_edge_keeps_none(subject: Seq<Point>, r: Point, s: Point)
    requires
        keeps_none(subject, r, s),
    ensures
        spec_clip_edge(subject, r, s) == Seq::<Point>::empty(),
{
    if subject.len() > 0 {
        lemma_walk_outside(subject, r, s, 0, subject.last());
    }
}

/// A clip edge that keeps every vertex of a polygon without repeated
/// vertices leaves the polygon as it is.
pub proof fn lemma_edge_keeps_all(subject: Seq<Point>, r: Point, s: Point)
    requires
        keeps_all(subject, r, s),
        no_repeats(subject),
    ensures
        spec_clip_edge(subject, r, s) == subject,
{
    if subject.len() > 0 {
        lemma_walk_inside(subject, r, s, 0);
        assert(subject.subrange(0, subject.len() as int) == subject);
    }
}

proof fn lemma_passed_over(
    output: Seq<Point>,
    clipper: Seq<Point>,
    i: int,
    k: int,
    r: Point,
    used: bool,
)
    requires
        0 <= i <= k <= clipper.len(),
        forall|m: int| i <= m < k ==> degenerate(r, #[trigger] clipper[m]),
    ensures
        clip_from(output, clipper, i, r, used) == clip_from(output, clipper, k, r, used),
    decreases k - i,
{
    if i < k {
        lemma_passed_over(output, clipper, i + 1, k, r, used);
    }
}

/// Two polygons that a clip edge separates have no area in common: if the
/// first edge of `clipper` that is not degenerate, the one that ends at
/// vertex `k`, keeps no vertex of `polygon`, the area is positive zero.
pub proof fn lemma_separated_by_first_edge(polygon: Seq<Point>, clipper: Seq<Point>, k: int)
    requires
        polygon.len() >= 3,
        clipper.len() >= 3,
        0 <= k < clipper.len(),
        forall|m: int| 0 <= m < k ==> degenerate(clipper.last(), #[trigger] clipper[m]),
        !degenerate(clipper.last(), clipper[k]),
        keeps_none(polygon, clipper.last(), clipper[k]),
    ensures
        spec_clip_polygons(polygon, clipper) == Ok::<Scalar, ClipError>(Scalar::zero()),
{
    lemma_passed_over(polygon, clipper, 0, k, clipper.last(), false);
    lemma_edge_keeps_none(polygon, clipper.last(), clipper[k]);
}

proof fn lemma_contained_from(polygon: Seq<Point>, clipper: Seq<Point>, k: int, used: bool)
    requires
        polygon.len() >= 3,
        no_repeats(polygon),
        contains(clipper, polygon),
        0 <= k <= clipper.len(),
        k < clipper.len() || used,
    ensures
        clip_from(polygon, clipper, k, clipper[before(clipper, k)], used) == Some(polygon),
    decreases clipper.len() - k,
{
    if k < clipper.len() {
        let r = clipper[before(clipper, k)];
        let s = clipper[k];
        lemma_edge_keeps_all(polygon, r, s);
        lemma_contained_from(polygon, clipper, k + 1, true);
        assert(before(clipper, k + 1) == k);
    }
}

/// A polygon that every edge of the clip polygon keeps whole has all its
/// area in the intersection: if no edge of `clipper` is degenerate and each
/// keeps every vertex of `polygon`, and no vertex of `polygon` repeats the one
/// before it, then clipping leaves `polygon` itself, and the area is the
/// area of `polygon`.
pub proof fn lemma_contained(polygon: Seq<Point>, clipper: Seq<Point>)
    requires
        polygon.len() >= 3,
        clipper.len() >= 3,
        no_repeats(polygon),
        contains(clipper, polygon),
    ensures
        clipped(polygon, clipper) == Some(polygon),
        spec_clip_polygons(polygon, clipper) == spec_polygon_area(polygon),
{
    lemma_contained_from(polygon, clipper, 0, false);
}

} // verus!
