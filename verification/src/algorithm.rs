//! Sutherland–Hodgman clipping of one polygon by the edges of another, and
//! the area of what is left.
//!
//! A polygon is a sequence of at least three vertices, closed by the edge
//! from the last vertex to the first. A clip edge keeps what lies strictly to
//! its left, so both polygons are expected to wind counter-clockwise. Nothing
//! checks this: polygons wound the other way give a wrong or an empty result,
//! not an error. Coordinates are meant to be finite; others are computed
//! with as they are, and a NaN counts as not kept.

use crate::common::{Point, Vector};
use crate::scalar::{product, quotient, sum, Scalar};
use vstd::prelude::*;

verus! {

/// Why no area was computed.
#[derive(Clone, Copy, Debug, PartialEq, Eq, Structural)]
pub enum ClipError {
    /// A polygon had fewer than three vertices.
    InvalidPolygon,
}

/// Whether the step from `r` to `s` has no length: the computed vector
/// `s - r` is the zero vector. The clipper passes over such an edge of the
/// clip polygon, and the walk over such an edge of the polygon it cuts.
pub open spec fn degenerate(r: Point, s: Point) -> bool {
    r.spec_to(s).spec_is_zero()
}

/// Half-plane test: `p` lies strictly to the left of the line through `r`
/// with direction `u`, that is `u.x * (p.y - r.y) > u.y * (p.x - r.x)`.
pub open spec fn spec_inside(p: Point, r: Point, u: Vector) -> bool {
    u.x.times(p.y.minus(r.y)).exceeds(u.y.times(p.x.minus(r.x)))
}

/// Whether `p` is on the kept side of the clip edge that starts at `r` and
/// runs along `u`.
pub fn inside(p: Point, r: Point, u: Vector) -> (kept: bool)
    ensures
        kept == spec_inside(p, r, u),
{
    let w = r.to(p);
    product(u.x, w.y).gt(product(u.y, w.x))
}

/// Where the line through `a` along `v` meets the line through `r` with
/// normal `n`: `a + (n·(r - a) / n·v) * v`, and nothing when `n·v` is zero,
/// which is when the two lines are parallel.
pub open spec fn spec_intersection(a: Point, v: Vector, r: Point, n: Vector) -> Option<Point> {
    let nw = n.spec_dot(a.spec_to(r));
    let nv = n.spec_dot(v);
    if nv.zero_valued() {
        None
    } else {
        Some(a.spec_along(v, nw.over(nv)))
    }
}

/// Intersection of two lines, one given by a point and a direction, the
/// other by a point and a normal.
pub fn intersection(a: Point, v: Vector, r: Point, n: Vector) -> (hit: Option<Point>)
    ensures
        hit == spec_intersection(a, v, r, n),
        hit is None <==> n.spec_dot(v).zero_valued(),
{
    let w = a.to(r);
    let nw = n.dot(w);
    let nv = n.dot(v);
    if !nv.is_zero() {
        let t = quotient(nw, nv);
        Some(a.along(v, t))
    } else {
        None
    }
}

/// The vector from the first vertex to vertex `k`.
pub open spec fn spoke(polygon: Seq<Point>, k: int) -> Vector {
    polygon[0].spec_to(polygon[k])
}

/// Sum, taken from vertex 2 up to vertex `k` in this order, of the absolute
/// cross products of consecutive spokes: twice the areas of the triangles of
/// the fan around the first vertex.
pub open spec fn fan_sum(polygon: Seq<Point>, k: int) -> Scalar
    decreases k,
{
    if k < 2 {
        Scalar::zero()
    } else {
        fan_sum(polygon, k - 1).plus(
            spoke(polygon, k - 1).spec_cross(spoke(polygon, k)).absolute(),
        )
    }
}

/// Half the fan sum over all vertices.
pub open spec fn fan_area(polygon: Seq<Point>) -> Scalar {
    Scalar::half().times(fan_sum(polygon, polygon.len() - 1))
}

/// Area of a polygon, or `InvalidPolygon` for fewer than three vertices.
pub open spec fn spec_polygon_area(polygon: Seq<Point>) -> Result<Scalar, ClipError> {
    if polygon.len() < 3 {
        Err(ClipError::InvalidPolygon)
    } else {
        Ok(fan_area(polygon))
    }
}

/// Area of a polygon by its triangle fan, or `InvalidPolygon` for fewer than
/// three vertices. The triangles are added by absolute value, which gives the
/// enclosed area for convex polygons, whichever way they wind.
pub fn polygon_area(polygon: &[Point]) -> (area: Result<Scalar, ClipError>)
    ensures
        area == spec_polygon_area(polygon@),
        area is Err <==> polygon@.len() < 3,
        area matches Ok(a) ==> !a.sign_bit(),
{
    let n = polygon.len();
    if n < 3 {
        return Err(ClipError::InvalidPolygon);
    }
    let a = polygon[0];
    let mut u = a.to(polygon[1]);
    let mut total = Scalar::zero();
    let mut i: usize = 2;
    while i < n
        invariant
            2 <= i <= n,
            n == polygon.len(),
            a == polygon@[0],
            u == spoke(polygon@, i - 1),
            total == fan_sum(polygon@, i - 1),
            !total.sign_bit(),
        decreases n - i,
    {
        let v = a.to(polygon[i]);
        total = sum(total, u.cross(v).abs());
        u = v;
        i += 1;
    }
    Ok(product(Scalar::half(), total))
}

/// Replaces the contents of `dst` by the first `n` vertices of `src`.
pub fn copy_to(src: &[Point], dst: &mut Vec<Point>, n: usize)
    requires
        n <= src.len(),
    ensures
        final(dst)@ == src@.subrange(0, n as int),
{
    dst.clear();
    let mut i: usize = 0;
    while i < n
        invariant
            i <= n <= src.len(),
            dst@ == src@.subrange(0, i as int),
        decreases n - i,
    {
        dst.push(src[i]);
        i += 1;
    }
}

/// What the walk along a clip edge puts out when it goes from a vertex to
/// the next vertex `b`. `a_inside` and `b_inside` say which of the two the
/// edge keeps, and `hit` is where the segment between them meets the line of
/// the clip edge, if the two are not parallel.
///
/// Entering, the walk puts out the crossing, if there is one, and then `b`.
/// Leaving, it puts out the crossing; without one it puts out `b` itself.
/// Between two kept vertices it puts out `b`, between two dropped ones
/// nothing.
pub open spec fn emitted(
    a_inside: bool,
    b_inside: bool,
    hit: Option<Point>,
    b: Point,
) -> Seq<Point> {
    if b_inside {
        match hit {
            Some(p) if !a_inside => seq![p, b],
            _ => seq![b],
        }
    } else if a_inside {
        match hit {
            Some(p) => seq![p],
            None => seq![b],
        }
    } else {
        Seq::empty()
    }
}

/// Whether the walk counts `b` as kept when it goes on from there: `b` is
/// kept by the edge, or the walk left the kept side along a segment parallel
/// to the clip edge and put `b` out in place of a crossing.
pub open spec fn carried(a_inside: bool, b_inside: bool, hit: Option<Point>) -> bool {
    b_inside || (a_inside && hit is None)
}

/// One step of the walk: appends to `out` what the step from a vertex to `b`
/// puts out, and returns the flag that the walk carries on from `b`.
pub fn emit(
    out: &mut Vec<Point>,
    a_inside: bool,
    b_inside: bool,
    hit: Option<Point>,
    b: Point,
) -> (next_inside: bool)
    ensures
        final(out)@ == old(out)@ + emitted(a_inside, b_inside, hit, b),
        next_inside == carried(a_inside, b_inside, hit),
{
    if b_inside {
        if !a_inside {
            if let Some(p) = hit {
                out.push(p);
            }
        }
        out.push(b);
        true
    } else if a_inside {
        if let Some(p) = hit {
            out.push(p);
            false
        } else {
            out.push(b);
            true
        }
    } else {
        false
    }
}

/// Where the segment from `a` to `b` crosses the line of the clip edge
/// through `r` along `u`. The walk asks only when one end is kept and the
/// other is not.
pub open spec fn crossing(
    a: Point,
    a_inside: bool,
    b: Point,
    b_inside: bool,
    r: Point,
    u: Vector,
) -> Option<Point> {
    if a_inside != b_inside {
        spec_intersection(a, a.spec_to(b), r, u.spec_normal())
    } else {
        None
    }
}

/// What the walk along the clip edge through `r` along `u` puts out from
/// vertex `j` of `subject` on, when it arrives there from `a`, counted as
/// kept or not by `a_inside`. A vertex that does not differ from the one
/// before it is passed over.
pub open spec fn walk(
    subject: Seq<Point>,
    r: Point,
    u: Vector,
    j: int,
    a: Point,
    a_inside: bool,
) -> Seq<Point>
    decreases subject.len() - j,
{
    if j < 0 || j >= subject.len() {
        Seq::empty()
    } else {
        let b = subject[j];
        if degenerate(a, b) {
            walk(subject, r, u, j + 1, a, a_inside)
        } else {
            let b_inside = spec_inside(b, r, u);
            let hit = crossing(a, a_inside, b, b_inside, r, u);
            emitted(a_inside, b_inside, hit, b) + walk(
                subject,
                r,
                u,
                j + 1,
                b,
                carried(a_inside, b_inside, hit),
            )
        }
    }
}

/// The polygon `subject` cut by the clip edge from `r` to `s`: the walk
/// starts at the last vertex, so that the closing edge comes first.
pub open spec fn spec_clip_edge(subject: Seq<Point>, r: Point, s: Point) -> Seq<Point> {
    if subject.len() == 0 {
        Seq::empty()
    } else {
        let u = r.spec_to(s);
        walk(subject, r, u, 0, subject.last(), spec_inside(subject.last(), r, u))
    }
}

/// Cuts `subject` by the clip edge from `r` to `s` and leaves the result in
/// `out`, whose former contents are dropped. No vertex gives more than two
/// vertices of the result.
pub fn clip_edge(subject: &[Point], r: Point, s: Point, out: &mut Vec<Point>)
    ensures
        final(out)@ == spec_clip_edge(subject@, r, s),
        final(out)@.len() <= 2 * subject@.len(),
{
    out.clear();
    let length = subject.len();
    if length == 0 {
        return;
    }
    let u = r.to(s);
    let n = u.normal();
    let mut a = subject[length - 1];
    let mut a_inside = inside(a, r, u);
    let mut j: usize = 0;
    while j < length
        invariant
            j <= length,
            length == subject.len(),
            n == u.spec_normal(),
            out@.len() <= 2 * j,
            out@ + walk(subject@, r, u, j as int, a, a_inside) == spec_clip_edge(subject@, r, s),
        decreases length - j,
    {
        let b = subject[j];
        let v = a.to(b);
        if !v.is_zero() {
            let b_inside = inside(b, r, u);
            let hit = if a_inside != b_inside {
                intersection(a, v, r, n)
            } else {
                None
            };
            let ghost before = out@;
            let ghost rest = walk(subject@, r, u, j + 1, b, carried(a_inside, b_inside, hit));
            let next_inside = emit(out, a_inside, b_inside, hit, b);
            assert(out@ + rest == before + (emitted(a_inside, b_inside, hit, b) + rest));
            a = b;
            a_inside = next_inside;
        }
        j += 1;
    }
}

/// What is left of `output` after the clip edges that end at the vertices
/// `k..` of `clipper`, taken in order, or `None` when nothing is left.
///
/// `r` is where the next edge starts, and `used` says whether an edge has cut
/// already. A degenerate edge is passed over, and the next edge starts where
/// it would have started. Any other edge cuts `output`; with fewer than
/// three vertices left the result is `None` at once. The result is `None` too
/// when no edge has cut at all.
pub open spec fn clip_from(
    output: Seq<Point>,
    clipper: Seq<Point>,
    k: int,
    r: Point,
    used: bool,
) -> Option<Seq<Point>>
    decreases clipper.len() - k,
{
    if k < 0 || k >= clipper.len() {
        if used {
            Some(output)
        } else {
            None
        }
    } else {
        let s = clipper[k];
        if degenerate(r, s) {
            clip_from(output, clipper, k + 1, r, used)
        } else {
            let next = spec_clip_edge(output, r, s);
            if next.len() < 3 {
                None
            } else {
                clip_from(next, clipper, k + 1, s, true)
            }
        }
    }
}

/// The polygon `polygon` cut by every edge of `clipper` in turn, the closing
/// edge from the last vertex to the first one first; `None` when fewer than
/// three vertices are left after some edge, or when `clipper` has no edge
/// that is not degenerate.
pub open spec fn clipped(polygon: Seq<Point>, clipper: Seq<Point>) -> Option<Seq<Point>> {
    clip_from(polygon, clipper, 0, clipper.last(), false)
}

/// Area of the part of `polygon` that the edges of `clipper` keep:
/// `InvalidPolygon` if either has fewer than three vertices, else the fan
/// area of the clipped polygon, and positive zero when nothing is left.
pub open spec fn spec_clip_polygons(
    polygon: Seq<Point>,
    clipper: Seq<Point>,
) -> Result<Scalar, ClipError> {
    if polygon.len() < 3 || clipper.len() < 3 {
        Err(ClipError::InvalidPolygon)
    } else {
        match clipped(polygon, clipper) {
            Some(rest) => Ok(fan_area(rest)),
            None => Ok(Scalar::zero()),
        }
    }
}

/// Area of the intersection of `polygon` with `clipper`, for two convex
/// polygons that wind counter-clockwise.
///
/// Fails with `InvalidPolygon` when either has fewer than three vertices, and
/// on no other input. The area is positive zero when an edge of `clipper`
/// leaves fewer than three vertices, and when `clipper` has no edge with a
/// length. It never has a sign bit: it is a zero, a positive number, positive
/// infinity or a NaN.
pub fn clip_polygons(
    polygon: &[Point],
    clipper: &[Point],
) -> (area: Result<Scalar, ClipError>)
    ensures
        area == spec_clip_polygons(polygon@, clipper@),
        area is Err <==> polygon@.len() < 3 || clipper@.len() < 3,
        area matches Ok(a) ==> !a.sign_bit(),
{
    if polygon.len() < 3 || clipper.len() < 3 {
        return Err(ClipError::InvalidPolygon);
    }
    let mut output: Vec<Point> = Vec::new();
    let mut subject: Vec<Point> = Vec::new();
    copy_to(polygon, &mut output, polygon.len());
    assert(output@ == polygon@);

    let n_clip = clipper.len();
    let mut r = clipper[n_clip - 1];
    let mut used = false;
    let mut i: usize = 0;
    while i < n_clip
        invariant
            i <= n_clip,
            n_clip == clipper.len(),
            polygon@.len() >= 3,
            clipper@.len() >= 3,
            used ==> output@.len() >= 3,
            clip_from(output@, clipper@, i as int, r, used) == clipped(polygon@, clipper@),
        decreases n_clip - i,
    {
        let s = clipper[i];
        if !r.to(s).is_zero() {
            core::mem::swap(&mut subject, &mut output);
            clip_edge(subject.as_slice(), r, s, &mut output);
            if output.len() < 3 {
                return Ok(Scalar::zero());
            }
            r = s;
            used = true;
        }
        i += 1;
    }
    if !used {
        return Ok(Scalar::zero());
    }
    polygon_area(output.as_slice())
}

} // verus!
