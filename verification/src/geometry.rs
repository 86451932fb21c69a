//! Planar geometry primitives: fixed-point coordinates, line segments, and an
//! exact segment-intersection test built on the orientation/straddle method.
//!
//! Latitude and longitude are carried as scaled integers (for example
//! hundred-nanodegree units), so every orientation sign is computed exactly;
//! short segments are treated as planar.

use vstd::prelude::*;

verus! {

/// A planar position in fixed-point coordinate units.
#[derive(Clone, Copy, Debug, PartialEq, Eq, Structural)]
pub struct Coord {
    pub x: i32,
    pub y: i32,
}

/// A line segment between two coordinates.
#[derive(Clone, Copy, Debug, PartialEq, Eq, Structural)]
pub struct Line {
    pub start: Coord,
    pub end: Coord,
}

/// Twice the signed area of the triangle (o, a, b): positive when the turn
/// o -> a -> b is counter-clockwise, negative when it is clockwise, and zero
/// when the three points are collinear.
pub open spec fn spec_orientation(o: Coord, a: Coord, b: Coord) -> int {
    (a.x - o.x) * (b.y - o.y) - (a.y - o.y) * (b.x - o.x)
}

/// Whether `p` lies within the axis-aligned bounding box of the segment from
/// `a` to `b`. Together with collinearity this places `p` on the segment.
pub open spec fn spec_in_box(a: Coord, b: Coord, p: Coord) -> bool {
    &&& vstd::math::min(a.x as int, b.x as int) <= p.x as int <= vstd::math::max(
        a.x as int,
        b.x as int,
    )
    &&& vstd::math::min(a.y as int, b.y as int) <= p.y as int <= vstd::math::max(
        a.y as int,
        b.y as int,
    )
}

/// The orientation/straddle intersection test: two segments share at least
/// one point exactly when each segment's endpoints lie strictly on opposite
/// sides of the other segment, or when some endpoint is collinear with the
/// other segment and falls within its bounding box. A sample landing exactly
/// on a boundary counts as an intersection.
pub open spec fn spec_segments_intersect(s: Line, t: Line) -> bool {
    let d1 = spec_orientation(t.start, t.end, s.start);
    let d2 = spec_orientation(t.start, t.end, s.end);
    let d3 = spec_orientation(s.start, s.end, t.start);
    let d4 = spec_orientation(s.start, s.end, t.end);
    ||| {
        &&& ((d1 > 0 && d2 < 0) || (d1 < 0 && d2 > 0))
        &&& ((d3 > 0 && d4 < 0) || (d3 < 0 && d4 > 0))
    }
    ||| (d1 == 0 && spec_in_box(t.start, t.end, s.start))
    ||| (d2 == 0 && spec_in_box(t.start, t.end, s.end))
    ||| (d3 == 0 && spec_in_box(s.start, s.end, t.start))
    ||| (d4 == 0 && spec_in_box(s.start, s.end, t.end))
}

/// Intersection is symmetric: whether two segments share a point does not
/// depend on the order in which they are given.
pub proof fn lemma_intersect_symmetric(s: Line, t: Line)
    ensures
        spec_segments_intersect(s, t) == spec_segments_intersect(t, s),
{
}

/// A segment that starts or ends on an endpoint of the other segment
/// intersects it: a sample landing exactly on the boundary counts as a
/// crossing.
pub proof fn lemma_shared_endpoint_intersects(s: Line, t: Line)
    requires
        s.start == t.start || s.start == t.end || s.end == t.start || s.end == t.end,
    ensures
        spec_segments_intersect(s, t),
{
    assert forall|a: Coord, b: Coord| spec_orientation(a, b, a) == 0 && spec_orientation(
        a,
        b,
        b,
    ) == 0 by {
        assert((b.x - a.x) * (a.y - a.y) == 0 && (b.y - a.y) * (a.x - a.x) == 0)
            by (nonlinear_arith);
        assert((b.x - a.x) * (b.y - a.y) - (b.y - a.y) * (b.x - a.x) == 0) by (nonlinear_arith);
    }
}

/// Computes the orientation of (o, a, b) exactly. The differences of two
/// `i32` values fit in 33 bits and their products in 66 bits, so the `i128`
/// arithmetic below cannot overflow.
fn orientation(o: Coord, a: Coord, b: Coord) -> (r: i128)
    ensures
        r == spec_orientation(o, a, b),
{
    let ax: i128 = a.x as i128 - o.x as i128;
    let ay: i128 = a.y as i128 - o.y as i128;
    let bx: i128 = b.x as i128 - o.x as i128;
    let by: i128 = b.y as i128 - o.y as i128;
    proof {
        assert(-0x1_0000_0000_0000_0000i128 <= ax * by <= 0x1_0000_0000_0000_0000i128)
            by (nonlinear_arith)
            requires
                -0x1_0000_0000i128 <= ax <= 0x1_0000_0000i128,
                -0x1_0000_0000i128 <= by <= 0x1_0000_0000i128,
        ;
        assert(-0x1_0000_0000_0000_0000i128 <= ay * bx <= 0x1_0000_0000_0000_0000i128)
            by (nonlinear_arith)
            requires
                -0x1_0000_0000i128 <= ay <= 0x1_0000_0000i128,
                -0x1_0000_0000i128 <= bx <= 0x1_0000_0000i128,
        ;
    }
    ax * by - ay * bx
}

/// Runtime check of `spec_in_box`.
fn in_box(a: Coord, b: Coord, p: Coord) -> (r: bool)
    ensures
        r == spec_in_box(a, b, p),
{
    let lo_x: i32 = if a.x <= b.x {
        a.x
    } else {
        b.x
    };
    let hi_x: i32 = if a.x <= b.x {
        b.x
    } else {
        a.x
    };
    let lo_y: i32 = if a.y <= b.y {
        a.y
    } else {
        b.y
    };
    let hi_y: i32 = if a.y <= b.y {
        b.y
    } else {
        a.y
    };
    lo_x <= p.x && p.x <= hi_x && lo_y <= p.y && p.y <= hi_y
}

/// Returns whether the two segments share at least one point, per the
/// orientation/straddle test of `spec_segments_intersect`. Pure and O(1).
pub fn segments_intersect(s: &Line, t: &Line) -> (r: bool)
    ensures
        r == spec_segments_intersect(*s, *t),
{
    let d1 = orientation(t.start, t.end, s.start);
    let d2 = orientation(t.start, t.end, s.end);
    let d3 = orientation(s.start, s.end, t.start);
    let d4 = orientation(s.start, s.end, t.end);
    if ((d1 > 0 && d2 < 0) || (d1 < 0 && d2 > 0)) && ((d3 > 0 && d4 < 0) || (d3 < 0 && d4 > 0)) {
        true
    } else if d1 == 0 && in_box(t.start, t.end, s.start) {
        true
    } else if d2 == 0 && in_box(t.start, t.end, s.end) {
        true
    } else if d3 == 0 && in_box(s.start, s.end, t.start) {
        true
    } else {
        d4 == 0 && in_box(s.start, s.end, t.end)
    }
}

} // verus!
