//! Axis-aligned bounding rectangles over sets of 2D lattice points.

use crate::map::Map2D;
use crate::points::Point2D;
use vstd::math::min;
use vstd::prelude::*;

verus! {

/// An axis-aligned rectangle given by four scalar bounds: `left`/`right` on
/// the horizontal axis and `top`/`down` on the vertical axis. Whenever it is
/// derived from at least one point, `left <= right` and `top <= down`; the
/// zero-point case collapses to the axis type's full span, a degenerate
/// marker rather than a usable rectangle.
#[derive(PartialEq, Eq, Structural, Clone, Copy, Debug)]
pub struct Border2D<T, U = T> {
    pub left: T,
    pub right: T,
    pub top: U,
    pub down: U,
}

impl Border2D<u32> {
    /// The minimal enclosing rectangle of a point set, with two special
    /// cases: no points collapses to the degenerate full-span marker, and a
    /// single point anchors the rectangle at the origin.
    pub fn from_points<const N: usize>(points: [Point2D<u32>; N]) -> (r: Self)
        ensures
            points@.len() == 0 ==> r == (Border2D {
                left: 0u32,
                right: u32::MAX,
                top: 0u32,
                down: u32::MAX,
            }),
            points@.len() == 1 ==> r == (Border2D {
                left: 0u32,
                right: points@[0].0,
                top: 0u32,
                down: points@[0].1,
            }),
            points@.len() >= 2 ==> encloses_exactly(r, points@),
    {
        if N == 0 {
            Border2D { left: 0, right: u32::MAX, top: 0, down: u32::MAX }
        } else if N == 1 {
            Self::from_one_point(points[0])
        } else if N == 2 {
            Self::from_two_points(points[0], points[1])
        } else {
            Self::from_many_points(points)
        }
    }

    /// The origin-anchored rectangle `[0, x] x [0, y]` of a single point: an
    /// origin-relative extent, not a point-to-point box.
    pub fn from_one_point(point: Point2D<u32>) -> (r: Self)
        ensures
            r == (Border2D { left: 0u32, right: point.0, top: 0u32, down: point.1 }),
    {
        let Point2D(x, y) = point;
        Border2D { left: 0, right: x, top: 0, down: y }
    }

    /// The true componentwise min/max rectangle of two points.
    pub fn from_two_points(p1: Point2D<u32>, p2: Point2D<u32>) -> (r: Self)
        ensures
            r.left == min(p1.0 as int, p2.0 as int),
            r.right == if p1.0 < p2.0 {
                p2.0
            } else {
                p1.0
            },
            r.top == min(p1.1 as int, p2.1 as int),
            r.down == if p1.1 < p2.1 {
                p2.1
            } else {
                p1.1
            },
    {
        let Point2D(x1, y1) = p1;
        let Point2D(x2, y2) = p2;
        let (x_min, x_max) = if x1 < x2 {
            (x1, x2)
        } else {
            (x2, x1)
        };
        let (y_min, y_max) = if y1 < y2 {
            (y1, y2)
        } else {
            (y2, y1)
        };
        Border2D { left: x_min, right: x_max, top: y_min, down: y_max }
    }

    /// The true componentwise min/max rectangle across the whole point set.
    pub fn from_many_points<const N: usize>(points: [Point2D<u32>; N]) -> (r: Self)
        requires
            N > 0,
        ensures
            encloses_exactly(r, points@),
    {
        min_enclosing_rectangle(points.as_slice())
    }
}

impl Border2D<usize> {
    /// The minimal enclosing rectangle of a point set, with two special
    /// cases: no points collapses to the degenerate full-span marker, and a
    /// single point anchors the rectangle at the origin.
    pub fn from_points<const N: usize>(points: [Point2D<usize>; N]) -> (r: Self)
        ensures
            points@.len() == 0 ==> r == (Border2D {
                left: 0usize,
                right: usize::MAX,
                top: 0usize,
                down: usize::MAX,
            }),
            points@.len() == 1 ==> r == (Border2D {
                left: 0usize,
                right: points@[0].0,
                top: 0usize,
                down: points@[0].1,
            }),
            points@.len() >= 2 ==> encloses_exactly_usize(r, points@),
    {
        if N == 0 {
            Border2D { left: 0, right: usize::MAX, top: 0, down: usize::MAX }
        } else if N == 1 {
            Self::from_one_point(points[0])
        } else if N == 2 {
            Self::from_two_points(points[0], points[1])
        } else {
            Self::from_many_points(points)
        }
    }

    /// The origin-anchored rectangle `[0, x] x [0, y]` of a single point: an
    /// origin-relative extent, not a point-to-point box.
    pub fn from_one_point(point: Point2D<usize>) -> (r: Self)
        ensures
            r == (Border2D { left: 0usize, right: point.0, top: 0usize, down: point.1 }),
    {
        let Point2D(x, y) = point;
        Border2D { left: 0, right: x, top: 0, down: y }
    }

    /// The true componentwise min/max rectangle of two points.
    pub fn from_two_points(p1: Point2D<usize>, p2: Point2D<usize>) -> (r: Self)
        ensures
            r.left == min(p1.0 as int, p2.0 as int),
            r.right == if p1.0 < p2.0 {
                p2.0
            } else {
                p1.0
            },
            r.top == min(p1.1 as int, p2.1 as int),
            r.down == if p1.1 < p2.1 {
                p2.1
            } else {
                p1.1
            },
    {
        let Point2D(x1, y1) = p1;
        let Point2D(x2, y2) = p2;
        let (x_min, x_max) = if x1 < x2 {
            (x1, x2)
        } else {
            (x2, x1)
        };
        let (y_min, y_max) = if y1 < y2 {
            (y1, y2)
        } else {
            (y2, y1)
        };
        Border2D { left: x_min, right: x_max, top: y_min, down: y_max }
    }

    /// The true componentwise min/max rectangle across the whole point set.
    pub fn from_many_points<const N: usize>(points: [Point2D<usize>; N]) -> (r: Self)
        requires
            N > 0,
        ensures
            encloses_exactly_usize(r, points@),
    {
        min_enclosing_rectangle_usize(points.as_slice())
    }

    /// The rectangle `[0, width - 1] x [0, height - 1]` covering a whole
    /// non-empty grid.
    pub fn from_grid<T>(map: &Map2D<T>) -> (r: Self)
        requires
            map.wf(),
            map@[0]@.len() > 0,
        ensures
            r == (Border2D {
                left: 0usize,
                right: (map@[0]@.len() - 1) as usize,
                top: 0usize,
                down: (map@.len() - 1) as usize,
            }),
    {
        let lower_right = Point2D(map.width() - 1, map.height() - 1);
        Self::from_one_point(lower_right)
    }
}

/// The minimal enclosing axis-aligned rectangle of a non-empty point set:
/// one pass, tracking the running min and max on each axis.
pub fn min_enclosing_rectangle_usize(positions: &[Point2D<usize>]) -> (r: Border2D<usize>)
    requires
        positions@.len() > 0,
    ensures
        encloses_exactly_usize(r, positions@),
{
    let first = positions[0];
    let mut left = first.0;
    let mut right = first.0;
    let mut top = first.1;
    let mut down = first.1;
    let mut i: usize = 1;
    while i < positions.len()
        invariant
            1 <= i <= positions@.len(),
            forall|j: int|
                0 <= j < i ==> left <= #[trigger] positions@[j].0 && positions@[j].0 <= right
                    && top <= positions@[j].1 && positions@[j].1 <= down,
            exists|j: int| 0 <= j < i && left == #[trigger] positions@[j].0,
            exists|j: int| 0 <= j < i && right == #[trigger] positions@[j].0,
            exists|j: int| 0 <= j < i && top == #[trigger] positions@[j].1,
            exists|j: int| 0 <= j < i && down == #[trigger] positions@[j].1,
        decreases positions@.len() - i,
    {
        let p = positions[i];
        if p.0 < left {
            left = p.0;
        }
        if p.0 > right {
            right = p.0;
        }
        if p.1 < top {
            top = p.1;
        }
        if p.1 > down {
            down = p.1;
        }
        proof {
            assert forall|j: int|
                0 <= j < i + 1 implies left <= #[trigger] positions@[j].0 && positions@[j].0
                <= right && top <= positions@[j].1 && positions@[j].1 <= down by {
                if j == i {
                    assert(positions@[j] == p);
                }
            }
        }
        i += 1;
    }
    Border2D { left, right, top, down }
}

/// Whether `b` encloses every point of `ps` and touches it on all four
/// sides, which makes it the minimal enclosing axis-aligned rectangle.
pub open spec fn encloses_exactly_usize(b: Border2D<usize>, ps: Seq<Point2D<usize>>) -> bool {
    &&& forall|i: int|
        0 <= i < ps.len() ==> b.left <= #[trigger] ps[i].0 && ps[i].0 <= b.right && b.top
            <= ps[i].1 && ps[i].1 <= b.down
    &&& exists|i: int| 0 <= i < ps.len() && b.left == #[trigger] ps[i].0
    &&& exists|i: int| 0 <= i < ps.len() && b.right == #[trigger] ps[i].0
    &&& exists|i: int| 0 <= i < ps.len() && b.top == #[trigger] ps[i].1
    &&& exists|i: int| 0 <= i < ps.len() && b.down == #[trigger] ps[i].1
}

/// Whether `b` encloses every point of `ps` and touches it on all four
/// sides, which makes it the minimal enclosing axis-aligned rectangle.
pub open spec fn encloses_exactly(b: Border2D<u32>, ps: Seq<Point2D<u32>>) -> bool {
    &&& forall|i: int|
        0 <= i < ps.len() ==> b.left <= #[trigger] ps[i].0 && ps[i].0 <= b.right && b.top
            <= ps[i].1 && ps[i].1 <= b.down
    &&& exists|i: int| 0 <= i < ps.len() && b.left == #[trigger] ps[i].0
    &&& exists|i: int| 0 <= i < ps.len() && b.right == #[trigger] ps[i].0
    &&& exists|i: int| 0 <= i < ps.len() && b.top == #[trigger] ps[i].1
    &&& exists|i: int| 0 <= i < ps.len() && b.down == #[trigger] ps[i].1
}

/// The minimal enclosing axis-aligned rectangle of a non-empty point set:
/// one pass, tracking the running min and max on each axis.
pub fn min_enclosing_rectangle(positions: &[Point2D<u32>]) -> (r: Border2D<u32>)
    requires
        positions@.len() > 0,
    ensures
        encloses_exactly(r, positions@),
{
    let first = positions[0];
    let mut left = first.0;
    let mut right = first.0;
    let mut top = first.1;
    let mut down = first.1;
    let mut i: usize = 1;
    while i < positions.len()
        invariant
            1 <= i <= positions@.len(),
            forall|j: int|
                0 <= j < i ==> left <= #[trigger] positions@[j].0 && positions@[j].0 <= right
                    && top <= positions@[j].1 && positions@[j].1 <= down,
            exists|j: int| 0 <= j < i && left == #[trigger] positions@[j].0,
            exists|j: int| 0 <= j < i && right == #[trigger] positions@[j].0,
            exists|j: int| 0 <= j < i && top == #[trigger] positions@[j].1,
            exists|j: int| 0 <= j < i && down == #[trigger] positions@[j].1,
        decreases positions@.len() - i,
    {
        let p = positions[i];
        if p.0 < left {
            left = p.0;
        }
        if p.0 > right {
            right = p.0;
        }
        if p.1 < top {
            top = p.1;
        }
        if p.1 > down {
            down = p.1;
        }
        proof {
            assert forall|j: int|
                0 <= j < i + 1 implies left <= #[trigger] positions@[j].0 && positions@[j].0
                <= right && top <= positions@[j].1 && positions@[j].1 <= down by {
                if j == i {
                    assert(positions@[j] == p);
                }
            }
        }
        i += 1;
    }
    Border2D { left, right, top, down }
}

} // verus!
