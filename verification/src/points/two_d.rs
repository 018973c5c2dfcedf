//! Two-dimensional lattice points.

use crate::points::{ManhattanDistance, Neighbours};
use vstd::math::abs;
use vstd::prelude::*;
use vstd::std_specs::ops::AddSpec;

verus! {

broadcast use vstd::seq_lib::lemma_seq_contains_after_push;

/// A point on a 2D lattice: `x` then `y`, each axis independently typed.
/// A point is a small value copied by value everywhere; any in-range
/// coordinate is allowed, including the axis type's extremes.
#[derive(PartialEq, Eq, Hash, Clone, Copy, Default, Debug)]
pub struct Point2D<T, U = T>(pub T, pub U);

impl<T, U> Point2D<T, U> {
    pub fn new(x: T, y: U) -> (r: Self)
        ensures
            r.0 == x,
            r.1 == y,
    {
        Point2D(x, y)
    }
}

impl<T: Copy, U: Copy> Point2D<T, U> {
    pub fn x(&self) -> (r: T)
        ensures
            r == self.0,
    {
        self.0
    }

    pub fn y(&self) -> (r: U)
        ensures
            r == self.1,
    {
        self.1
    }
}

impl<T, U> core::convert::From<(T, U)> for Point2D<T, U> {
    fn from(pair: (T, U)) -> (r: Self) {
        let (t, u) = pair;
        Point2D(t, u)
    }
}

impl<T, U> vstd::std_specs::convert::FromSpecImpl<(T, U)> for Point2D<T, U> {
    open spec fn obeys_from_spec() -> bool {
        true
    }

    open spec fn from_spec(v: (T, U)) -> Self {
        Point2D(v.0, v.1)
    }
}

/// A point built from a tuple carries exactly the tuple's coordinates, so
/// `Point2D::from((x, y)).x() == x` and `.y() == y` for every `x` and `y`.
pub proof fn lemma_from_tuple_round_trip<T, U>(x: T, y: U)
    ensures
        <Point2D<T, U> as vstd::std_specs::convert::FromSpec<(T, U)>>::from_spec((x, y)) == Point2D(x, y),
{
}

impl core::ops::Add for Point2D<u32> {
    type Output = Self;

    /// Elementwise addition; each axis sum must fit its axis type.
    fn add(self, rhs: Self) -> Self {
        Point2D(self.0 + rhs.0, self.1 + rhs.1)
    }
}

impl vstd::std_specs::ops::AddSpecImpl for Point2D<u32> {
    open spec fn obeys_add_spec() -> bool {
        true
    }

    open spec fn add_req(self, rhs: Self) -> bool {
        self.0 + rhs.0 <= u32::MAX && self.1 + rhs.1 <= u32::MAX
    }

    open spec fn add_spec(self, rhs: Self) -> Self {
        Point2D((self.0 + rhs.0) as u32, (self.1 + rhs.1) as u32)
    }
}

impl core::ops::Add for Point2D<usize> {
    type Output = Self;

    /// Elementwise addition; each axis sum must fit its axis type.
    fn add(self, rhs: Self) -> Self {
        Point2D(self.0 + rhs.0, self.1 + rhs.1)
    }
}

impl vstd::std_specs::ops::AddSpecImpl for Point2D<usize> {
    open spec fn obeys_add_spec() -> bool {
        true
    }

    open spec fn add_req(self, rhs: Self) -> bool {
        self.0 + rhs.0 <= usize::MAX && self.1 + rhs.1 <= usize::MAX
    }

    open spec fn add_spec(self, rhs: Self) -> Self {
        Point2D((self.0 + rhs.0) as usize, (self.1 + rhs.1) as usize)
    }
}

/// Point addition is commutative: both operand orders give the same point.
pub proof fn lemma_add_commutative(a: Point2D<u32>, b: Point2D<u32>)
    ensures
        a.add_spec(b) == b.add_spec(a),
{
}

/// Point addition is associative whenever every axis total fits the axis
/// type (so no sum overflows in either association order).
pub proof fn lemma_add_associative(a: Point2D<u32>, b: Point2D<u32>, c: Point2D<u32>)
    requires
        a.0 + b.0 + c.0 <= u32::MAX,
        a.1 + b.1 + c.1 <= u32::MAX,
    ensures
        a.add_spec(b).add_spec(c) == a.add_spec(b.add_spec(c)),
{
}

impl ManhattanDistance for Point2D<u32> {
    type Output = u32;

    open spec fn distance_spec(self, other: Self) -> int {
        (abs(self.0 - other.0) + abs(self.1 - other.1)) as int
    }

    open spec fn output_value(r: u32) -> int {
        r as int
    }

    open spec fn distance_fits(self, other: Self) -> bool {
        abs(self.0 - other.0) + abs(self.1 - other.1) <= u32::MAX as int
    }

    fn manhattan_distance(self, other: Self) -> (r: u32) {
        let dx = if self.0 >= other.0 {
            self.0 - other.0
        } else {
            other.0 - self.0
        };
        let dy = if self.1 >= other.1 {
            self.1 - other.1
        } else {
            other.1 - self.1
        };
        dx + dy
    }
}

impl ManhattanDistance for Point2D<usize> {
    type Output = usize;

    open spec fn distance_spec(self, other: Self) -> int {
        (abs(self.0 - other.0) + abs(self.1 - other.1)) as int
    }

    open spec fn output_value(r: usize) -> int {
        r as int
    }

    open spec fn distance_fits(self, other: Self) -> bool {
        abs(self.0 - other.0) + abs(self.1 - other.1) <= usize::MAX as int
    }

    fn manhattan_distance(self, other: Self) -> (r: usize) {
        let dx = if self.0 >= other.0 {
            self.0 - other.0
        } else {
            other.0 - self.0
        };
        let dy = if self.1 >= other.1 {
            self.1 - other.1
        } else {
            other.1 - self.1
        };
        dx + dy
    }
}

impl Neighbours for Point2D<u32> {
    open spec fn direct_included(self, lower_bound: Self, upper_bound: Self, q: Self) -> bool {
        let x_ok = lower_bound.0 <= q.0 < upper_bound.0;
        let y_ok = lower_bound.1 <= q.1 < upper_bound.1;
        ||| (q.0 + 1 == self.0 && x_ok && q.1 == self.1)
        ||| (q.1 + 1 == self.1 && y_ok && q.0 == self.0)
        ||| (q.0 == self.0 + 1 && x_ok && q.1 == self.1)
        ||| (q.1 == self.1 + 1 && y_ok && q.0 == self.0)
    }

    open spec fn diagonal_included(self, lower_bound: Self, upper_bound: Self, q: Self) -> bool {
        let x_ok = lower_bound.0 <= q.0 < upper_bound.0;
        let y_ok = lower_bound.1 <= q.1 < upper_bound.1;
        ||| self.direct_included(lower_bound, upper_bound, q)
        ||| (q.0 + 1 == self.0 && q.1 + 1 == self.1 && x_ok && y_ok)
        ||| (q.0 + 1 == self.0 && q.1 == self.1 + 1 && x_ok && y_ok)
        ||| (q.0 == self.0 + 1 && q.1 + 1 == self.1 && x_ok && y_ok)
        ||| (q.0 == self.0 + 1 && q.1 == self.1 + 1 && x_ok && y_ok)
    }

    open spec fn origin() -> Self {
        Point2D(0u32, 0u32)
    }

    fn neighbours_direct_bounded(self, lower_bound: Self, upper_bound: Self) -> (r: Vec<Self>) {
        let Point2D(x, y) = self;
        let mut r: Vec<Self> = Vec::new();
        if x > lower_bound.0 && x - 1 < upper_bound.0 {
            r.push(Point2D(x - 1, y));
        }
        if y > lower_bound.1 && y - 1 < upper_bound.1 {
            r.push(Point2D(x, y - 1));
        }
        if upper_bound.0 > 0 && x < upper_bound.0 - 1 && x + 1 >= lower_bound.0 {
            r.push(Point2D(x + 1, y));
        }
        if upper_bound.1 > 0 && y < upper_bound.1 - 1 && y + 1 >= lower_bound.1 {
            r.push(Point2D(x, y + 1));
        }
        r
    }

    fn neighbours_diagonal_bounded(self, lower_bound: Self, upper_bound: Self) -> (r: Vec<Self>) {
        let Point2D(x, y) = self;
        let x_dec = x > lower_bound.0 && x - 1 < upper_bound.0;
        let y_dec = y > lower_bound.1 && y - 1 < upper_bound.1;
        let x_inc = upper_bound.0 > 0 && x < upper_bound.0 - 1 && x + 1 >= lower_bound.0;
        let y_inc = upper_bound.1 > 0 && y < upper_bound.1 - 1 && y + 1 >= lower_bound.1;
        let mut r = self.neighbours_direct_bounded(lower_bound, upper_bound);
        if x_dec && y_dec {
            proof {
                assert(!r@.contains(Point2D((x - 1) as u32, (y - 1) as u32)));
            }
            r.push(Point2D(x - 1, y - 1));
            assert(r@.no_duplicates());
        }
        if x_dec && y_inc {
            proof {
                assert(!r@.contains(Point2D((x - 1) as u32, (y + 1) as u32)));
            }
            r.push(Point2D(x - 1, y + 1));
            assert(r@.no_duplicates());
        }
        if x_inc && y_dec {
            proof {
                assert(!r@.contains(Point2D((x + 1) as u32, (y - 1) as u32)));
            }
            r.push(Point2D(x + 1, y - 1));
            assert(r@.no_duplicates());
        }
        if x_inc && y_inc {
            proof {
                assert(!r@.contains(Point2D((x + 1) as u32, (y + 1) as u32)));
            }
            r.push(Point2D(x + 1, y + 1));
            assert(r@.no_duplicates());
        }
        r
    }

    fn neighbours_direct_upper_bounded(self, upper_bound: Self) -> (r: Vec<Self>) {
        self.neighbours_direct_bounded(Point2D(0, 0), upper_bound)
    }

    fn neighbours_diagonal_upper_bounded(self, upper_bound: Self) -> (r: Vec<Self>) {
        self.neighbours_diagonal_bounded(Point2D(0, 0), upper_bound)
    }
}

impl Neighbours for Point2D<usize> {
    open spec fn direct_included(self, lower_bound: Self, upper_bound: Self, q: Self) -> bool {
        let x_ok = lower_bound.0 <= q.0 < upper_bound.0;
        let y_ok = lower_bound.1 <= q.1 < upper_bound.1;
        ||| (q.0 + 1 == self.0 && x_ok && q.1 == self.1)
        ||| (q.1 + 1 == self.1 && y_ok && q.0 == self.0)
        ||| (q.0 == self.0 + 1 && x_ok && q.1 == self.1)
        ||| (q.1 == self.1 + 1 && y_ok && q.0 == self.0)
    }

    open spec fn diagonal_included(self, lower_bound: Self, upper_bound: Self, q: Self) -> bool {
        let x_ok = lower_bound.0 <= q.0 < upper_bound.0;
        let y_ok = lower_bound.1 <= q.1 < upper_bound.1;
        ||| self.direct_included(lower_bound, upper_bound, q)
        ||| (q.0 + 1 == self.0 && q.1 + 1 == self.1 && x_ok && y_ok)
        ||| (q.0 + 1 == self.0 && q.1 == self.1 + 1 && x_ok && y_ok)
        ||| (q.0 == self.0 + 1 && q.1 + 1 == self.1 && x_ok && y_ok)
        ||| (q.0 == self.0 + 1 && q.1 == self.1 + 1 && x_ok && y_ok)
    }

    open spec fn origin() -> Self {
        Point2D(0usize, 0usize)
    }

    fn neighbours_direct_bounded(self, lower_bound: Self, upper_bound: Self) -> (r: Vec<Self>) {
        let Point2D(x, y) = self;
        let mut r: Vec<Self> = Vec::new();
        if x > lower_bound.0 && x - 1 < upper_bound.0 {
            r.push(Point2D(x - 1, y));
        }
        if y > lower_bound.1 && y - 1 < upper_bound.1 {
            r.push(Point2D(x, y - 1));
        }
        if upper_bound.0 > 0 && x < upper_bound.0 - 1 && x + 1 >= lower_bound.0 {
            r.push(Point2D(x + 1, y));
        }
        if upper_bound.1 > 0 && y < upper_bound.1 - 1 && y + 1 >= lower_bound.1 {
            r.push(Point2D(x, y + 1));
        }
        r
    }

    fn neighbours_diagonal_bounded(self, lower_bound: Self, upper_bound: Self) -> (r: Vec<Self>) {
        let Point2D(x, y) = self;
        let x_dec = x > lower_bound.0 && x - 1 < upper_bound.0;
        let y_dec = y > lower_bound.1 && y - 1 < upper_bound.1;
        let x_inc = upper_bound.0 > 0 && x < upper_bound.0 - 1 && x + 1 >= lower_bound.0;
        let y_inc = upper_bound.1 > 0 && y < upper_bound.1 - 1 && y + 1 >= lower_bound.1;
        let mut r = self.neighbours_direct_bounded(lower_bound, upper_bound);
        if x_dec && y_dec {
            proof {
                assert(!r@.contains(Point2D((x - 1) as usize, (y - 1) as usize)));
            }
            r.push(Point2D(x - 1, y - 1));
            assert(r@.no_duplicates());
        }
        if x_dec && y_inc {
            proof {
                assert(!r@.contains(Point2D((x - 1) as usize, (y + 1) as usize)));
            }
            r.push(Point2D(x - 1, y + 1));
            assert(r@.no_duplicates());
        }
        if x_inc && y_dec {
            proof {
                assert(!r@.contains(Point2D((x + 1) as usize, (y - 1) as usize)));
            }
            r.push(Point2D(x + 1, y - 1));
            assert(r@.no_duplicates());
        }
        if x_inc && y_inc {
            proof {
                assert(!r@.contains(Point2D((x + 1) as usize, (y + 1) as usize)));
            }
            r.push(Point2D(x + 1, y + 1));
            assert(r@.no_duplicates());
        }
        r
    }

    fn neighbours_direct_upper_bounded(self, upper_bound: Self) -> (r: Vec<Self>) {
        self.neighbours_direct_bounded(Point2D(0, 0), upper_bound)
    }

    fn neighbours_diagonal_upper_bounded(self, upper_bound: Self) -> (r: Vec<Self>) {
        self.neighbours_diagonal_bounded(Point2D(0, 0), upper_bound)
    }
}


/// Whether `p` lies within the range `[lo, hi)` on both axes.
pub open spec fn in_range_2d(p: Point2D<u32>, lo: Point2D<u32>, hi: Point2D<u32>) -> bool {
    lo.0 <= p.0 < hi.0 && lo.1 <= p.1 < hi.1
}

/// For a centre point inside the range, the admitted orthogonal neighbours
/// are exactly the in-range points that differ from the centre by exactly 1
/// on exactly one axis.
pub proof fn lemma_direct_neighbours_exact(
    p: Point2D<u32>,
    lo: Point2D<u32>,
    hi: Point2D<u32>,
    q: Point2D<u32>,
)
    requires
        in_range_2d(p, lo, hi),
    ensures
        p.direct_included(lo, hi, q) <==> (in_range_2d(q, lo, hi) && (((q.0 + 1 == p.0 || q.0
            == p.0 + 1) && q.1 == p.1) || (q.0 == p.0 && (q.1 + 1 == p.1 || q.1 == p.1 + 1)))),
{
}

/// Every admitted orthogonal neighbour is also an admitted diagonal
/// neighbour, for any centre point and any bounds.
pub proof fn lemma_diagonal_superset_of_direct(
    p: Point2D<u32>,
    lo: Point2D<u32>,
    hi: Point2D<u32>,
    q: Point2D<u32>,
)
    ensures
        p.direct_included(lo, hi, q) ==> p.diagonal_included(lo, hi, q),
{
}

/// For a centre point inside the range, a diagonal neighbour that is not an
/// orthogonal one lies in the range and differs from the centre by exactly 1
/// on both axes at once.
pub proof fn lemma_diagonal_extra_is_corner(
    p: Point2D<u32>,
    lo: Point2D<u32>,
    hi: Point2D<u32>,
    q: Point2D<u32>,
)
    requires
        in_range_2d(p, lo, hi),
        p.diagonal_included(lo, hi, q),
        !p.direct_included(lo, hi, q),
    ensures
        in_range_2d(q, lo, hi),
        (q.0 + 1 == p.0 || q.0 == p.0 + 1) && (q.1 + 1 == p.1 || q.1 == p.1 + 1),
{
}

/// A degenerate range (`lo == hi` on an axis) admits no neighbour that moves
/// on that axis, for every centre point including axis-minimum ones; the
/// enumeration itself never faults, whatever the point and bounds.
pub proof fn lemma_degenerate_axis_yields_nothing(
    p: Point2D<u32>,
    lo: Point2D<u32>,
    hi: Point2D<u32>,
    q: Point2D<u32>,
)
    ensures
        lo.0 == hi.0 && p.diagonal_included(lo, hi, q) ==> q.0 == p.0,
        lo.1 == hi.1 && p.diagonal_included(lo, hi, q) ==> q.1 == p.1,
{
}


/// Point addition is commutative: both operand orders give the same point.
pub proof fn lemma_add_commutative_usize(a: Point2D<usize>, b: Point2D<usize>)
    ensures
        a.add_spec(b) == b.add_spec(a),
{
}

/// Point addition is associative whenever every axis total fits the axis
/// type (so no sum overflows in either association order).
pub proof fn lemma_add_associative_usize(a: Point2D<usize>, b: Point2D<usize>, c: Point2D<usize>)
    requires
        a.0 + b.0 + c.0 <= usize::MAX,
        a.1 + b.1 + c.1 <= usize::MAX,
    ensures
        a.add_spec(b).add_spec(c) == a.add_spec(b.add_spec(c)),
{
}

/// Whether `p` lies within the range `[lo, hi)` on both axes.
pub open spec fn in_range_2d_usize(
    p: Point2D<usize>,
    lo: Point2D<usize>,
    hi: Point2D<usize>,
) -> bool {
    lo.0 <= p.0 < hi.0 && lo.1 <= p.1 < hi.1
}

/// For a centre point inside the range, the admitted orthogonal neighbours
/// are exactly the in-range points that differ from the centre by exactly 1
/// on exactly one axis.
pub proof fn lemma_direct_neighbours_exact_usize(
    p: Point2D<usize>,
    lo: Point2D<usize>,
    hi: Point2D<usize>,
    q: Point2D<usize>,
)
    requires
        in_range_2d_usize(p, lo, hi),
    ensures
        p.direct_included(lo, hi, q) <==> (in_range_2d_usize(q, lo, hi) && (((q.0 + 1 == p.0 || q.0
            == p.0 + 1) && q.1 == p.1) || (q.0 == p.0 && (q.1 + 1 == p.1 || q.1 == p.1 + 1)))),
{
}

/// Every admitted orthogonal neighbour is also an admitted diagonal
/// neighbour, for any centre point and any bounds.
pub proof fn lemma_diagonal_superset_of_direct_usize(
    p: Point2D<usize>,
    lo: Point2D<usize>,
    hi: Point2D<usize>,
    q: Point2D<usize>,
)
    ensures
        p.direct_included(lo, hi, q) ==> p.diagonal_included(lo, hi, q),
{
}

/// For a centre point inside the range, a diagonal neighbour that is not an
/// orthogonal one lies in the range and differs from the centre by exactly 1
/// on both axes at once.
pub proof fn lemma_diagonal_extra_is_corner_usize(
    p: Point2D<usize>,
    lo: Point2D<usize>,
    hi: Point2D<usize>,
    q: Point2D<usize>,
)
    requires
        in_range_2d_usize(p, lo, hi),
        p.diagonal_included(lo, hi, q),
        !p.direct_included(lo, hi, q),
    ensures
        in_range_2d_usize(q, lo, hi),
        (q.0 + 1 == p.0 || q.0 == p.0 + 1) && (q.1 + 1 == p.1 || q.1 == p.1 + 1),
{
}

/// A degenerate range (`lo == hi` on an axis) admits no neighbour that moves
/// on that axis, for every centre point including axis-minimum ones; the
/// enumeration itself never faults, whatever the point and bounds.
pub proof fn lemma_degenerate_axis_yields_nothing_usize(
    p: Point2D<usize>,
    lo: Point2D<usize>,
    hi: Point2D<usize>,
    q: Point2D<usize>,
)
    ensures
        lo.0 == hi.0 && p.diagonal_included(lo, hi, q) ==> q.0 == p.0,
        lo.1 == hi.1 && p.diagonal_included(lo, hi, q) ==> q.1 == p.1,
{
}

} // verus!
