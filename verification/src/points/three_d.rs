//! Three-dimensional lattice points.

use crate::points::Neighbours;
use vstd::prelude::*;
use vstd::std_specs::ops::AddSpec;

verus! {

broadcast use vstd::seq_lib::lemma_seq_contains_after_push;

/// A point on a 3D lattice: `x`, `y`, then `z`, each axis independently
/// typed. A point is a small value copied by value everywhere; any in-range
/// coordinate is allowed, including the axis type's extremes.
#[derive(PartialEq, Eq, Hash, Clone, Copy, Default, Debug)]
pub struct Point3D<T, U = T, V = T>(pub T, pub U, pub V);

impl<T: Copy, U: Copy, V: Copy> Point3D<T, U, V> {
    pub fn new(x: T, y: U, z: V) -> (r: Self)
        ensures
            r.0 == x,
            r.1 == y,
            r.2 == z,
    {
        Point3D(x, y, z)
    }

    pub fn x(&self) -> (r: T)
        ensures
            r == self.0,
    {
        self.0
    }

    pub fn y(&self) -> (r: U)
        ensures
            r == self.1,
    {
        self.1
    }

    pub fn z(&self) -> (r: V)
        ensures
            r == self.2,
    {
        self.2
    }
}

impl<T, U, V> core::convert::From<(T, U, V)> for Point3D<T, U, V> {
    fn from(triple: (T, U, V)) -> (r: Self) {
        let (t, u, v) = triple;
        Point3D(t, u, v)
    }
}

impl<T, U, V> vstd::std_specs::convert::FromSpecImpl<(T, U, V)> for Point3D<T, U, V> {
    open spec fn obeys_from_spec() -> bool {
        true
    }

    open spec fn from_spec(v: (T, U, V)) -> Self {
        Point3D(v.0, v.1, v.2)
    }
}

/// A point built from a triple carries exactly the triple's coordinates, so
/// `Point3D::from((x, y, z))` returns the point `(x, y, z)` for every choice
/// of coordinates.
pub proof fn lemma_from_triple_round_trip<T, U, V>(x: T, y: U, z: V)
    ensures
        <Point3D<T, U, V> as vstd::std_specs::convert::FromSpec<(T, U, V)>>::from_spec((x, y, z))
            == Point3D(x, y, z),
{
}

impl core::ops::Add for Point3D<u32> {
    type Output = Self;

    /// Elementwise addition; each axis sum must fit its axis type.
    fn add(self, rhs: Self) -> Self {
        Point3D(self.0 + rhs.0, self.1 + rhs.1, self.2 + rhs.2)
    }
}

impl vstd::std_specs::ops::AddSpecImpl for Point3D<u32> {
    open spec fn obeys_add_spec() -> bool {
        true
    }

    open spec fn add_req(self, rhs: Self) -> bool {
        self.0 + rhs.0 <= u32::MAX && self.1 + rhs.1 <= u32::MAX && self.2 + rhs.2 <= u32::MAX
    }

    open spec fn add_spec(self, rhs: Self) -> Self {
        Point3D((self.0 + rhs.0) as u32, (self.1 + rhs.1) as u32, (self.2 + rhs.2) as u32)
    }
}

impl Neighbours for Point3D<u32> {
    open spec fn direct_included(self, lower_bound: Self, upper_bound: Self, q: Self) -> bool {
        let x_ok = lower_bound.0 <= q.0 < upper_bound.0;
        let y_ok = lower_bound.1 <= q.1 < upper_bound.1;
        let z_ok = lower_bound.2 <= q.2 < upper_bound.2;
        ||| (q.0 + 1 == self.0 && x_ok && q.1 == self.1 && q.2 == self.2)
        ||| (q.1 + 1 == self.1 && y_ok && q.0 == self.0 && q.2 == self.2)
        ||| (q.2 + 1 == self.2 && z_ok && q.0 == self.0 && q.1 == self.1)
        ||| (q.0 == self.0 + 1 && x_ok && q.1 == self.1 && q.2 == self.2)
        ||| (q.1 == self.1 + 1 && y_ok && q.0 == self.0 && q.2 == self.2)
        ||| (q.2 == self.2 + 1 && z_ok && q.0 == self.0 && q.1 == self.1)
    }

    open spec fn diagonal_included(self, lower_bound: Self, upper_bound: Self, q: Self) -> bool {
        let x_ok = lower_bound.0 <= q.0 < upper_bound.0;
        let y_ok = lower_bound.1 <= q.1 < upper_bound.1;
        let z_ok = lower_bound.2 <= q.2 < upper_bound.2;
        ||| self.direct_included(lower_bound, upper_bound, q)
        ||| (q.1 + 1 == self.1 && q.2 + 1 == self.2 && y_ok && z_ok && q.0 == self.0)
        ||| (q.1 + 1 == self.1 && q.2 == self.2 + 1 && y_ok && z_ok && q.0 == self.0)
        ||| (q.1 == self.1 + 1 && q.2 + 1 == self.2 && y_ok && z_ok && q.0 == self.0)
        ||| (q.1 == self.1 + 1 && q.2 == self.2 + 1 && y_ok && z_ok && q.0 == self.0)
        ||| (q.0 + 1 == self.0 && q.2 + 1 == self.2 && x_ok && z_ok && q.1 == self.1)
        ||| (q.0 + 1 == self.0 && q.2 == self.2 + 1 && x_ok && z_ok && q.1 == self.1)
        ||| (q.0 == self.0 + 1 && q.2 + 1 == self.2 && x_ok && z_ok && q.1 == self.1)
        ||| (q.0 == self.0 + 1 && q.2 == self.2 + 1 && x_ok && z_ok && q.1 == self.1)
        ||| (q.0 + 1 == self.0 && q.1 + 1 == self.1 && x_ok && y_ok && q.2 == self.2)
        ||| (q.0 + 1 == self.0 && q.1 == self.1 + 1 && x_ok && y_ok && q.2 == self.2)
        ||| (q.0 == self.0 + 1 && q.1 + 1 == self.1 && x_ok && y_ok && q.2 == self.2)
        ||| (q.0 == self.0 + 1 && q.1 == self.1 + 1 && x_ok && y_ok && q.2 == self.2)
        ||| (q.0 + 1 == self.0 && q.1 + 1 == self.1 && q.2 + 1 == self.2 && x_ok && y_ok && z_ok)
        ||| (q.0 + 1 == self.0 && q.1 + 1 == self.1 && q.2 == self.2 + 1 && x_ok && y_ok && z_ok)
        ||| (q.0 + 1 == self.0 && q.1 == self.1 + 1 && q.2 + 1 == self.2 && x_ok && y_ok && z_ok)
        ||| (q.0 + 1 == self.0 && q.1 == self.1 + 1 && q.2 == self.2 + 1 && x_ok && y_ok && z_ok)
        ||| (q.0 == self.0 + 1 && q.1 + 1 == self.1 && q.2 + 1 == self.2 && x_ok && y_ok && z_ok)
        ||| (q.0 == self.0 + 1 && q.1 + 1 == self.1 && q.2 == self.2 + 1 && x_ok && y_ok && z_ok)
        ||| (q.0 == self.0 + 1 && q.1 == self.1 + 1 && q.2 + 1 == self.2 && x_ok && y_ok && z_ok)
        ||| (q.0 == self.0 + 1 && q.1 == self.1 + 1 && q.2 == self.2 + 1 && x_ok && y_ok && z_ok)
    }

    open spec fn origin() -> Self {
        Point3D(0u32, 0u32, 0u32)
    }

    fn neighbours_direct_bounded(self, lower_bound: Self, upper_bound: Self) -> (r: Vec<Self>) {
        let Point3D(x, y, z) = self;
        let mut r: Vec<Self> = Vec::new();
        if x > lower_bound.0 && x - 1 < upper_bound.0 {
            r.push(Point3D(x - 1, y, z));
        }
        if y > lower_bound.1 && y - 1 < upper_bound.1 {
            r.push(Point3D(x, y - 1, z));
        }
        if z > lower_bound.2 && z - 1 < upper_bound.2 {
            r.push(Point3D(x, y, z - 1));
        }
        if upper_bound.0 > 0 && x < upper_bound.0 - 1 && x + 1 >= lower_bound.0 {
            r.push(Point3D(x + 1, y, z));
        }
        if upper_bound.1 > 0 && y < upper_bound.1 - 1 && y + 1 >= lower_bound.1 {
            r.push(Point3D(x, y + 1, z));
        }
        if upper_bound.2 > 0 && z < upper_bound.2 - 1 && z + 1 >= lower_bound.2 {
            r.push(Point3D(x, y, z + 1));
        }
        r
    }

    #[verifier::rlimit(100)]
    fn neighbours_diagonal_bounded(self, lower_bound: Self, upper_bound: Self) -> (r: Vec<Self>) {
        let Point3D(x, y, z) = self;
        let x_dec = x > lower_bound.0 && x - 1 < upper_bound.0;
        let y_dec = y > lower_bound.1 && y - 1 < upper_bound.1;
        let z_dec = z > lower_bound.2 && z - 1 < upper_bound.2;
        let x_inc = upper_bound.0 > 0 && x < upper_bound.0 - 1 && x + 1 >= lower_bound.0;
        let y_inc = upper_bound.1 > 0 && y < upper_bound.1 - 1 && y + 1 >= lower_bound.1;
        let z_inc = upper_bound.2 > 0 && z < upper_bound.2 - 1 && z + 1 >= lower_bound.2;
        let mut r = self.neighbours_direct_bounded(lower_bound, upper_bound);
        if y_dec && z_dec {
            proof {
                assert(!r@.contains(Point3D(x, (y - 1) as u32, (z - 1) as u32)));
            }
            r.push(Point3D(x, y - 1, z - 1));
            assert(r@.no_duplicates());
        }
        if y_dec && z_inc {
            proof {
                assert(!r@.contains(Point3D(x, (y - 1) as u32, (z + 1) as u32)));
            }
            r.push(Point3D(x, y - 1, z + 1));
            assert(r@.no_duplicates());
        }
        if y_inc && z_dec {
            proof {
                assert(!r@.contains(Point3D(x, (y + 1) as u32, (z - 1) as u32)));
            }
            r.push(Point3D(x, y + 1, z - 1));
            assert(r@.no_duplicates());
        }
        if y_inc && z_inc {
            proof {
                assert(!r@.contains(Point3D(x, (y + 1) as u32, (z + 1) as u32)));
            }
            r.push(Point3D(x, y + 1, z + 1));
            assert(r@.no_duplicates());
        }
        if x_dec && z_dec {
            proof {
                assert(!r@.contains(Point3D((x - 1) as u32, y, (z - 1) as u32)));
            }
            r.push(Point3D(x - 1, y, z - 1));
            assert(r@.no_duplicates());
        }
        if x_dec && z_inc {
            proof {
                assert(!r@.contains(Point3D((x - 1) as u32, y, (z + 1) as u32)));
            }
            r.push(Point3D(x - 1, y, z + 1));
            assert(r@.no_duplicates());
        }
        if x_inc && z_dec {
            proof {
                assert(!r@.contains(Point3D((x + 1) as u32, y, (z - 1) as u32)));
            }
            r.push(Point3D(x + 1, y, z - 1));
            assert(r@.no_duplicates());
        }
        if x_inc && z_inc {
            proof {
                assert(!r@.contains(Point3D((x + 1) as u32, y, (z + 1) as u32)));
            }
            r.push(Point3D(x + 1, y, z + 1));
            assert(r@.no_duplicates());
        }
        if x_dec && y_dec {
            proof {
                assert(!r@.contains(Point3D((x - 1) as u32, (y - 1) as u32, z)));
            }
            r.push(Point3D(x - 1, y - 1, z));
            assert(r@.no_duplicates());
        }
        if x_dec && y_inc {
            proof {
                assert(!r@.contains(Point3D((x - 1) as u32, (y + 1) as u32, z)));
            }
            r.push(Point3D(x - 1, y + 1, z));
            assert(r@.no_duplicates());
        }
        if x_inc && y_dec {
            proof {
                assert(!r@.contains(Point3D((x + 1) as u32, (y - 1) as u32, z)));
            }
            r.push(Point3D(x + 1, y - 1, z));
            assert(r@.no_duplicates());
        }
        if x_inc && y_inc {
            proof {
                assert(!r@.contains(Point3D((x + 1) as u32, (y + 1) as u32, z)));
            }
            r.push(Point3D(x + 1, y + 1, z));
            assert(r@.no_duplicates());
        }
        if x_dec && y_dec && z_dec {
            proof {
                assert(!r@.contains(Point3D((x - 1) as u32, (y - 1) as u32, (z - 1) as u32)));
            }
            r.push(Point3D(x - 1, y - 1, z - 1));
            assert(r@.no_duplicates());
        }
        if x_dec && y_dec && z_inc {
            proof {
                assert(!r@.contains(Point3D((x - 1) as u32, (y - 1) as u32, (z + 1) as u32)));
            }
            r.push(Point3D(x - 1, y - 1, z + 1));
            assert(r@.no_duplicates());
        }
        if x_dec && y_inc && z_dec {
            proof {
                assert(!r@.contains(Point3D((x - 1) as u32, (y + 1) as u32, (z - 1) as u32)));
            }
            r.push(Point3D(x - 1, y + 1, z - 1));
            assert(r@.no_duplicates());
        }
        if x_dec && y_inc && z_inc {
            proof {
                assert(!r@.contains(Point3D((x - 1) as u32, (y + 1) as u32, (z + 1) as u32)));
            }
            r.push(Point3D(x - 1, y + 1, z + 1));
            assert(r@.no_duplicates());
        }
        if x_inc && y_dec && z_dec {
            proof {
                assert(!r@.contains(Point3D((x + 1) as u32, (y - 1) as u32, (z - 1) as u32)));
            }
            r.push(Point3D(x + 1, y - 1, z - 1));
            assert(r@.no_duplicates());
        }
        if x_inc && y_dec && z_inc {
            proof {
                assert(!r@.contains(Point3D((x + 1) as u32, (y - 1) as u32, (z + 1) as u32)));
            }
            r.push(Point3D(x + 1, y - 1, z + 1));
            assert(r@.no_duplicates());
        }
        if x_inc && y_inc && z_dec {
            proof {
                assert(!r@.contains(Point3D((x + 1) as u32, (y + 1) as u32, (z - 1) as u32)));
            }
            r.push(Point3D(x + 1, y + 1, z - 1));
            assert(r@.no_duplicates());
        }
        if x_inc && y_inc && z_inc {
            proof {
                assert(!r@.contains(Point3D((x + 1) as u32, (y + 1) as u32, (z + 1) as u32)));
            }
            r.push(Point3D(x + 1, y + 1, z + 1));
            assert(r@.no_duplicates());
        }
        r
    }

    fn neighbours_direct_upper_bounded(self, upper_bound: Self) -> (r: Vec<Self>) {
        self.neighbours_direct_bounded(Point3D(0, 0, 0), upper_bound)
    }

    fn neighbours_diagonal_upper_bounded(self, upper_bound: Self) -> (r: Vec<Self>) {
        self.neighbours_diagonal_bounded(Point3D(0, 0, 0), upper_bound)
    }
}


/// Whether `p` lies within the range `[lo, hi)` on all three axes.
pub open spec fn in_range_3d(p: Point3D<u32>, lo: Point3D<u32>, hi: Point3D<u32>) -> bool {
    lo.0 <= p.0 < hi.0 && lo.1 <= p.1 < hi.1 && lo.2 <= p.2 < hi.2
}

/// For a centre point inside the range, the admitted orthogonal neighbours
/// are exactly the in-range points that differ from the centre by exactly 1
/// on exactly one axis.
pub proof fn lemma_direct_neighbours_exact_3d(
    p: Point3D<u32>,
    lo: Point3D<u32>,
    hi: Point3D<u32>,
    q: Point3D<u32>,
)
    requires
        in_range_3d(p, lo, hi),
    ensures
        p.direct_included(lo, hi, q) <==> (in_range_3d(q, lo, hi) && (((q.0 + 1 == p.0 || q.0
            == p.0 + 1) && q.1 == p.1 && q.2 == p.2) || (q.0 == p.0 && (q.1 + 1 == p.1 || q.1
            == p.1 + 1) && q.2 == p.2) || (q.0 == p.0 && q.1 == p.1 && (q.2 + 1 == p.2 || q.2
            == p.2 + 1)))),
{
}

/// Every admitted orthogonal neighbour is also an admitted diagonal
/// neighbour, for any centre point and any bounds.
pub proof fn lemma_diagonal_superset_of_direct_3d(
    p: Point3D<u32>,
    lo: Point3D<u32>,
    hi: Point3D<u32>,
    q: Point3D<u32>,
)
    ensures
        p.direct_included(lo, hi, q) ==> p.diagonal_included(lo, hi, q),
{
}

/// For a centre point inside the range, a diagonal neighbour that is not an
/// orthogonal one lies in the range, moves by exactly 1 on each axis it
/// moves on, and moves on at least two of the three axes at once.
pub proof fn lemma_diagonal_extra_is_corner_3d(
    p: Point3D<u32>,
    lo: Point3D<u32>,
    hi: Point3D<u32>,
    q: Point3D<u32>,
)
    requires
        in_range_3d(p, lo, hi),
        p.diagonal_included(lo, hi, q),
        !p.direct_included(lo, hi, q),
    ensures
        in_range_3d(q, lo, hi),
        q.0 == p.0 || q.0 + 1 == p.0 || q.0 == p.0 + 1,
        q.1 == p.1 || q.1 + 1 == p.1 || q.1 == p.1 + 1,
        q.2 == p.2 || q.2 + 1 == p.2 || q.2 == p.2 + 1,
        (q.0 != p.0 && q.1 != p.1) || (q.0 != p.0 && q.2 != p.2) || (q.1 != p.1 && q.2 != p.2),
{
}

/// A degenerate range (`lo == hi` on an axis) admits no neighbour that moves
/// on that axis, for every centre point including axis-minimum ones; the
/// enumeration itself never faults, whatever the point and bounds.
pub proof fn lemma_degenerate_axis_yields_nothing_3d(
    p: Point3D<u32>,
    lo: Point3D<u32>,
    hi: Point3D<u32>,
    q: Point3D<u32>,
)
    ensures
        lo.0 == hi.0 && p.diagonal_included(lo, hi, q) ==> q.0 == p.0,
        lo.1 == hi.1 && p.diagonal_included(lo, hi, q) ==> q.1 == p.1,
        lo.2 == hi.2 && p.diagonal_included(lo, hi, q) ==> q.2 == p.2,
{
}


/// Point addition is commutative: both operand orders give the same point.
pub proof fn lemma_add_commutative_3d(a: Point3D<u32>, b: Point3D<u32>)
    ensures
        a.add_spec(b) == b.add_spec(a),
{
}

/// Point addition is associative whenever every axis total fits the axis
/// type (so no sum overflows in either association order).
pub proof fn lemma_add_associative_3d(a: Point3D<u32>, b: Point3D<u32>, c: Point3D<u32>)
    requires
        a.0 + b.0 + c.0 <= u32::MAX,
        a.1 + b.1 + c.1 <= u32::MAX,
        a.2 + b.2 + c.2 <= u32::MAX,
    ensures
        a.add_spec(b).add_spec(c) == a.add_spec(b.add_spec(c)),
{
}

} // verus!
