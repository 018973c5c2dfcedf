//! Lattice points in two and three dimensions, and the capabilities they
//! support: elementwise addition, Manhattan distance, and bounded neighbour
//! enumeration.

pub mod three_d;
pub mod two_d;

pub use three_d::Point3D;
pub use two_d::Point2D;

use vstd::prelude::*;

verus! {

/// Sum of absolute per-axis coordinate differences, computed without
/// underflow on unsigned axis types.
pub trait ManhattanDistance: Sized {
    type Output;

    /// The distance as a mathematical integer.
    spec fn distance_spec(self, other: Self) -> int;

    /// The value an `Output` stands for, as a mathematical integer.
    spec fn output_value(r: Self::Output) -> int;

    /// Whether the distance fits in `Output` (the per-axis differences each
    /// fit, but their sum may not).
    spec fn distance_fits(self, other: Self) -> bool;

    fn manhattan_distance(self, other: Self) -> (r: Self::Output)
        requires
            self.distance_fits(other),
        ensures
            Self::output_value(r) == self.distance_spec(other),
    ;
}

/// Enumeration of the neighbours of a lattice point that lie within an
/// inclusive-lower / exclusive-upper coordinate range.
///
/// A candidate neighbour is included exactly when every axis it moves on
/// passes its bound test: the moved axis value must be at or above the lower
/// bound and strictly below the exclusive upper bound on that axis. An axis
/// whose range is empty (`lower == upper` there) therefore admits no move,
/// whatever the centre point, and no bound test ever under- or overflows.
/// Axes a candidate does not move on are left unchanged and untested. The
/// order of the returned points is not part of the contract; membership and
/// freedom from duplicates are.
pub trait Neighbours: Sized {
    /// Exactly when `q` is an orthogonal neighbour of `self` admitted by the
    /// range `[lower_bound, upper_bound)`.
    spec fn direct_included(self, lower_bound: Self, upper_bound: Self, q: Self) -> bool;

    /// Exactly when `q` is an orthogonal or corner-adjacent neighbour of
    /// `self` (Chebyshev distance 1) admitted by the range.
    spec fn diagonal_included(self, lower_bound: Self, upper_bound: Self, q: Self) -> bool;

    /// The all-zero point, the implicit lower bound of the
    /// `*_upper_bounded` variants.
    spec fn origin() -> Self;

    /// The orthogonally adjacent points (one axis moved by exactly 1) that
    /// the range admits: up to 4 in two dimensions, up to 6 in three.
    fn neighbours_direct_bounded(self, lower_bound: Self, upper_bound: Self) -> (r: Vec<Self>)
        ensures
            forall|q: Self| #[trigger] r@.contains(q) <==> self.direct_included(
                lower_bound,
                upper_bound,
                q,
            ),
            r@.no_duplicates(),
    ;

    /// All points at Chebyshev distance exactly 1 (one or more axes moved by
    /// exactly 1) that the range admits: up to 8 in two dimensions, up to 26
    /// in three.
    fn neighbours_diagonal_bounded(self, lower_bound: Self, upper_bound: Self) -> (r: Vec<Self>)
        ensures
            forall|q: Self| #[trigger] r@.contains(q) <==> self.diagonal_included(
                lower_bound,
                upper_bound,
                q,
            ),
            r@.no_duplicates(),
    ;

    /// Orthogonal neighbours with the lower bound fixed at the origin.
    fn neighbours_direct_upper_bounded(self, upper_bound: Self) -> (r: Vec<Self>)
        ensures
            forall|q: Self| #[trigger] r@.contains(q) <==> self.direct_included(
                Self::origin(),
                upper_bound,
                q,
            ),
            r@.no_duplicates(),
    ;

    /// Orthogonal and corner-adjacent neighbours with the lower bound fixed
    /// at the origin.
    fn neighbours_diagonal_upper_bounded(self, upper_bound: Self) -> (r: Vec<Self>)
        ensures
            forall|q: Self| #[trigger] r@.contains(q) <==> self.diagonal_included(
                Self::origin(),
                upper_bound,
                q,
            ),
            r@.no_duplicates(),
    ;
}

} // verus!
