use libaoc::points::{ManhattanDistance, Neighbours, Point2D, Point3D};

fn has2(v: &Vec<Point2D<u32>>, p: Point2D<u32>) -> bool {
    v.iter().any(|q| *q == p)
}

fn has2u(v: &Vec<Point2D<usize>>, p: Point2D<usize>) -> bool {
    v.iter().any(|q| *q == p)
}

fn has3(v: &Vec<Point3D<u32>>, p: Point3D<u32>) -> bool {
    v.iter().any(|q| *q == p)
}

#[test]
fn point2d_new_and_accessors() {
    let p = Point2D::new(3u32, 4u32);
    assert_eq!(p.x(), 3);
    assert_eq!(p.y(), 4);
    assert_eq!(p, Point2D(3, 4));
}

#[test]
fn point2d_tuple_round_trip() {
    let p: Point2D<u32> = Point2D::from((7u32, 9u32));
    assert_eq!(p.x(), 7);
    assert_eq!(p.y(), 9);
}

#[test]
fn point3d_new_and_accessors() {
    let p = Point3D::new(1u32, 2u32, 3u32);
    assert_eq!(p.x(), 1);
    assert_eq!(p.y(), 2);
    assert_eq!(p.z(), 3);
    let q: Point3D<u32> = Point3D::from((4u32, 5u32, 6u32));
    assert_eq!(q, Point3D(4, 5, 6));
}

#[test]
fn point_addition_elementwise() {
    let a = Point2D(1u32, 2u32);
    let b = Point2D(30u32, 40u32);
    assert_eq!(a + b, Point2D(31, 42));
    assert_eq!(b + a, Point2D(31, 42));
    let c = Point3D(1u32, 2u32, 3u32) + Point3D(10u32, 20u32, 30u32);
    assert_eq!(c, Point3D(11, 22, 33));
    let d = Point2D(5usize, 6usize) + Point2D(7usize, 8usize);
    assert_eq!(d, Point2D(12, 14));
}

#[test]
fn point_addition_associative() {
    let a = Point2D(1u32, 2u32);
    let b = Point2D(3u32, 4u32);
    let c = Point2D(5u32, 6u32);
    assert_eq!((a + b) + c, a + (b + c));
    let x = Point3D(1u32, 2u32, 3u32);
    let y = Point3D(4u32, 5u32, 6u32);
    let z = Point3D(7u32, 8u32, 9u32);
    assert_eq!((x + y) + z, x + (y + z));
}

#[test]
fn manhattan_distance_abs_diffs() {
    assert_eq!(Point2D(1u32, 5u32).manhattan_distance(Point2D(4u32, 1u32)), 7);
    assert_eq!(Point2D(4u32, 1u32).manhattan_distance(Point2D(1u32, 5u32)), 7);
    assert_eq!(Point2D(9usize, 9usize).manhattan_distance(Point2D(9usize, 9usize)), 0);
    assert_eq!(Point2D(0u32, 0u32).manhattan_distance(Point2D(u32::MAX, 0u32)), u32::MAX);
}

#[test]
fn corner_direct_neighbours_2d() {
    let r = Point2D(0u32, 0u32).neighbours_direct_bounded(Point2D(0, 0), Point2D(5, 5));
    assert_eq!(r.len(), 2);
    assert!(has2(&r, Point2D(1, 0)));
    assert!(has2(&r, Point2D(0, 1)));
}

#[test]
fn corner_diagonal_neighbours_2d() {
    let r = Point2D(0u32, 0u32).neighbours_diagonal_bounded(Point2D(0, 0), Point2D(5, 5));
    assert_eq!(r.len(), 3);
    assert!(has2(&r, Point2D(1, 0)));
    assert!(has2(&r, Point2D(0, 1)));
    assert!(has2(&r, Point2D(1, 1)));
}

#[test]
fn interior_neighbours_2d() {
    let p = Point2D(2u32, 2u32);
    let direct = p.neighbours_direct_bounded(Point2D(0, 0), Point2D(5, 5));
    assert_eq!(direct.len(), 4);
    for q in [Point2D(1, 2), Point2D(3, 2), Point2D(2, 1), Point2D(2, 3)] {
        assert!(has2(&direct, q));
    }
    let diagonal = p.neighbours_diagonal_bounded(Point2D(0, 0), Point2D(5, 5));
    assert_eq!(diagonal.len(), 8);
    for q in &direct {
        assert!(has2(&diagonal, *q));
    }
    for q in [Point2D(1, 1), Point2D(1, 3), Point2D(3, 1), Point2D(3, 3)] {
        assert!(has2(&diagonal, q));
    }
}

#[test]
fn neighbours_clipped_at_upper_edge_2d() {
    let r = Point2D(4u32, 4u32).neighbours_direct_bounded(Point2D(0, 0), Point2D(5, 5));
    assert_eq!(r.len(), 2);
    assert!(has2(&r, Point2D(3, 4)));
    assert!(has2(&r, Point2D(4, 3)));
}

#[test]
fn neighbours_respect_lower_bound_2d() {
    let r = Point2D(2u32, 2u32).neighbours_diagonal_bounded(Point2D(2, 2), Point2D(5, 5));
    assert_eq!(r.len(), 3);
    assert!(has2(&r, Point2D(3, 2)));
    assert!(has2(&r, Point2D(2, 3)));
    assert!(has2(&r, Point2D(3, 3)));
}

#[test]
fn degenerate_range_yields_nothing_2d() {
    let none = Point2D(0u32, 0u32).neighbours_diagonal_bounded(Point2D(0, 0), Point2D(0, 0));
    assert!(none.is_empty());
    let x_degenerate = Point2D(0u32, 1u32).neighbours_diagonal_bounded(Point2D(0, 0), Point2D(0, 3));
    assert_eq!(x_degenerate.len(), 2);
    assert!(has2(&x_degenerate, Point2D(0, 0)));
    assert!(has2(&x_degenerate, Point2D(0, 2)));
}

#[test]
fn upper_bounded_neighbours_2d() {
    let direct = Point2D(0u32, 0u32).neighbours_direct_upper_bounded(Point2D(2, 2));
    assert_eq!(direct.len(), 2);
    assert!(has2(&direct, Point2D(1, 0)));
    assert!(has2(&direct, Point2D(0, 1)));
    let diagonal = Point2D(0u32, 0u32).neighbours_diagonal_upper_bounded(Point2D(2, 2));
    assert_eq!(diagonal.len(), 3);
    assert!(has2(&diagonal, Point2D(1, 1)));
}

#[test]
fn neighbours_2d_usize() {
    let r = Point2D(0usize, 0usize).neighbours_direct_bounded(Point2D(0, 0), Point2D(3, 3));
    assert_eq!(r.len(), 2);
    assert!(has2u(&r, Point2D(1, 0)));
    assert!(has2u(&r, Point2D(0, 1)));
    let d = Point2D(1usize, 1usize).neighbours_diagonal_upper_bounded(Point2D(3, 3));
    assert_eq!(d.len(), 8);
}

#[test]
fn corner_neighbours_3d() {
    let p = Point3D(0u32, 0u32, 0u32);
    let direct = p.neighbours_direct_bounded(Point3D(0, 0, 0), Point3D(3, 3, 3));
    assert_eq!(direct.len(), 3);
    for q in [Point3D(1, 0, 0), Point3D(0, 1, 0), Point3D(0, 0, 1)] {
        assert!(has3(&direct, q));
    }
    let diagonal = p.neighbours_diagonal_bounded(Point3D(0, 0, 0), Point3D(3, 3, 3));
    assert_eq!(diagonal.len(), 7);
    for q in [
        Point3D(1, 0, 0),
        Point3D(0, 1, 0),
        Point3D(0, 0, 1),
        Point3D(0, 1, 1),
        Point3D(1, 0, 1),
        Point3D(1, 1, 0),
        Point3D(1, 1, 1),
    ] {
        assert!(has3(&diagonal, q));
    }
}

#[test]
fn interior_neighbours_3d() {
    let p = Point3D(1u32, 1u32, 1u32);
    let direct = p.neighbours_direct_bounded(Point3D(0, 0, 0), Point3D(3, 3, 3));
    assert_eq!(direct.len(), 6);
    let diagonal = p.neighbours_diagonal_bounded(Point3D(0, 0, 0), Point3D(3, 3, 3));
    assert_eq!(diagonal.len(), 26);
    for dx in 0u32..3 {
        for dy in 0u32..3 {
            for dz in 0u32..3 {
                let q = Point3D(dx, dy, dz);
                if q == p {
                    assert!(!has3(&diagonal, q));
                } else {
                    assert!(has3(&diagonal, q));
                }
            }
        }
    }
}

#[test]
fn degenerate_axis_yields_nothing_3d() {
    let p = Point3D(1u32, 1u32, 0u32);
    let r = p.neighbours_diagonal_bounded(Point3D(0, 0, 0), Point3D(3, 3, 0));
    assert_eq!(r.len(), 8);
    for q in &r {
        assert_eq!(q.z(), 0);
    }
    let none = Point3D(0u32, 0u32, 0u32).neighbours_direct_bounded(
        Point3D(0, 0, 0),
        Point3D(0, 0, 0),
    );
    assert!(none.is_empty());
}

#[test]
fn upper_bounded_neighbours_3d() {
    let direct = Point3D(0u32, 0u32, 0u32).neighbours_direct_upper_bounded(Point3D(2, 2, 2));
    assert_eq!(direct.len(), 3);
    let diagonal = Point3D(1u32, 1u32, 1u32).neighbours_diagonal_upper_bounded(Point3D(2, 2, 2));
    assert_eq!(diagonal.len(), 7);
}

#[test]
fn out_of_range_centre_yields_nothing_2d() {
    let direct = Point2D(10u32, 0u32).neighbours_direct_bounded(Point2D(0, 0), Point2D(3, 1));
    assert!(direct.is_empty());
    let diagonal = Point2D(5u32, 9u32).neighbours_diagonal_bounded(Point2D(0, 0), Point2D(3, 7));
    assert!(diagonal.is_empty());
}

#[test]
fn degenerate_axis_with_off_bound_centre_2d() {
    let r = Point2D(5u32, 3u32).neighbours_diagonal_bounded(Point2D(0, 0), Point2D(0, 7));
    assert_eq!(r.len(), 2);
    assert!(has2(&r, Point2D(5, 2)));
    assert!(has2(&r, Point2D(5, 4)));
    for q in &r {
        assert_eq!(q.x(), 5);
    }
}

#[test]
fn moves_below_lower_bound_excluded_2d() {
    let r = Point2D(1u32, 5u32).neighbours_direct_bounded(Point2D(3, 0), Point2D(10, 10));
    assert_eq!(r.len(), 2);
    assert!(has2(&r, Point2D(1, 4)));
    assert!(has2(&r, Point2D(1, 6)));
}

#[test]
fn out_of_range_centre_yields_nothing_3d() {
    let direct = Point3D(5u32, 0u32, 0u32).neighbours_direct_bounded(
        Point3D(0, 0, 0),
        Point3D(3, 1, 1),
    );
    assert!(direct.is_empty());
    let diagonal = Point3D(5u32, 9u32, 9u32).neighbours_diagonal_upper_bounded(Point3D(3, 7, 7));
    assert!(diagonal.is_empty());
}
