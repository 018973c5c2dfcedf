use libaoc::border::{min_enclosing_rectangle, Border2D};
use libaoc::map::Map2D;
use libaoc::points::Point2D;

#[test]
fn from_two_points() {
    let b = Border2D::<u32>::from_points([Point2D(1, 3), Point2D(2, 2)]);
    assert_eq!(b, Border2D { left: 1, right: 2, top: 2, down: 3 });
    let swapped = Border2D::<u32>::from_points([Point2D(2, 2), Point2D(1, 3)]);
    assert_eq!(swapped, Border2D { left: 1, right: 2, top: 2, down: 3 });
}

#[test]
fn from_no_points_degenerate_marker() {
    let b = Border2D::<u32>::from_points([]);
    assert_eq!(b, Border2D { left: 0, right: u32::MAX, top: 0, down: u32::MAX });
    let c = Border2D::<usize>::from_points([]);
    assert_eq!(c, Border2D { left: 0, right: usize::MAX, top: 0, down: usize::MAX });
}

#[test]
fn from_one_point_origin_anchored() {
    let b = Border2D::<u32>::from_points([Point2D(5, 5)]);
    assert_eq!(b, Border2D { left: 0, right: 5, top: 0, down: 5 });
    let c = Border2D::<u32>::from_one_point(Point2D(3, 7));
    assert_eq!(c, Border2D { left: 0, right: 3, top: 0, down: 7 });
}

#[test]
fn from_many_points_componentwise_extremes() {
    let b = Border2D::<u32>::from_points([
        Point2D(4, 4),
        Point2D(1, 9),
        Point2D(7, 2),
        Point2D(5, 5),
    ]);
    assert_eq!(b, Border2D { left: 1, right: 7, top: 2, down: 9 });
}

#[test]
fn from_points_usize() {
    let b = Border2D::<usize>::from_points([Point2D(1, 3), Point2D(2, 2)]);
    assert_eq!(b, Border2D { left: 1, right: 2, top: 2, down: 3 });
    let m = Border2D::<usize>::from_many_points([
        Point2D(8, 1),
        Point2D(2, 6),
        Point2D(5, 5),
    ]);
    assert_eq!(m, Border2D { left: 2, right: 8, top: 1, down: 6 });
}

#[test]
fn min_enclosing_rectangle_slice() {
    let ps = [Point2D(4u32, 4u32), Point2D(1u32, 9u32), Point2D(7u32, 2u32)];
    let b = min_enclosing_rectangle(&ps);
    assert_eq!(b, Border2D { left: 1, right: 7, top: 2, down: 9 });
    let single = min_enclosing_rectangle(&[Point2D(3u32, 4u32)]);
    assert_eq!(single, Border2D { left: 3, right: 3, top: 4, down: 4 });
}

#[test]
fn from_grid_extent() {
    let m: Map2D<char> = Map2D::from_text("abc\ndef", |c| Some(c)).unwrap();
    let b = Border2D::from_grid(&m);
    assert_eq!(b, Border2D { left: 0, right: 2, top: 0, down: 1 });
}
