use libaoc::direction::Direction4;
use libaoc::map::{Map2D, MapError};
use libaoc::points::Point2D;

#[test]
fn from_text_two_by_two() {
    let m: Map2D<char> = Map2D::from_text("ab\ncd", |c| Some(c)).unwrap();
    assert_eq!(m.width(), 2);
    assert_eq!(m.height(), 2);
    assert_eq!(*m.get(Point2D(0, 0)), 'a');
    assert_eq!(*m.get(Point2D(1, 0)), 'b');
    assert_eq!(*m.get(Point2D(0, 1)), 'c');
    assert_eq!(*m.get(Point2D(1, 1)), 'd');
}

#[test]
fn from_text_ragged_rows_fail() {
    let r: Result<Map2D<char>, MapError> = Map2D::from_text("ab\nc", |c| Some(c));
    assert_eq!(r.err().unwrap(), MapError::RaggedRows);
}

#[test]
fn from_text_cell_conversion_fail() {
    let r: Result<Map2D<u32>, MapError> = Map2D::from_text("12\n3x", |c| c.to_digit(10));
    assert_eq!(r.err().unwrap(), MapError::CellConversion);
}

#[test]
fn from_text_converted_cells() {
    let m: Map2D<u32> = Map2D::from_text("12\n34", |c| c.to_digit(10)).unwrap();
    assert_eq!(*m.get(Point2D(0, 0)), 1);
    assert_eq!(*m.get(Point2D(1, 1)), 4);
}

#[test]
fn from_text_trailing_newline() {
    let m: Map2D<char> = Map2D::from_text("ab\ncd\n", |c| Some(c)).unwrap();
    assert_eq!(m.height(), 2);
    assert_eq!(m.width(), 2);
}

#[test]
fn from_text_empty_blob_has_no_rows() {
    let m: Map2D<char> = Map2D::from_text("", |c| Some(c)).unwrap();
    assert_eq!(m.height(), 0);
}

#[test]
fn new_and_indexed_access() {
    let v = vec![vec![1, 2, 3], vec![4, 5, 6], vec![7, 8, 9]];
    let m = Map2D::new(v);
    let pos: Point2D<usize> = Point2D(1, 2);
    assert_eq!(*m.get(pos), 8);
    assert_eq!(m.rows().len(), 3);
    assert_eq!(m.rows()[0], vec![1, 2, 3]);
}

#[test]
fn get_mut_writes_one_cell() {
    let mut m = Map2D::new(vec![vec![1, 2], vec![3, 4]]);
    *m.get_mut(Point2D(1, 0)) = 9;
    assert_eq!(*m.get(Point2D(1, 0)), 9);
    assert_eq!(*m.get(Point2D(0, 0)), 1);
    assert_eq!(*m.get(Point2D(0, 1)), 3);
    assert_eq!(*m.get(Point2D(1, 1)), 4);
}

#[test]
fn rows_mut_gives_whole_storage() {
    let mut m = Map2D::new(vec![vec![1, 2], vec![3, 4]]);
    m.rows_mut()[1][0] = 30;
    assert_eq!(*m.get(Point2D(0, 1)), 30);
}

#[test]
fn try_go_at_origin() {
    let m = Map2D::new(vec![vec![0; 3]; 3]);
    let p: Point2D<usize> = Point2D(0, 0);
    assert_eq!(m.try_go(p, Direction4::Left), None);
    assert_eq!(m.try_go(p, Direction4::Up), None);
    assert_eq!(m.try_go(p, Direction4::Right), Some(Point2D(1, 0)));
    assert_eq!(m.try_go(p, Direction4::Down), Some(Point2D(0, 1)));
}

#[test]
fn try_go_at_far_corner() {
    let m = Map2D::new(vec![vec![0; 3]; 3]);
    let p: Point2D<usize> = Point2D(2, 2);
    assert_eq!(m.try_go(p, Direction4::Left), Some(Point2D(1, 2)));
    assert_eq!(m.try_go(p, Direction4::Up), Some(Point2D(2, 1)));
    assert_eq!(m.try_go(p, Direction4::Right), None);
    assert_eq!(m.try_go(p, Direction4::Down), None);
}

#[test]
fn from_text_crlf_line_endings() {
    let m: Map2D<char> = Map2D::from_text("ab\r\ncd", |c| Some(c)).unwrap();
    assert_eq!(m.width(), 2);
    assert_eq!(m.height(), 2);
    assert_eq!(*m.get(Point2D(0, 0)), 'a');
    assert_eq!(*m.get(Point2D(1, 1)), 'd');
    let n: Map2D<char> = Map2D::from_text("ab\r\ncd\r\n", |c| Some(c)).unwrap();
    assert_eq!(n.height(), 2);
    assert_eq!(n.width(), 2);
}

#[test]
fn from_text_keeps_carriage_return_without_newline() {
    let m: Map2D<char> = Map2D::from_text("ab\r", |c| Some(c)).unwrap();
    assert_eq!(m.height(), 1);
    assert_eq!(m.width(), 3);
    assert_eq!(*m.get(Point2D(2, 0)), '\r');
}
