//! A rectangular 2D grid of cells, built from a text blob one character per
//! cell, with indexed access and bounds-checked stepping.

use crate::direction::Direction4;
use crate::points::Point2D;
use vstd::prelude::*;

verus! {

/// Index of the first newline in `s`, or `s.len()` if there is none.
pub open spec fn first_newline(s: Seq<char>) -> int
    decreases s.len(),
{
    if s.len() == 0 {
        0
    } else if s[0] == '\n' {
        0
    } else {
        1 + first_newline(s.skip(1))
    }
}

/// A newline-terminated segment sheds one carriage return just before the
/// newline, so that a `"\r\n"` line ending reads as a plain line break.
pub open spec fn strip_cr(row: Seq<char>) -> Seq<char> {
    if row.len() > 0 && row.last() == '\r' {
        row.drop_last()
    } else {
        row
    }
}

/// The rows of a text blob: the segments between line breaks, in order,
/// where a line break is a newline or a carriage return followed by a
/// newline. A trailing line break does not open a final empty row, so
/// `"ab\n"` and `"ab"` both hold the single row `"ab"`, and an empty blob
/// holds no rows; a final segment with no line break after it is kept as it
/// stands, carriage return and all.
pub open spec fn lines_of(s: Seq<char>) -> Seq<Seq<char>>
    decreases s.len(),
{
    if s.len() == 0 {
        Seq::empty()
    } else {
        let i = first_newline(s);
        if 0 <= i < s.len() {
            seq![strip_cr(s.take(i))] + lines_of(s.skip(i + 1))
        } else {
            seq![s]
        }
    }
}

/// Every row has the same length as row 0.
pub open spec fn rows_rectangular(rows: Seq<Seq<char>>) -> bool {
    forall|i: int| 0 <= i < rows.len() ==> #[trigger] rows[i].len() == rows[0].len()
}

/// The views of a sequence of rows.
pub open spec fn rows_view<T>(rows: Seq<Vec<T>>) -> Seq<Seq<T>> {
    rows.map_values(|row: Vec<T>| row@)
}

proof fn lemma_first_newline(s: Seq<char>)
    ensures
        0 <= first_newline(s) <= s.len(),
        forall|j: int| 0 <= j < first_newline(s) ==> s[j] != '\n',
        first_newline(s) < s.len() ==> s[first_newline(s)] == '\n',
    decreases s.len(),
{
    if s.len() == 0 {
    } else if s[0] == '\n' {
    } else {
        lemma_first_newline(s.skip(1));
        assert forall|j: int| 0 <= j < first_newline(s) implies s[j] != '\n' by {
            if j > 0 {
                assert(s.skip(1)[j - 1] == s[j]);
            }
        }
        if first_newline(s) < s.len() {
            assert(s.skip(1)[first_newline(s) - 1] == s[first_newline(s)]);
        }
    }
}

proof fn lemma_first_newline_at(u: Seq<char>, t: Seq<char>)
    requires
        forall|j: int| 0 <= j < u.len() ==> u[j] != '\n',
    ensures
        first_newline(u + seq!['\n'] + t) == u.len(),
    decreases u.len(),
{
    let s = u + seq!['\n'] + t;
    if u.len() == 0 {
        assert(s[0] == '\n');
    } else {
        assert(s[0] == u[0]);
        assert forall|j: int| 0 <= j < u.skip(1).len() implies u.skip(1)[j] != '\n' by {
            assert(u.skip(1)[j] == u[j + 1]);
        }
        lemma_first_newline_at(u.skip(1), t);
        assert(s.skip(1) =~= u.skip(1) + seq!['\n'] + t);
    }
}

/// Splitting a newline-free row, a newline, and a remainder yields that row
/// (less one trailing carriage return) followed by the rows of the
/// remainder.
proof fn lemma_lines_of_flush(u: Seq<char>, t: Seq<char>)
    requires
        forall|j: int| 0 <= j < u.len() ==> u[j] != '\n',
    ensures
        lines_of(u + seq!['\n'] + t) == seq![strip_cr(u)] + lines_of(t),
{
    let s = u + seq!['\n'] + t;
    lemma_first_newline_at(u, t);
    assert(s.take(u.len() as int) =~= u);
    assert(s.skip(u.len() as int + 1) =~= t);
    assert(lines_of(s) == seq![strip_cr(u)] + lines_of(t));
}

/// A non-empty newline-free blob is one single row.
proof fn lemma_lines_of_single(u: Seq<char>)
    requires
        u.len() > 0,
        forall|j: int| 0 <= j < u.len() ==> u[j] != '\n',
    ensures
        lines_of(u) == seq![u],
{
    lemma_first_newline(u);
    if first_newline(u) < u.len() {
        assert(u[first_newline(u)] == '\n');
        assert(false);
    }
}

/// Why a grid could not be built from text.
#[derive(PartialEq, Eq, Structural, Clone, Copy, Hash, Debug)]
pub enum MapError {
    /// Some row's length differs from row 0's.
    RaggedRows,
    /// The cell conversion rejected some character.
    CellConversion,
}

/// Split a text blob into its rows of characters, as `lines_of` describes.
fn split_lines(s: &str) -> (r: Vec<Vec<char>>)
    ensures
        rows_view(r@) == lines_of(s@),
{
    let n = s.unicode_len();
    let mut rows: Vec<Vec<char>> = Vec::new();
    let mut cur: Vec<char> = Vec::new();
    let mut i: usize = 0;
    proof {
        assert(cur@ + s@.skip(0) =~= s@);
        assert(rows_view(rows@) + lines_of(s@) =~= lines_of(s@));
    }
    while i < n
        invariant
            n == s@.len(),
            i <= n,
            forall|j: int| 0 <= j < cur@.len() ==> cur@[j] != '\n',
            lines_of(s@) == rows_view(rows@) + lines_of(cur@ + s@.skip(i as int)),
        decreases n - i,
    {
        let c = s.get_char(i);
        proof {
            assert(s@.skip(i as int) =~= seq![s@[i as int]] + s@.skip(i as int + 1));
        }
        if c == '\n' {
            let ghost cur0 = cur@;
            if cur.len() > 0 && cur[cur.len() - 1] == '\r' {
                let _ = cur.pop();
            }
            proof {
                assert(cur@ =~= strip_cr(cur0));
                lemma_lines_of_flush(cur0, s@.skip(i as int + 1));
                assert(cur0 + s@.skip(i as int) =~= cur0 + seq!['\n'] + s@.skip(i as int + 1));
                assert(rows_view(rows@.push(cur)) =~= rows_view(rows@).push(cur@));
                assert(rows_view(rows@).push(cur@) + lines_of(s@.skip(i as int + 1)) =~= rows_view(
                    rows@,
                ) + (seq![cur@] + lines_of(s@.skip(i as int + 1))));
            }
            rows.push(cur);
            cur = Vec::new();
            proof {
                assert(cur@ + s@.skip(i as int + 1) =~= s@.skip(i as int + 1));
            }
        } else {
            proof {
                assert(cur@.push(s@[i as int]) + s@.skip(i as int + 1) =~= cur@ + s@.skip(
                    i as int,
                ));
            }
            cur.push(c);
        }
        i += 1;
    }
    proof {
        assert(cur@ + s@.skip(n as int) =~= cur@);
    }
    if cur.len() > 0 {
        proof {
            lemma_lines_of_single(cur@);
            assert(rows_view(rows@.push(cur)) =~= rows_view(rows@).push(cur@));
            assert(rows_view(rows@).push(cur@) =~= rows_view(rows@) + seq![cur@]);
        }
        rows.push(cur);
    } else {
        proof {
            assert(rows_view(rows@) + lines_of(cur@) =~= rows_view(rows@));
        }
    }
    rows
}

/// A rectangular grid of cells: an ordered sequence of rows, each an ordered
/// sequence of cells of one type. The grid owns its cell storage
/// exclusively; it is constructed once and mutated only through indexed
/// writes, never resized.
pub struct Map2D<T>(Vec<Vec<T>>);

impl<T> View for Map2D<T> {
    type V = Seq<Vec<T>>;

    closed spec fn view(&self) -> Seq<Vec<T>> {
        self.0@
    }
}

impl<T> Map2D<T> {
    /// Well-formed: non-empty, and every row has the same length as row 0.
    /// Callers must not construct a ragged grid; the operations that derive
    /// the grid's extent ask for this.
    pub open spec fn wf(self) -> bool {
        self@.len() > 0 && forall|i: int|
            0 <= i < self@.len() ==> #[trigger] self@[i]@.len() == self@[0]@.len()
    }

    pub fn new(v: Vec<Vec<T>>) -> (r: Self)
        ensures
            r@ == v@,
    {
        Map2D(v)
    }

    /// The number of rows.
    pub fn height(&self) -> (r: usize)
        ensures
            r == self@.len(),
    {
        self.0.len()
    }

    /// The number of cells in row 0, the grid's width.
    pub fn width(&self) -> (r: usize)
        requires
            self@.len() > 0,
        ensures
            r == self@[0]@.len(),
    {
        self.0[0].len()
    }

    pub fn rows(&self) -> (r: &Vec<Vec<T>>)
        ensures
            r@ == self@,
    {
        &self.0
    }

    pub fn rows_mut(&mut self) -> (r: &mut Vec<Vec<T>>)
        ensures
            r@ == old(self)@,
            final(self)@ == final(r)@,
    {
        &mut self.0
    }

    /// Read the cell at `point`: x is the column, y the row. Indexing with
    /// an out-of-range point is a programming error, excluded here rather
    /// than reported; step with `try_go` first to stay in range.
    pub fn get(&self, point: Point2D<usize>) -> (r: &T)
        requires
            point.1 < self@.len(),
            point.0 < self@[point.1 as int]@.len(),
        ensures
            *r == self@[point.1 as int]@[point.0 as int],
    {
        &self.0[point.1][point.0]
    }

    /// Write access to the cell at `point`: x is the column, y the row. The
    /// rest of the grid is untouched.
    pub fn get_mut(&mut self, point: Point2D<usize>) -> (r: &mut T)
        requires
            point.1 < old(self)@.len(),
            point.0 < old(self)@[point.1 as int]@.len(),
        ensures
            *r == old(self)@[point.1 as int]@[point.0 as int],
            final(self)@.len() == old(self)@.len(),
            forall|i: int|
                0 <= i < old(self)@.len() && i != point.1 ==> final(self)@[i] == old(self)@[i],
            final(self)@[point.1 as int]@ == old(self)@[point.1 as int]@.update(
                point.0 as int,
                *final(r),
            ),
    {
        &mut self.0[point.1][point.0]
    }

    /// Build a grid from a text blob: one row per line of `text` (as
    /// `lines_of` describes), one cell per character, each character passed
    /// independently through the caller-supplied fallible conversion. The
    /// whole construction fails, with no partial grid, if the rows are not
    /// all of row 0's length or if the conversion rejects any character;
    /// equal-length rows are owed a `RaggedRows`-free outcome, and ragged
    /// rows are always reported as `RaggedRows`.
    pub fn from_text<F: Fn(char) -> Option<T>>(text: &str, convert: F) -> (r: Result<
        Map2D<T>,
        MapError,
    >)
        requires
            forall|c: char| call_requires(convert, (c,)),
        ensures
            ({
                let lines = lines_of(text@);
                match r {
                    Ok(m) => {
                        &&& rows_rectangular(lines)
                        &&& (lines.len() > 0 ==> m.wf())
                        &&& m@.len() == lines.len()
                        &&& forall|i: int|
                            0 <= i < lines.len() ==> #[trigger] m@[i]@.len() == lines[i].len()
                        &&& forall|i: int, j: int|
                            0 <= i < lines.len() && 0 <= j < lines[i].len() ==> call_ensures(
                                convert,
                                (lines[i][j],),
                                Some(#[trigger] m@[i]@[j]),
                            )
                    },
                    Err(e) => {
                        &&& (e == MapError::RaggedRows ==> !rows_rectangular(lines))
                        &&& (e == MapError::CellConversion ==> rows_rectangular(lines)
                            && exists|i: int, j: int|
                            0 <= i < lines.len() && 0 <= j < lines[i].len() && call_ensures(
                                convert,
                                (#[trigger] lines[i][j],),
                                None::<T>,
                            ))
                    },
                }
            }),
            !rows_rectangular(lines_of(text@)) ==> r == Err::<Map2D<T>, MapError>(
                MapError::RaggedRows,
            ),
    {
        let ghost lines = lines_of(text@);
        let rows_chars = split_lines(text);
        proof {
            assert(forall|i: int|
                0 <= i < rows_chars@.len() ==> #[trigger] rows_chars@[i]@ == lines[i]);
        }
        if rows_chars.len() > 0 {
            let w0 = rows_chars[0].len();
            let mut k: usize = 1;
            while k < rows_chars.len()
                invariant
                    lines == lines_of(text@),
                    rows_view(rows_chars@) == lines,
                    forall|i: int|
                        0 <= i < rows_chars@.len() ==> #[trigger] rows_chars@[i]@ == lines[i],
                    w0 == lines[0].len(),
                    1 <= k <= rows_chars@.len(),
                    forall|i: int| 0 <= i < k ==> #[trigger] lines[i].len() == lines[0].len(),
                decreases rows_chars@.len() - k,
            {
                if rows_chars[k].len() != w0 {
                    proof {
                        assert(lines[k as int].len() != lines[0].len());
                        assert(!rows_rectangular(lines));
                    }
                    return Err(MapError::RaggedRows);
                }
                k += 1;
            }
        }
        let mut cells: Vec<Vec<T>> = Vec::new();
        let mut y: usize = 0;
        while y < rows_chars.len()
            invariant
                forall|c: char| call_requires(convert, (c,)),
                lines == lines_of(text@),
                rows_view(rows_chars@) == lines,
                forall|i: int|
                    0 <= i < rows_chars@.len() ==> #[trigger] rows_chars@[i]@ == lines[i],
                rows_rectangular(lines),
                y <= rows_chars@.len(),
                cells@.len() == y,
                forall|i: int| 0 <= i < y ==> #[trigger] cells@[i]@.len() == lines[i].len(),
                forall|i: int, j: int|
                    0 <= i < y && 0 <= j < lines[i].len() ==> call_ensures(
                        convert,
                        (lines[i][j],),
                        Some(#[trigger] cells@[i]@[j]),
                    ),
            decreases rows_chars@.len() - y,
        {
            let row_chars = &rows_chars[y];
            let mut row: Vec<T> = Vec::new();
            let mut x: usize = 0;
            while x < row_chars.len()
                invariant
                    forall|c: char| call_requires(convert, (c,)),
                    lines == lines_of(text@),
                    rows_rectangular(lines),
                    row_chars@ == lines[y as int],
                    y < lines.len(),
                    x <= row_chars@.len(),
                    row@.len() == x,
                    forall|j: int|
                        0 <= j < x ==> call_ensures(
                            convert,
                            (lines[y as int][j],),
                            Some(#[trigger] row@[j]),
                        ),
                decreases row_chars@.len() - x,
            {
                let c = row_chars[x];
                match convert(c) {
                    Some(v) => row.push(v),
                    None => {
                        proof {
                            assert(lines[y as int][x as int] == c);
                            assert(call_ensures(convert, (c,), None::<T>));
                        }
                        return Err(MapError::CellConversion);
                    },
                }
                x += 1;
            }
            cells.push(row);
            y += 1;
        }
        Ok(Map2D(cells))
    }

    /// Step `point` one cell in `direction` if the stepped point stays
    /// within `[0, width) x [0, height)`; report `None` otherwise, without
    /// faulting. For a point already inside the grid the returned point is
    /// inside it too.
    pub fn try_go(&self, point: Point2D<usize>, direction: Direction4) -> (r: Option<
        Point2D<usize>,
    >)
        requires
            self.wf(),
        ensures
            r == (match direction {
                Direction4::Left => if point.0 > 0 {
                    Some(Point2D((point.0 - 1) as usize, point.1))
                } else {
                    None
                },
                Direction4::Up => if point.1 > 0 {
                    Some(Point2D(point.0, (point.1 - 1) as usize))
                } else {
                    None
                },
                Direction4::Right => if point.0 + 1 < self@[0]@.len() {
                    Some(Point2D((point.0 + 1) as usize, point.1))
                } else {
                    None
                },
                Direction4::Down => if point.1 + 1 < self@.len() {
                    Some(Point2D(point.0, (point.1 + 1) as usize))
                } else {
                    None
                },
            }),
    {
        let Point2D(x, y) = point;
        match direction {
            Direction4::Left => if x > 0 {
                Some(Point2D(x - 1, y))
            } else {
                None
            },
            Direction4::Up => if y > 0 {
                Some(Point2D(x, y - 1))
            } else {
                None
            },
            Direction4::Right => {
                let w = self.width();
                if x < w && x + 1 < w {
                    Some(Point2D(x + 1, y))
                } else {
                    None
                }
            },
            Direction4::Down => {
                let h = self.height();
                if y < h && y + 1 < h {
                    Some(Point2D(x, y + 1))
                } else {
                    None
                }
            },
        }
    }
}

} // verus!
