//! The soft-wrap layout of a document: which display rows a range of lines
//! yields, and on which display row and column a position falls.

use crate::cursor::Cursor;
use crate::text::{lines_view, strings_view};
use crate::wrap::{
    count_rows, digit_count, digits, label, label_of, locate, locate_column, usable_width, wrap,
    wrap_line,
};
use vstd::prelude::*;

verus! {

/// What one display row shows.
pub struct RowView {
    /// The number of the logical line, counted from one.
    pub number: nat,
    /// Whether this is the first row of its logical line, the one that
    /// carries the line number.
    pub first: bool,
    /// What stands in the gutter: the line number, flush right, on the
    /// first row of a logical line, and nothing on its other rows.
    pub label: Seq<char>,
    /// The characters on the row.
    pub text: Seq<char>,
}

/// One display row, ready to be drawn.
pub struct Row {
    pub number: usize,
    pub first: bool,
    pub label: String,
    pub text: String,
}

impl View for Row {
    type V = RowView;

    open spec fn view(&self) -> RowView {
        RowView {
            number: self.number as nat,
            first: self.first,
            label: self.label@,
            text: self.text@,
        }
    }
}

/// What each row of a vector of rows shows.
pub open spec fn rows_view(rows: Seq<Row>) -> Seq<RowView> {
    Seq::new(rows.len(), |i: int| rows[i]@)
}

/// The display rows of line `i`: its wrapped rows in order, the first of
/// them marked.
pub open spec fn line_rows(lines: Seq<Seq<char>>, i: int, usable: nat) -> Seq<RowView> {
    let w = wrap(lines[i], usable);
    Seq::new(
        w.len(),
        |r: int|
            RowView {
                number: (i + 1) as nat,
                first: r == 0,
                label: if r == 0 {
                    label((i + 1) as nat, digits(lines.len()))
                } else {
                    Seq::<char>::empty()
                },
                text: w[r],
            },
    )
}

/// The display rows of the lines `from..to`, in order.
pub open spec fn display_rows(lines: Seq<Seq<char>>, from: int, to: int, usable: nat) -> Seq<
    RowView,
>
    decreases to - from,
{
    if from >= to {
        Seq::<RowView>::empty()
    } else {
        display_rows(lines, from, to - 1, usable) + line_rows(lines, to - 1, usable)
    }
}

/// The number of display rows of the lines `from..to`: the sum of their
/// wrapped-row counts.
pub open spec fn row_count(lines: Seq<Seq<char>>, from: int, to: int, usable: nat) -> nat
    decreases to - from,
{
    if from >= to {
        0
    } else {
        row_count(lines, from, to - 1, usable) + wrap(lines[to - 1], usable).len()
    }
}

/// The first `n` items of a sequence, or all of it where it has fewer.
pub open spec fn first_n<A>(s: Seq<A>, n: nat) -> Seq<A> {
    if s.len() <= n {
        s
    } else {
        s.take(n as int)
    }
}

/// The smaller of two counts.
pub open spec fn at_most(n: nat, limit: nat) -> nat {
    if n <= limit {
        n
    } else {
        limit
    }
}

/// The rows of a viewport that show text: all but the last, which is kept
/// for the status line.
pub open spec fn row_limit(height: u16) -> nat {
    if height >= 1 {
        (height - 1) as nat
    } else {
        0
    }
}

/// The display row of a position, counted from the first row of line
/// `offset`: the rows of the lines between, and the row within its own line
/// that its column falls on.
pub open spec fn physical_row(lines: Seq<Seq<char>>, cursor: Cursor, offset: usize, usable: nat)
    -> nat {
    row_count(lines, offset as int, cursor.y as int, usable) + locate(
        wrap(lines[cursor.y as int], usable),
        cursor.x as nat,
    ).0
}

/// The display column of a position: the column within its display row,
/// after the gutter of `digits(line count) + 1` columns.
pub open spec fn physical_col(lines: Seq<Seq<char>>, cursor: Cursor, usable: nat) -> nat {
    locate(wrap(lines[cursor.y as int], usable), cursor.x as nat).1 + digits(lines.len()) + 1
}

/// The display rows of a range of lines are those of its first part followed
/// by those of the rest, and their counts add up.
pub proof fn lemma_display_rows_split(
    lines: Seq<Seq<char>>,
    from: int,
    mid: int,
    to: int,
    usable: nat,
)
    requires
        from <= mid <= to,
    ensures
        display_rows(lines, from, to, usable) == display_rows(lines, from, mid, usable)
            + display_rows(lines, mid, to, usable),
        row_count(lines, from, to, usable) == row_count(lines, from, mid, usable) + row_count(
            lines,
            mid,
            to,
            usable,
        ),
    decreases to - mid,
{
    if mid < to {
        lemma_display_rows_split(lines, from, mid, to - 1, usable);
    }
}

/// The columns left for text in a viewport `width` columns wide that shows
/// a document of `count` lines.
pub fn usable_of(width: u16, count: usize) -> (u: usize)
    ensures
        u == usable_width(width as nat, count as nat),
{
    let gutter = digit_count(count) + 1;
    let w = width as usize;
    if w >= gutter {
        w - gutter
    } else {
        0
    }
}

/// The number of display rows of the lines `from..to`, counted no further
/// than `limit`.
pub fn rows_between(buffer: &Vec<Vec<char>>, from: usize, to: usize, usable: usize, limit: usize)
    -> (n: usize)
    requires
        from <= to <= buffer.len(),
    ensures
        n == at_most(
            row_count(lines_view(buffer@), from as int, to as int, usable as nat),
            limit as nat,
        ),
{
    let mut n: usize = 0;
    let mut i: usize = from;
    while i < to
        invariant
            from <= i <= to <= buffer.len(),
            n == at_most(
                row_count(lines_view(buffer@), from as int, i as int, usable as nat),
                limit as nat,
            ),
        decreases to - i,
    {
        let c = count_rows(buffer[i].as_slice(), usable);
        let sum = n.saturating_add(c);
        n = if sum <= limit {
            sum
        } else {
            limit
        };
        i += 1;
    }
    n
}

/// The display row of a position, counted from the first row of line
/// `offset` and no further than `limit`.
pub fn cursor_row_of(
    buffer: &Vec<Vec<char>>,
    cursor: Cursor,
    offset: usize,
    usable: usize,
    limit: usize,
) -> (n: usize)
    requires
        offset <= cursor.y < buffer.len(),
    ensures
        n == at_most(
            physical_row(lines_view(buffer@), cursor, offset, usable as nat),
            limit as nat,
        ),
{
    let before = rows_between(buffer, offset, cursor.y, usable, limit);
    let at = locate_column(buffer[cursor.y].as_slice(), cursor.x, usable);
    let sum = before.saturating_add(at.0);
    if sum <= limit {
        sum
    } else {
        limit
    }
}

/// The display column of a position, counted no further than `limit`.
pub fn cursor_col_of(buffer: &Vec<Vec<char>>, cursor: Cursor, usable: usize, limit: usize) -> (n:
    usize)
    requires
        cursor.y < buffer.len(),
    ensures
        n == at_most(physical_col(lines_view(buffer@), cursor, usable as nat), limit as nat),
{
    let at = locate_column(buffer[cursor.y].as_slice(), cursor.x, usable);
    let gutter = digit_count(buffer.len()) + 1;
    let sum = at.1.saturating_add(gutter);
    if sum <= limit {
        sum
    } else {
        limit
    }
}

/// The first `limit` display rows of the lines from `offset` on.
pub fn rows_from(buffer: &Vec<Vec<char>>, offset: usize, usable: usize, limit: usize) -> (rows:
    Vec<Row>)
    requires
        offset <= buffer.len(),
    ensures
        rows_view(rows@) == first_n(
            display_rows(lines_view(buffer@), offset as int, buffer.len() as int, usable as nat),
            limit as nat,
        ),
{
    let ghost lines = lines_view(buffer@);
    let len = buffer.len();
    let gutter = digit_count(len);
    let mut rows: Vec<Row> = Vec::new();
    let mut i: usize = offset;
    while i < len && rows.len() < limit
        invariant
            lines == lines_view(buffer@),
            len == buffer.len(),
            gutter == digits(len as nat),
            offset <= i <= len,
            rows.len() <= limit,
            rows_view(rows@) == first_n(
                display_rows(lines, offset as int, i as int, usable as nat),
                limit as nat,
            ),
        decreases len - i,
    {
        let wrapped = wrap_line(buffer[i].as_slice(), usable);
        let ghost before = display_rows(lines, offset as int, i as int, usable as nat);
        let ghost these = line_rows(lines, i as int, usable as nat);
        let mut r: usize = 0;
        while r < wrapped.len() && rows.len() < limit
            invariant
                lines == lines_view(buffer@),
                i < buffer.len(),
                gutter == digits(buffer.len() as nat),
                r <= wrapped.len(),
                rows.len() <= limit,
                strings_view(wrapped@) == wrap(lines[i as int], usable as nat),
                these == line_rows(lines, i as int, usable as nat),
                these.len() == wrapped.len(),
                rows_view(rows@) == before + these.take(r as int),
            decreases wrapped.len() - r,
        {
            let text = wrapped[r].clone();
            let label = if r == 0 {
                label_of(i + 1, gutter)
            } else {
                String::new()
            };
            let row = Row { number: i + 1, first: r == 0, label, text };
            proof {
                assert((before + these.take(r as int)).push(these[r as int]) =~= before
                    + these.take(r + 1));
            }
            rows.push(row);
            r += 1;
        }
        i += 1;
    }
    proof {
        lemma_display_rows_split(lines, offset as int, i as int, len as int, usable as nat);
    }
    rows
}

} // verus!
