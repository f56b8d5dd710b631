//! Soft wrap: how one logical line is cut into display rows of a given
//! width, and where a column of the line falls among those rows.

use crate::text::{string_of, strings_view};
use crate::width::{
    char_width, lemma_width_push, lemma_width_take_le, lemma_width_take_step, seq_width,
};
use vstd::prelude::*;

verus! {

/// The number of decimal digits of `n`.
pub open spec fn digits(n: nat) -> nat
    decreases n,
{
    if n < 10 {
        1
    } else {
        1 + digits(n / 10)
    }
}

/// The number of decimal digits of `n`.
pub fn digit_count(n: usize) -> (d: usize)
    ensures
        d == digits(n as nat),
        1 <= d <= 20,
{
    let mut d: usize = 1;
    let mut m: usize = n;
    proof {
        lemma_digits_bound(n as nat);
    }
    while m >= 10
        invariant
            1 <= d,
            digits(n as nat) == d - 1 + digits(m as nat),
            d + digits(m as nat) <= 21,
        decreases m,
    {
        m = m / 10;
        d += 1;
    }
    d
}

/// A number below 2^64 has at most twenty digits.
proof fn lemma_digits_bound(n: nat)
    requires
        n <= u64::MAX,
    ensures
        digits(n) <= 20,
{
    reveal_with_fuel(digits, 21);
}

/// The character of the decimal digit `d`.
pub open spec fn digit_char(d: nat) -> char {
    ('0' as u8 + d) as char
}

/// The decimal digits of `n`, the most significant first.
pub open spec fn decimal(n: nat) -> Seq<char>
    decreases n,
{
    if n < 10 {
        seq![digit_char(n)]
    } else {
        decimal(n / 10).push(digit_char(n % 10))
    }
}

/// The gutter label of line number `number` in a gutter that holds `width`
/// digits: the decimal digits of the number, with blanks before them to
/// fill the width.
pub open spec fn label(number: nat, width: nat) -> Seq<char> {
    Seq::new(
        if width >= digits(number) {
            (width - digits(number)) as nat
        } else {
            0
        },
        |i: int| ' ',
    ) + decimal(number)
}

/// Appends the decimal digits of `n` to `s`.
pub fn push_decimal(s: &mut String, n: usize)
    ensures
        final(s)@ == old(s)@ + decimal(n as nat),
    decreases n,
{
    if n >= 10 {
        push_decimal(s, n / 10);
    }
    let d = (n % 10) as u8;
    let c = (48u8 + d) as char;
    s.push(c);
}

/// The gutter label of line number `number` in a gutter that holds `width`
/// digits.
pub fn label_of(number: usize, width: usize) -> (s: String)
    ensures
        s@ == label(number as nat, width as nat),
{
    let d = digit_count(number);
    let pad = if width >= d {
        width - d
    } else {
        0
    };
    let mut s = String::new();
    let mut i: usize = 0;
    while i < pad
        invariant
            i <= pad,
            s@ == Seq::new(i as nat, |k: int| ' '),
        decreases pad - i,
    {
        s.push(' ');
        i += 1;
    }
    push_decimal(&mut s, number);
    s
}

/// The columns left for text in a viewport `width` columns wide: the width
/// less the gutter, which holds the digits of the line count and one blank.
pub open spec fn usable_width(width: nat, line_count: nat) -> nat {
    if width >= digits(line_count) + 1 {
        (width - digits(line_count) - 1) as nat
    } else {
        0
    }
}

/// The end of the longest run of characters of `s` that starts at `from`,
/// reaches at least to `k` and is at most `usable` columns wide.
pub open spec fn fit_end(s: Seq<char>, from: int, k: int, usable: nat) -> int
    decreases s.len() - k,
{
    if from <= k < s.len() && seq_width(s.subrange(from, k + 1)) <= usable {
        fit_end(s, from, k + 1, usable)
    } else {
        k
    }
}

/// The end of the display row of `s` that starts at `from`: the row holds
/// the longest whole-character run that fits `usable` columns, and always at
/// least one character.
pub open spec fn row_end(s: Seq<char>, from: int, usable: nat) -> int {
    let k = fit_end(s, from, from, usable);
    if k == from && from < s.len() {
        from + 1
    } else {
        k
    }
}

/// What `fit_end` returns: it lies between `k` and the end, the run up to it
/// fits, and one more character would not.
pub proof fn lemma_fit_end(s: Seq<char>, from: int, k: int, usable: nat)
    requires
        0 <= from <= k <= s.len(),
        seq_width(s.subrange(from, k)) <= usable,
    ensures
        k <= fit_end(s, from, k, usable) <= s.len(),
        seq_width(s.subrange(from, fit_end(s, from, k, usable))) <= usable,
        fit_end(s, from, k, usable) < s.len() ==> seq_width(
            s.subrange(from, fit_end(s, from, k, usable) + 1),
        ) > usable,
    decreases s.len() - k,
{
    if k < s.len() && seq_width(s.subrange(from, k + 1)) <= usable {
        lemma_fit_end(s, from, k + 1, usable);
    }
}

/// What `row_end` returns: a row is never empty, stays within the line, fits
/// the usable width unless it is a single character, and cannot take one
/// character more.
pub proof fn lemma_row_end(s: Seq<char>, from: int, usable: nat)
    requires
        0 <= from < s.len(),
    ensures
        from < row_end(s, from, usable) <= s.len(),
        seq_width(s.subrange(from, row_end(s, from, usable))) <= usable || row_end(s, from, usable)
            == from + 1,
        row_end(s, from, usable) < s.len() ==> seq_width(
            s.subrange(from, row_end(s, from, usable) + 1),
        ) > usable,
{
    lemma_fit_end(s, from, from, usable);
    let k = fit_end(s, from, from, usable);
    if k == from {
        if from + 1 < s.len() {
            assert(s.subrange(from, from + 2) =~= s.subrange(from, from + 1).push(s[from + 1]));
            lemma_width_push(s.subrange(from, from + 1), s[from + 1]);
        }
    }
}

/// The display rows of the part of `s` from `from` on.
pub open spec fn wrap_from(s: Seq<char>, from: int, usable: nat) -> Seq<Seq<char>>
    decreases s.len() - from,
{
    if from < 0 || from >= s.len() {
        Seq::<Seq<char>>::empty()
    } else {
        let e = row_end(s, from, usable);
        proof {
            lemma_row_end(s, from, usable);
        }
        seq![s.subrange(from, e)] + wrap_from(s, e, usable)
    }
}

/// The display rows of a logical line: an empty line is one empty row; any
/// other line is cut, from its start, into rows that each hold the longest
/// whole-character run that fits.
pub open spec fn wrap(s: Seq<char>, usable: nat) -> Seq<Seq<char>> {
    if s.len() == 0 {
        seq![Seq::<char>::empty()]
    } else {
        wrap_from(s, 0, usable)
    }
}

/// The end of the display row of `line` that starts at `from`.
pub fn next_row_end(line: &[char], from: usize, usable: usize) -> (e: usize)
    requires
        from < line@.len(),
    ensures
        e == row_end(line@, from as int, usable as nat),
        from < e <= line@.len(),
{
    let n = line.len();
    let mut k: usize = from;
    let mut acc: usize = 0;
    loop
        invariant
            n == line@.len(),
            from <= k <= n,
            from < n,
            acc == seq_width(line@.subrange(from as int, k as int)),
            acc <= usable,
            fit_end(line@, from as int, from as int, usable as nat) == fit_end(
                line@,
                from as int,
                k as int,
                usable as nat,
            ),
        ensures
            from <= k <= n,
            fit_end(line@, from as int, from as int, usable as nat) == k,
        decreases n - k,
    {
        if k >= n {
            break ;
        }
        let w = char_width(line[k]);
        proof {
            assert(line@.subrange(from as int, k + 1) =~= line@.subrange(
                from as int,
                k as int,
            ).push(line@[k as int]));
            lemma_width_push(line@.subrange(from as int, k as int), line@[k as int]);
        }
        if w > usable - acc {
            break ;
        }
        acc = acc + w;
        k += 1;
    }
    if k == from {
        from + 1
    } else {
        k
    }
}

/// The number of display rows of a logical line.
pub fn count_rows(line: &[char], usable: usize) -> (n: usize)
    ensures
        n == wrap(line@, usable as nat).len(),
        n >= 1,
{
    let len = line.len();
    if len == 0 {
        return 1;
    }
    let mut from: usize = 0;
    let mut n: usize = 0;
    while from < len
        invariant
            len == line@.len(),
            from <= len,
            n <= from,
            n + wrap_from(line@, from as int, usable as nat).len() == wrap_from(
                line@,
                0,
                usable as nat,
            ).len(),
        decreases len - from,
    {
        let e = next_row_end(line, from, usable);
        n += 1;
        from = e;
    }
    n
}

/// The display rows of a logical line, as strings.
pub fn wrap_line(line: &[char], usable: usize) -> (rows: Vec<String>)
    ensures
        strings_view(rows@) == wrap(line@, usable as nat),
{
    let len = line.len();
    let mut rows: Vec<String> = Vec::new();
    if len == 0 {
        rows.push(String::new());
        return rows;
    }
    let mut from: usize = 0;
    while from < len
        invariant
            len == line@.len(),
            from <= len,
            strings_view(rows@) + wrap_from(line@, from as int, usable as nat) == wrap_from(
                line@,
                0,
                usable as nat,
            ),
        decreases len - from,
    {
        let e = next_row_end(line, from, usable);
        let row = string_of(line, from, e);
        rows.push(row);
        from = e;
    }
    rows
}

/// Where column `x` of a line falls among its display rows: the index of the
/// row and the column within it. Every row but the last that is narrower
/// than the remaining column is passed over and its width taken off.
pub open spec fn locate(rows: Seq<Seq<char>>, x: nat) -> (nat, nat)
    decreases rows.len(),
{
    if rows.len() <= 1 || seq_width(rows[0]) >= x {
        (0, x)
    } else {
        let r = locate(rows.drop_first(), (x - seq_width(rows[0])) as nat);
        (r.0 + 1, r.1)
    }
}

/// The row that a column falls on is one of the rows, and the column within
/// it is no greater than the column within the line.
pub proof fn lemma_locate_bounds(rows: Seq<Seq<char>>, x: nat)
    requires
        rows.len() >= 1,
    ensures
        locate(rows, x).0 < rows.len(),
        locate(rows, x).1 <= x,
    decreases rows.len(),
{
    if !(rows.len() <= 1 || seq_width(rows[0]) >= x) {
        lemma_locate_bounds(rows.drop_first(), (x - seq_width(rows[0])) as nat);
    }
}

/// The width of the characters `line[from..to]` of one display row.
fn row_width(line: &[char], from: usize, to: usize, usable: usize) -> (w: usize)
    requires
        from < to <= line@.len(),
        to == row_end(line@, from as int, usable as nat),
    ensures
        w == seq_width(line@.subrange(from as int, to as int)),
{
    proof {
        lemma_row_end(line@, from as int, usable as nat);
    }
    let ghost s = line@.subrange(from as int, to as int);
    let mut acc: usize = 0;
    let mut i: usize = from;
    while i < to
        invariant
            from <= i <= to <= line@.len(),
            s == line@.subrange(from as int, to as int),
            acc == seq_width(s.take(i - from)),
            seq_width(s) <= usable || to == from + 1,
        decreases to - i,
    {
        let w = char_width(line[i]);
        proof {
            lemma_width_take_step(s, i - from);
            lemma_width_take_le(s, i - from + 1, s.len() as int);
            assert(s.take(s.len() as int) =~= s);
        }
        acc = acc + w;
        i += 1;
    }
    proof {
        assert(s.take(s.len() as int) =~= s);
    }
    acc
}

/// Where column `x` of a line falls among its display rows.
pub fn locate_column(line: &[char], x: usize, usable: usize) -> (r: (usize, usize))
    ensures
        (r.0 as nat, r.1 as nat) == locate(wrap(line@, usable as nat), x as nat),
        r.0 < wrap(line@, usable as nat).len(),
        r.1 <= x,
{
    let len = line.len();
    proof {
        lemma_locate_bounds(wrap(line@, usable as nat), x as nat);
    }
    if len == 0 {
        return (0, x);
    }
    let mut from: usize = 0;
    let mut row: usize = 0;
    let mut col: usize = x;
    loop
        invariant
            len == line@.len(),
            from < len,
            row <= from,
            col <= x,
            locate(wrap(line@, usable as nat), x as nat).0 == row + locate(
                wrap_from(line@, from as int, usable as nat),
                col as nat,
            ).0,
            locate(wrap(line@, usable as nat), x as nat).1 == locate(
                wrap_from(line@, from as int, usable as nat),
                col as nat,
            ).1,
        ensures
            (row as nat, col as nat) == locate(wrap(line@, usable as nat), x as nat),
        decreases len - from,
    {
        let e = next_row_end(line, from, usable);
        let ghost rows = wrap_from(line@, from as int, usable as nat);
        proof {
            assert(rows.drop_first() =~= wrap_from(line@, e as int, usable as nat));
        }
        if e >= len {
            break ;
        }
        let w = row_width(line, from, e, usable);
        if w >= col {
            break ;
        }
        col = col - w;
        row += 1;
        from = e;
    }
    (row, col)
}

} // verus!
