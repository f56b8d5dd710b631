//! Editing within one line: the character boundary that a display column
//! stands for, and the edits and steps made there.

use crate::width::{
    char_width, chars_width, clip, columns, lemma_width_concat, lemma_width_push,
    lemma_width_single, lemma_width_split, lemma_width_take_step, seq_width, spec_char_width,
};
use vstd::prelude::*;

verus! {

/// The first index from `k` on whose prefix of `s` is at least `x` columns
/// wide, or the length of `s` where no prefix is.
pub open spec fn reach(s: Seq<char>, x: nat, k: int) -> int
    decreases s.len() - k,
{
    if k < 0 || k >= s.len() {
        s.len() as int
    } else if seq_width(s.take(k)) >= x {
        k
    } else {
        reach(s, x, k + 1)
    }
}

/// The character boundary of column `x`: the length of the shortest prefix of
/// `s` whose accumulated width reaches `x`, or the whole length where the line
/// is narrower than `x`.
pub open spec fn split_index(s: Seq<char>, x: nat) -> int {
    reach(s, x, 0)
}

/// What `reach` returns: every prefix before it is too narrow, and the prefix
/// it names is wide enough unless it is the whole line.
pub proof fn lemma_reach(s: Seq<char>, x: nat, k: int)
    requires
        0 <= k <= s.len(),
    ensures
        k <= reach(s, x, k) <= s.len(),
        forall|j: int| k <= j < reach(s, x, k) ==> seq_width(#[trigger] s.take(j)) < x,
        reach(s, x, k) < s.len() ==> seq_width(s.take(reach(s, x, k))) >= x,
    decreases s.len() - k,
{
    if k < s.len() && seq_width(s.take(k)) < x {
        lemma_reach(s, x, k + 1);
    }
}

/// The boundary of a column lies within the line; the prefixes before it are
/// narrower than the column; the prefix up to it reaches the column whenever
/// the line does; and it is not the start unless the column is zero.
pub proof fn lemma_split_index(s: Seq<char>, x: nat)
    ensures
        0 <= split_index(s, x) <= s.len(),
        forall|j: int| 0 <= j < split_index(s, x) ==> seq_width(#[trigger] s.take(j)) < x,
        split_index(s, x) < s.len() ==> seq_width(s.take(split_index(s, x))) >= x,
        x <= seq_width(s) ==> seq_width(s.take(split_index(s, x))) >= x,
        x > 0 && s.len() > 0 ==> split_index(s, x) >= 1,
        x == 0 ==> split_index(s, x) == 0,
{
    lemma_reach(s, x, 0);
    assert(s.take(s.len() as int) =~= s);
}

/// The boundary of a column is the only index whose earlier prefixes are all
/// narrower than the column and whose own prefix reaches it.
pub proof fn lemma_split_index_is(s: Seq<char>, x: nat, k: int)
    requires
        0 <= k <= s.len(),
        forall|j: int| 0 <= j < k ==> seq_width(#[trigger] s.take(j)) < x,
        k == s.len() || seq_width(s.take(k)) >= x,
    ensures
        split_index(s, x) == k,
{
    lemma_split_index(s, x);
}

/// The character boundary that column `x` of `line` stands for.
pub fn boundary(line: &[char], x: usize) -> (k: usize)
    ensures
        k == split_index(line@, x as nat),
        k <= line@.len(),
{
    let n = line.len();
    let mut k: usize = 0;
    let mut acc: usize = 0;
    while k < n && acc < x
        invariant
            n == line@.len(),
            k <= n,
            acc == columns(line@.take(k as int)),
            reach(line@, x as nat, 0) == reach(line@, x as nat, k as int),
        decreases n - k,
    {
        let w = char_width(line[k]);
        proof {
            lemma_width_take_step(line@, k as int);
        }
        acc = acc.saturating_add(w);
        k += 1;
    }
    k
}

/// `a - b`, and zero where `b` is the greater.
pub open spec fn sub_or_zero(a: usize, b: nat) -> usize {
    if a >= b {
        (a - b) as usize
    } else {
        0
    }
}

/// The smaller of two columns.
pub open spec fn min_col(a: usize, b: usize) -> usize {
    if a <= b {
        a
    } else {
        b
    }
}

/// Typing `c` at column `x`: the line is split at the boundary of `x`, `c`
/// goes between the halves, and the column advances by the width of `c`.
pub open spec fn inserted(line: Seq<char>, x: usize, c: char) -> (Seq<char>, usize) {
    (line.insert(split_index(line, x as nat), c), clip(x + spec_char_width(c)))
}

/// Erasing before column `x`: the character that ends at the boundary of `x`
/// leaves the line, and the column goes back by its width. At column zero
/// nothing changes.
pub open spec fn erased(line: Seq<char>, x: usize) -> (Seq<char>, usize) {
    let k = split_index(line, x as nat);
    if x == 0 || k == 0 {
        (line, x)
    } else {
        (line.remove(k - 1), sub_or_zero(x, spec_char_width(line[k - 1])))
    }
}

/// One step to the left of column `x`: back by the width of the character
/// that ends at the boundary of `x`. At column zero nothing changes.
pub open spec fn stepped_left(line: Seq<char>, x: usize) -> usize {
    erased(line, x).1
}

/// One step to the right of column `x`: forward by the width of the first
/// character that ends beyond `x`, and never past the end of the line. At
/// the end of the line nothing changes.
pub open spec fn stepped_right(line: Seq<char>, x: usize) -> usize {
    let k = split_index(line, x as nat + 1);
    if x >= columns(line) || k == 0 {
        x
    } else {
        min_col(clip(x + spec_char_width(line[k - 1])), columns(line))
    }
}

/// A line with one character put in is wider by that character.
pub proof fn lemma_width_insert(line: Seq<char>, k: int, c: char)
    requires
        0 <= k <= line.len(),
    ensures
        seq_width(line.insert(k, c)) == seq_width(line) + spec_char_width(c),
        forall|j: int| 0 <= j <= k ==> #[trigger] line.insert(k, c).take(j) == line.take(j),
        line.insert(k, c).take(k + 1) == line.take(k).push(c),
        seq_width(line.insert(k, c).take(k + 1)) == seq_width(line.take(k)) + spec_char_width(c),
{
    let n = line.insert(k, c);
    assert(n =~= line.take(k) + seq![c] + line.skip(k));
    lemma_width_concat(line.take(k) + seq![c], line.skip(k));
    lemma_width_concat(line.take(k), seq![c]);
    lemma_width_single(c);
    lemma_width_split(line, k);
    lemma_width_push(line.take(k), c);
}

/// A line with one character taken out is narrower by that character.
pub proof fn lemma_width_remove(line: Seq<char>, i: int)
    requires
        0 <= i < line.len(),
    ensures
        seq_width(line.remove(i)) + spec_char_width(line[i]) == seq_width(line),
{
    lemma_width_concat(line.take(i), line.skip(i + 1));
    lemma_width_split(line, i);
    assert(line.skip(i) =~= seq![line[i]] + line.skip(i + 1));
    lemma_width_concat(seq![line[i]], line.skip(i + 1));
    lemma_width_single(line[i]);
}

/// Typing keeps a column within its line.
pub proof fn lemma_inserted_valid(line: Seq<char>, x: usize, c: char)
    requires
        x <= seq_width(line),
    ensures
        inserted(line, x, c).1 <= seq_width(inserted(line, x, c).0),
{
    lemma_split_index(line, x as nat);
    lemma_width_insert(line, split_index(line, x as nat), c);
}

/// Erasing keeps a column within its line.
pub proof fn lemma_erased_valid(line: Seq<char>, x: usize)
    requires
        x <= seq_width(line),
    ensures
        erased(line, x).1 <= seq_width(erased(line, x).0),
        erased(line, x).1 <= x,
{
    lemma_split_index(line, x as nat);
    let k = split_index(line, x as nat);
    if x != 0 && k != 0 {
        lemma_width_remove(line, k - 1);
    }
}

/// Typing a character and erasing at once gives back the line and the
/// column, provided the character has a width, the column stood on a
/// character boundary or within the new character's width of one, and the
/// advanced column fits the machine word.
pub proof fn lemma_insert_then_erase(line: Seq<char>, x: usize, c: char)
    requires
        x <= seq_width(line),
        spec_char_width(c) > 0,
        seq_width(line.take(split_index(line, x as nat))) < x + spec_char_width(c),
        x + spec_char_width(c) <= usize::MAX,
    ensures
        erased(inserted(line, x, c).0, inserted(line, x, c).1) == (line, x),
{
    let k = split_index(line, x as nat);
    let w = spec_char_width(c);
    let n = line.insert(k, c);
    let nx = (x + w) as usize;
    lemma_split_index(line, x as nat);
    lemma_width_insert(line, k, c);
    lemma_split_index_is(n, nx as nat, k + 1);
}

/// Puts `c` into `line` at the boundary of column `x` and returns the column
/// after it.
pub fn insert_at(line: &mut Vec<char>, x: usize, c: char) -> (nx: usize)
    ensures
        (final(line)@, nx) == inserted(old(line)@, x, c),
        x <= seq_width(old(line)@) ==> nx <= seq_width(final(line)@),
{
    let k = boundary(line.as_slice(), x);
    let w = char_width(c);
    proof {
        if x <= seq_width(line@) {
            lemma_inserted_valid(line@, x, c);
        }
    }
    line.insert(k, c);
    x.saturating_add(w)
}

/// Takes out of `line` the character that ends at the boundary of column
/// `x` and returns the column before it.
pub fn erase_before(line: &mut Vec<char>, x: usize) -> (nx: usize)
    ensures
        (final(line)@, nx) == erased(old(line)@, x),
        x <= seq_width(old(line)@) ==> nx <= seq_width(final(line)@),
        nx <= x,
{
    if x == 0 {
        return x;
    }
    let k = boundary(line.as_slice(), x);
    if k == 0 {
        return x;
    }
    proof {
        if x <= seq_width(line@) {
            lemma_erased_valid(line@, x);
        }
    }
    let c = line.remove(k - 1);
    let w = char_width(c);
    x.saturating_sub(w)
}

/// The column one step to the left of `x`.
pub fn step_left(line: &[char], x: usize) -> (nx: usize)
    ensures
        nx == stepped_left(line@, x),
        x <= seq_width(line@) ==> nx <= seq_width(line@),
        nx <= x,
{
    if x == 0 {
        return x;
    }
    let k = boundary(line, x);
    if k == 0 {
        return x;
    }
    let w = char_width(line[k - 1]);
    x.saturating_sub(w)
}

/// The column one step to the right of `x`.
pub fn step_right(line: &[char], x: usize) -> (nx: usize)
    ensures
        nx == stepped_right(line@, x),
        x <= seq_width(line@) ==> nx <= seq_width(line@),
{
    let end = chars_width(line);
    if x >= end {
        return x;
    }
    let k = boundary(line, x + 1);
    if k == 0 {
        return x;
    }
    let w = char_width(line[k - 1]);
    let nx = x.saturating_add(w);
    if nx <= end {
        nx
    } else {
        end
    }
}

} // verus!
