//! Display widths of characters and strings, measured in terminal columns.

use unicode_width::UnicodeWidthChar;
use vstd::prelude::*;

verus! {

/// The width that the `unicode-width` tables assign to a character, or `None`
/// for a control character.
pub uninterp spec fn table_width(c: char) -> Option<usize>;

/// Looks a character up with `UnicodeWidthChar::width`.
///
/// Trusted: the result is the table's entry for `c`; a table entry is at most
/// three columns; the printable ASCII characters are one column wide; the
/// control characters below U+00A0 have no entry.
#[verifier::external_body]
fn lookup_width(c: char) -> (r: Option<usize>)
    ensures
        r == table_width(c),
        r matches Some(w) ==> w <= 3,
        0x20 <= c as u32 && (c as u32) < 0x7f ==> r == Some(1usize),
        (c as u32) < 0x20 || (0x7f <= c as u32 && (c as u32) < 0xa0) ==> r is None,
{
    UnicodeWidthChar::width(c)
}

/// Columns that one character occupies: its table entry, and zero for a
/// control character.
pub open spec fn spec_char_width(c: char) -> nat {
    match table_width(c) {
        Some(w) => w as nat,
        None => 0,
    }
}

/// Columns that a sequence of characters occupies: the sum of the widths of
/// its characters.
pub open spec fn seq_width(s: Seq<char>) -> nat
    decreases s.len(),
{
    if s.len() == 0 {
        0
    } else {
        seq_width(s.drop_last()) + spec_char_width(s.last())
    }
}

/// A count held to the machine word: itself where it fits, and the largest
/// `usize` where it is greater.
pub open spec fn clip(n: int) -> usize {
    if n < 0 {
        0
    } else if n <= usize::MAX {
        n as usize
    } else {
        usize::MAX
    }
}

/// The width of a sequence of characters as a machine integer. It is the sum
/// of the character widths wherever that sum fits a `usize`.
pub open spec fn columns(s: Seq<char>) -> usize {
    clip(seq_width(s) as int)
}

/// Columns that one character occupies.
pub fn char_width(c: char) -> (w: usize)
    ensures
        w == spec_char_width(c),
        w <= 3,
        0x20 <= c as u32 && (c as u32) < 0x7f ==> w == 1,
        (c as u32) < 0x20 || (0x7f <= c as u32 && (c as u32) < 0xa0) ==> w == 0,
{
    match lookup_width(c) {
        Some(w) => w,
        None => 0,
    }
}

/// The width of a one-character sequence is the width of that character.
pub proof fn lemma_width_single(c: char)
    ensures
        seq_width(seq![c]) == spec_char_width(c),
{
    let s = seq![c];
    assert(seq_width(s.drop_last()) == 0);
}

/// The width of a concatenation is the sum of the widths of its parts, so the
/// width of a string is the sum over its characters however it is cut.
pub proof fn lemma_width_concat(a: Seq<char>, b: Seq<char>)
    ensures
        seq_width(a + b) == seq_width(a) + seq_width(b),
    decreases b.len(),
{
    if b.len() > 0 {
        lemma_width_concat(a, b.drop_last());
        assert((a + b).drop_last() =~= a + b.drop_last());
    }
}

/// Adding a character at the end adds its width.
pub proof fn lemma_width_push(s: Seq<char>, c: char)
    ensures
        seq_width(s.push(c)) == seq_width(s) + spec_char_width(c),
{
    assert(s.push(c).drop_last() =~= s);
}

/// A prefix is never wider than a longer prefix.
pub proof fn lemma_width_take_le(s: Seq<char>, i: int, j: int)
    requires
        0 <= i <= j <= s.len(),
    ensures
        seq_width(s.take(i)) <= seq_width(s.take(j)),
        seq_width(s.take(j)) == seq_width(s.take(i)) + seq_width(s.subrange(i, j)),
{
    assert(s.take(j) =~= s.take(i) + s.subrange(i, j));
    lemma_width_concat(s.take(i), s.subrange(i, j));
}

/// One more character in a prefix adds that character's width.
pub proof fn lemma_width_take_step(s: Seq<char>, i: int)
    requires
        0 <= i < s.len(),
    ensures
        seq_width(s.take(i + 1)) == seq_width(s.take(i)) + spec_char_width(s[i]),
{
    assert(s.take(i + 1) =~= s.take(i).push(s[i]));
    lemma_width_push(s.take(i), s[i]);
}

/// A sequence splits into a prefix and the rest without changing the width.
pub proof fn lemma_width_split(s: Seq<char>, k: int)
    requires
        0 <= k <= s.len(),
    ensures
        seq_width(s) == seq_width(s.take(k)) + seq_width(s.skip(k)),
{
    assert(s =~= s.take(k) + s.skip(k));
    lemma_width_concat(s.take(k), s.skip(k));
}

/// The width of a slice of characters, held to the machine word.
pub fn chars_width(v: &[char]) -> (r: usize)
    ensures
        r == columns(v@),
{
    let mut acc: usize = 0;
    let mut i: usize = 0;
    while i < v.len()
        invariant
            i <= v.len(),
            acc == columns(v@.take(i as int)),
        decreases v.len() - i,
    {
        let w = char_width(v[i]);
        proof {
            lemma_width_take_step(v@, i as int);
        }
        acc = acc.saturating_add(w);
        i += 1;
    }
    proof {
        assert(v@.take(v.len() as int) =~= v@);
    }
    acc
}

/// The width of a string, held to the machine word: the sum of the widths of
/// its characters wherever that sum fits a `usize`.
pub fn str_width(s: &str) -> (r: usize)
    ensures
        r == columns(s@),
        seq_width(s@) <= usize::MAX ==> r == seq_width(s@),
{
    let mut acc: usize = 0;
    for c in it: s.chars()
        invariant
            it.seq() == s@,
            acc == columns(s@.take(it.index() as int)),
    {
        let w = char_width(c);
        proof {
            lemma_width_take_step(s@, it.index() as int);
        }
        acc = acc.saturating_add(w);
    }
    proof {
        assert(s@.take(s@.len() as int) =~= s@);
    }
    acc
}

} // verus!
