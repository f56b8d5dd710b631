//! Conversions between strings and character vectors, and between the text of
//! a file and the lines of a document.

use vstd::prelude::*;
use vstd::string::StringExecFns;

verus! {

/// `String::push` appends one character to the end of the string.
pub assume_specification[ String::push ](s: &mut String, ch: char)
    ensures
        final(s)@ == old(s)@.push(ch),
;

/// The characters of each line of a vector of character vectors.
pub open spec fn lines_view(v: Seq<Vec<char>>) -> Seq<Seq<char>> {
    Seq::new(v.len(), |i: int| v[i]@)
}

/// The characters of each string of a vector of strings.
pub open spec fn strings_view(v: Seq<String>) -> Seq<Seq<char>> {
    Seq::new(v.len(), |i: int| v[i]@)
}

/// The characters of a string, one by one.
pub fn chars_of(s: &str) -> (v: Vec<char>)
    ensures
        v@ == s@,
{
    let mut v: Vec<char> = Vec::new();
    for c in it: s.chars()
        invariant
            it.seq() == s@,
            v@ == s@.take(it.index() as int),
    {
        v.push(c);
    }
    v
}

/// The string made of the characters `v[from..to]`.
pub fn string_of(v: &[char], from: usize, to: usize) -> (s: String)
    requires
        from <= to <= v@.len(),
    ensures
        s@ == v@.subrange(from as int, to as int),
{
    let mut s = String::new();
    let mut i: usize = from;
    while i < to
        invariant
            from <= i <= to <= v@.len(),
            s@ == v@.subrange(from as int, i as int),
        decreases to - i,
    {
        s.push(v[i]);
        i += 1;
    }
    s
}

/// A copy of a vector of characters.
pub fn copy_chars(v: &Vec<char>) -> (r: Vec<char>)
    ensures
        r@ == v@,
{
    let mut r: Vec<char> = Vec::new();
    let mut i: usize = 0;
    while i < v.len()
        invariant
            i <= v.len(),
            r@ == v@.take(i as int),
        decreases v.len() - i,
    {
        r.push(v[i]);
        i += 1;
    }
    r
}

/// A copy of a vector of lines.
pub fn copy_lines(b: &Vec<Vec<char>>) -> (r: Vec<Vec<char>>)
    ensures
        lines_view(r@) == lines_view(b@),
{
    let mut r: Vec<Vec<char>> = Vec::new();
    let mut i: usize = 0;
    while i < b.len()
        invariant
            i <= b.len(),
            r.len() == i,
            forall|j: int| 0 <= j < i ==> r[j]@ == b[j]@,
        decreases b.len() - i,
    {
        r.push(copy_chars(&b[i]));
        i += 1;
    }
    r
}

/// Whether two vectors of lines hold the same text.
pub fn same_lines(a: &Vec<Vec<char>>, b: &Vec<Vec<char>>) -> (r: bool)
    ensures
        r == (lines_view(a@) == lines_view(b@)),
{
    if a.len() != b.len() {
        return false;
    }
    let mut i: usize = 0;
    while i < a.len()
        invariant
            i <= a.len(),
            a.len() == b.len(),
            forall|j: int| 0 <= j < i ==> a[j]@ == b[j]@,
        decreases a.len() - i,
    {
        if !same_chars(&a[i], &b[i]) {
            proof {
                assert(lines_view(b@)[i as int] == b[i as int]@);
            }
            return false;
        }
        i += 1;
    }
    proof {
        assert(lines_view(a@) =~= lines_view(b@));
    }
    true
}

/// Whether two vectors hold the same characters.
pub fn same_chars(a: &Vec<char>, b: &Vec<char>) -> (r: bool)
    ensures
        r == (a@ == b@),
{
    if a.len() != b.len() {
        return false;
    }
    let mut i: usize = 0;
    while i < a.len()
        invariant
            i <= a.len(),
            a.len() == b.len(),
            forall|j: int| 0 <= j < i ==> a[j] == b[j],
        decreases a.len() - i,
    {
        if a[i] != b[i] {
            return false;
        }
        i += 1;
    }
    proof {
        assert(a@ =~= b@);
    }
    true
}

/// The lines of a vector of strings, as character vectors.
pub fn lines_of_strings(b: &Vec<String>) -> (r: Vec<Vec<char>>)
    ensures
        lines_view(r@) == strings_view(b@),
{
    let mut r: Vec<Vec<char>> = Vec::new();
    let mut i: usize = 0;
    while i < b.len()
        invariant
            i <= b.len(),
            r.len() == i,
            forall|j: int| 0 <= j < i ==> r[j]@ == b[j]@,
        decreases b.len() - i,
    {
        r.push(chars_of(b[i].as_str()));
        i += 1;
    }
    proof {
        assert(lines_view(r@) =~= strings_view(b@));
    }
    r
}

/// The lines of a vector of character vectors, as strings.
pub fn strings_of_lines(b: &Vec<Vec<char>>) -> (r: Vec<String>)
    ensures
        strings_view(r@) == lines_view(b@),
{
    let mut r: Vec<String> = Vec::new();
    let mut i: usize = 0;
    while i < b.len()
        invariant
            i <= b.len(),
            r.len() == i,
            forall|j: int| 0 <= j < i ==> r[j]@ == b[j]@,
        decreases b.len() - i,
    {
        let line = &b[i];
        let s = string_of(line.as_slice(), 0, line.len());
        r.push(s);
        i += 1;
    }
    r
}

/// The text that a document is saved as: every line followed by one newline.
pub open spec fn joined(lines: Seq<Seq<char>>) -> Seq<char>
    decreases lines.len(),
{
    if lines.len() == 0 {
        Seq::<char>::empty()
    } else {
        joined(lines.drop_last()) + lines.last() + seq!['\n']
    }
}

/// The text to write for a document: its lines, each ended by a newline.
/// For a document of at least one line this is the lines joined by newlines
/// with one trailing newline appended.
pub fn text_of_lines(lines: &Vec<String>) -> (t: String)
    ensures
        t@ == joined(strings_view(lines@)),
{
    let mut t = String::new();
    let mut i: usize = 0;
    while i < lines.len()
        invariant
            i <= lines.len(),
            t@ == joined(strings_view(lines@).take(i as int)),
        decreases lines.len() - i,
    {
        proof {
            let v = strings_view(lines@);
            assert(v.take(i + 1).drop_last() =~= v.take(i as int));
        }
        t.append(lines[i].as_str());
        t.push('\n');
        i += 1;
    }
    proof {
        let v = strings_view(lines@);
        assert(v.take(lines.len() as int) =~= v);
    }
    t
}

/// The index of the first newline of `t` at or after `from`, or the length
/// of `t` where there is none.
pub open spec fn line_end(t: Seq<char>, from: int) -> int
    decreases t.len() - from,
{
    if from >= t.len() {
        t.len() as int
    } else if t[from] == '\n' {
        from
    } else {
        line_end(t, from + 1)
    }
}

/// A line as it was read up to its terminator, without the carriage return
/// of a `\r\n` terminator.
pub open spec fn without_cr(raw: Seq<char>, terminated: bool) -> Seq<char> {
    if terminated && raw.len() > 0 && raw.last() == '\r' {
        raw.drop_last()
    } else {
        raw
    }
}

/// The lines of a text from position `from` on. A line ends at a newline or
/// at a carriage return and newline; the last line may lack its terminator,
/// and a text that ends with a terminator has no empty line after it.
pub open spec fn split_from(t: Seq<char>, from: int) -> Seq<Seq<char>>
    decreases t.len() + 1 - from,
{
    if from < 0 || from >= t.len() {
        Seq::<Seq<char>>::empty()
    } else {
        let e = line_end(t, from);
        proof {
            lemma_line_end_bounds(t, from);
        }
        seq![without_cr(t.subrange(from, e), e < t.len())] + split_from(t, e + 1)
    }
}

/// The lines of a text.
pub open spec fn split_lines(t: Seq<char>) -> Seq<Seq<char>> {
    split_from(t, 0)
}

/// The end of a line lies at or after its start, at the first newline there is.
pub proof fn lemma_line_end_bounds(t: Seq<char>, from: int)
    requires
        0 <= from <= t.len(),
    ensures
        from <= line_end(t, from) <= t.len(),
        line_end(t, from) < t.len() ==> t[line_end(t, from)] == '\n',
        forall|j: int| from <= j < line_end(t, from) ==> t[j] != '\n',
    decreases t.len() - from,
{
    if from < t.len() && t[from] != '\n' {
        lemma_line_end_bounds(t, from + 1);
    }
}

/// The lines of the text of a file.
pub fn lines_of_text(text: &str) -> (lines: Vec<String>)
    ensures
        strings_view(lines@) == split_lines(text@),
{
    let t = chars_of(text);
    let n = t.len();
    let mut lines: Vec<String> = Vec::new();
    let mut from: usize = 0;
    while from < n
        invariant
            n == t@.len(),
            t@ == text@,
            from <= n,
            strings_view(lines@) + split_from(t@, from as int) == split_from(t@, 0),
        decreases n - from,
    {
        let mut e: usize = from;
        while e < n && t[e] != '\n'
            invariant
                n == t@.len(),
                from <= e <= n,
                line_end(t@, from as int) == line_end(t@, e as int),
            decreases n - e,
        {
            e += 1;
        }
        let terminated = e < n;
        let stop = if terminated && e > from && t[e - 1] == '\r' {
            e - 1
        } else {
            e
        };
        let s = string_of(t.as_slice(), from, stop);
        proof {
            let raw = t@.subrange(from as int, e as int);
            assert(s@ == without_cr(raw, terminated));
            let next = strings_view(lines@.push(s));
            assert(next + split_from(t@, e + 1) =~= strings_view(lines@) + (seq![s@] + split_from(
                t@,
                e + 1,
            )));
        }
        lines.push(s);
        if terminated {
            from = e + 1;
        } else {
            from = e;
        }
    }
    lines
}

} // verus!
