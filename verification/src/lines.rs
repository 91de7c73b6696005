//! Splitting text into lines and trimming whitespace.

use vstd::prelude::*;

verus! {

/// The number of characters before the first `'\n'` of `text`
/// (`text.len()` when it holds none).
pub open spec fn first_newline(text: Seq<char>) -> nat
    decreases text.len(),
{
    if text.len() == 0 || text[0] == '\n' {
        0
    } else {
        1 + first_newline(text.drop_first())
    }
}

/// A line without the carriage return that stood before its newline.
pub open spec fn strip_cr(line: Seq<char>) -> Seq<char> {
    if line.len() > 0 && line.last() == '\r' {
        line.drop_last()
    } else {
        line
    }
}

/// The lines of `text`: split after each `'\n'`; the terminator `"\n"` or
/// `"\r\n"` belongs to no line, and a final line needs no terminator.
pub open spec fn lines_of(text: Seq<char>) -> Seq<Seq<char>>
    decreases text.len(),
{
    if text.len() == 0 {
        seq![]
    } else {
        let k = first_newline(text);
        if k >= text.len() {
            seq![text]
        } else {
            seq![strip_cr(text.take(k as int))] + lines_of(text.skip(k as int + 1))
        }
    }
}

/// The views of the lines held in `lines`.
pub open spec fn line_views(lines: Seq<Vec<char>>) -> Seq<Seq<char>> {
    Seq::new(lines.len(), |i: int| lines[i]@)
}

/// `first_newline` is the place of the first newline.
pub proof fn lemma_first_newline(text: Seq<char>)
    ensures
        0 <= first_newline(text) <= text.len(),
        first_newline(text) < text.len() ==> text[first_newline(text) as int] == '\n',
        forall|j: int| 0 <= j < first_newline(text) ==> text[j] != '\n',
    decreases text.len(),
{
    if text.len() == 0 || text[0] == '\n' {
    } else {
        let rest = text.drop_first();
        lemma_first_newline(rest);
        assert forall|j: int| 0 <= j < first_newline(text) implies text[j] != '\n' by {
            if j > 0 {
                assert(text[j] == rest[j - 1]);
            }
        }
    }
}

/// A newline-free prefix of length `m` that ends the text or is followed by
/// a newline fixes `first_newline`.
pub proof fn lemma_first_newline_is(text: Seq<char>, m: int)
    requires
        0 <= m <= text.len(),
        forall|j: int| 0 <= j < m ==> text[j] != '\n',
        m == text.len() || text[m] == '\n',
    ensures
        first_newline(text) == m as nat,
{
    lemma_first_newline(text);
    let k = first_newline(text) as int;
    if k < m {
        assert(text[k] == '\n');
    } else if m < k {
        assert(text[m] != '\n');
    }
}

/// No line holds a newline.
pub proof fn lemma_lines_hold_no_newline(text: Seq<char>)
    ensures
        forall|i: int, j: int|
            0 <= i < lines_of(text).len() && 0 <= j < lines_of(text)[i].len() ==> lines_of(
                text,
            )[i][j] != '\n',
    decreases text.len(),
{
    if text.len() > 0 {
        lemma_first_newline(text);
        let k = first_newline(text) as int;
        if k < text.len() {
            let head = strip_cr(text.take(k));
            let rest = lines_of(text.skip(k + 1));
            lemma_lines_hold_no_newline(text.skip(k + 1));
            assert forall|i: int, j: int|
                0 <= i < lines_of(text).len() && 0 <= j < lines_of(text)[i].len() implies lines_of(
                text,
            )[i][j] != '\n' by {
                if i == 0 {
                    assert(lines_of(text)[0] == head);
                    assert(head[j] == text[j]);
                } else {
                    assert(lines_of(text)[i] == rest[i - 1]);
                }
            }
        }
    }
}

/// The lines of `text`.
pub fn split_lines(text: &Vec<char>) -> (lines: Vec<Vec<char>>)
    ensures
        line_views(lines@) == lines_of(text@),
{
    let n = text.len();
    let mut lines: Vec<Vec<char>> = Vec::new();
    let mut cur: Vec<char> = Vec::new();
    let mut start: usize = 0;
    let mut i: usize = 0;
    proof {
        assert(text@.skip(0) =~= text@);
        assert(line_views(lines@) =~= Seq::<Seq<char>>::empty());
    }
    while i < n
        invariant
            n == text.len(),
            start <= i <= n,
            cur@ == text@.subrange(start as int, i as int),
            forall|j: int| start <= j < i ==> text@[j] != '\n',
            lines_of(text@) == line_views(lines@) + lines_of(text@.skip(start as int)),
        decreases n - i,
    {
        let c = text[i];
        if c == '\n' {
            let ghost rest = text@.skip(start as int);
            let ghost k = i - start;
            proof {
                assert forall|j: int| 0 <= j < k implies rest[j] != '\n' by {
                    assert(rest[j] == text@[start + j]);
                }
                assert(rest[k] == '\n');
                lemma_first_newline_is(rest, k);
                assert(rest.take(k) =~= cur@);
                assert(rest.skip(k + 1) =~= text@.skip(i + 1));
            }
            let ghost before = cur@;
            if cur.len() > 0 && cur[cur.len() - 1] == '\r' {
                cur.pop();
            }
            proof {
                assert(cur@ =~= strip_cr(before));
            }
            let ghost old_lines = lines@;
            lines.push(cur);
            proof {
                assert(line_views(lines@) =~= line_views(old_lines) + seq![strip_cr(before)]);
            }
            cur = Vec::new();
            start = i + 1;
            proof {
                assert(cur@ =~= text@.subrange(start as int, start as int));
            }
        } else {
            cur.push(c);
            proof {
                assert(cur@ =~= text@.subrange(start as int, i + 1));
            }
        }
        i += 1;
    }
    let ghost rest = text@.skip(start as int);
    if start < n {
        proof {
            assert forall|j: int| 0 <= j < rest.len() implies rest[j] != '\n' by {
                assert(rest[j] == text@[start + j]);
            }
            lemma_first_newline_is(rest, rest.len() as int);
            assert(rest =~= cur@);
        }
        let ghost old_lines = lines@;
        lines.push(cur);
        proof {
            assert(line_views(lines@) =~= line_views(old_lines) + seq![rest]);
        }
    } else {
        proof {
            assert(rest.len() == 0);
            assert(line_views(lines@) + lines_of(rest) =~= line_views(lines@));
        }
    }
    lines
}

/// Names what `char::is_whitespace` returns: whether `c` has the Unicode
/// property White_Space.
pub uninterp spec fn is_whitespace(c: char) -> bool;

/// `char::is_whitespace`.
#[verifier::external_body]
fn char_is_whitespace(c: char) -> (b: bool)
    ensures
        b == is_whitespace(c),
{
    c.is_whitespace()
}

/// `s` without its leading whitespace.
pub open spec fn trim_start(s: Seq<char>) -> Seq<char>
    decreases s.len(),
{
    if s.len() > 0 && is_whitespace(s[0]) {
        trim_start(s.drop_first())
    } else {
        s
    }
}

/// `s` without its trailing whitespace.
pub open spec fn trim_end(s: Seq<char>) -> Seq<char>
    decreases s.len(),
{
    if s.len() > 0 && is_whitespace(s.last()) {
        trim_end(s.drop_last())
    } else {
        s
    }
}

/// `s` without leading and trailing whitespace.
pub open spec fn trimmed(s: Seq<char>) -> Seq<char> {
    trim_end(trim_start(s))
}

/// Trimming at the end leaves a prefix that is empty or ends in a
/// character that is no whitespace.
pub proof fn lemma_trim_end(s: Seq<char>)
    ensures
        trim_end(s).len() <= s.len(),
        trim_end(s) == s.take(trim_end(s).len() as int),
        trim_end(s).len() > 0 ==> !is_whitespace(trim_end(s).last()),
    decreases s.len(),
{
    if s.len() > 0 && is_whitespace(s.last()) {
        lemma_trim_end(s.drop_last());
        let t = trim_end(s);
        assert(s.drop_last().take(t.len() as int) =~= s.take(t.len() as int));
    } else {
        assert(s.take(s.len() as int) =~= s);
    }
}

/// Trimming at the start leaves a suffix that is empty or begins with a
/// character that is no whitespace.
pub proof fn lemma_trim_start(s: Seq<char>)
    ensures
        trim_start(s).len() <= s.len(),
        trim_start(s) == s.skip(s.len() - trim_start(s).len()),
        trim_start(s).len() > 0 ==> !is_whitespace(trim_start(s)[0]),
    decreases s.len(),
{
    if s.len() > 0 && is_whitespace(s[0]) {
        lemma_trim_start(s.drop_first());
        let t = trim_start(s);
        assert(s.drop_first().skip(s.len() - 1 - t.len()) =~= s.skip(s.len() - t.len()));
    } else {
        assert(s.skip(0) =~= s);
    }
}

/// What is left after trimming neither begins nor ends with whitespace,
/// and is a piece of the text it was taken from.
pub proof fn lemma_trimmed(s: Seq<char>)
    ensures
        trimmed(s).len() > 0 ==> !is_whitespace(trimmed(s)[0]) && !is_whitespace(
            trimmed(s).last(),
        ),
        exists|from: int|
            0 <= from && from + trimmed(s).len() <= s.len() && trimmed(s) == #[trigger] s.subrange(
                from,
                from + trimmed(s).len(),
            ),
{
    lemma_trim_start(s);
    let body = trim_start(s);
    lemma_trim_end(body);
    let t = trimmed(s);
    let from = s.len() - body.len();
    if t.len() > 0 {
        assert(t[0] == body[0]);
    }
    assert(t =~= s.subrange(from, from + t.len()));
}

/// `s` without leading and trailing whitespace.
pub fn trim(s: &Vec<char>) -> (t: Vec<char>)
    ensures
        t@ == trimmed(s@),
{
    let n = s.len();
    let mut lo: usize = 0;
    proof {
        assert(s@.skip(0) =~= s@);
    }
    while lo < n && char_is_whitespace(s[lo])
        invariant
            n == s.len(),
            lo <= n,
            trim_start(s@) == trim_start(s@.skip(lo as int)),
        decreases n - lo,
    {
        proof {
            assert(s@.skip(lo as int).drop_first() =~= s@.skip(lo + 1));
        }
        lo += 1;
    }
    let ghost body = s@.skip(lo as int);
    proof {
        assert(body.len() > 0 ==> body[0] == s@[lo as int]);
        assert(trim_start(s@) == body);
        assert(s@.subrange(lo as int, n as int) =~= body);
    }
    let mut hi: usize = n;
    while hi > lo && char_is_whitespace(s[hi - 1])
        invariant
            n == s.len(),
            lo <= hi <= n,
            trim_end(body) == trim_end(s@.subrange(lo as int, hi as int)),
        decreases hi - lo,
    {
        proof {
            let cur = s@.subrange(lo as int, hi as int);
            assert(cur.last() == s@[hi - 1]);
            assert(cur.drop_last() =~= s@.subrange(lo as int, hi - 1));
        }
        hi -= 1;
    }
    proof {
        let cur = s@.subrange(lo as int, hi as int);
        if cur.len() > 0 {
            assert(cur.last() == s@[hi - 1]);
        }
        assert(trim_end(body) == cur);
    }
    let mut t: Vec<char> = Vec::new();
    let mut i: usize = lo;
    while i < hi
        invariant
            lo <= i <= hi <= s.len(),
            t@ == s@.subrange(lo as int, i as int),
        decreases hi - i,
    {
        t.push(s[i]);
        proof {
            assert(t@ =~= s@.subrange(lo as int, i + 1));
        }
        i += 1;
    }
    t
}

} // verus!
