//! From an approximate line and a symbol to an exact place in a file.

use vstd::prelude::*;

use crate::error::QueryError;
use crate::lines::{line_views, lines_of, split_lines};
use crate::text::{contains_text, find, first_occurrence, to_chars};

verus! {

/// A place in a file: line and character offset within it, both 0-based.
#[derive(Debug, Clone, Copy, PartialEq, Eq, Structural)]
pub struct Position {
    pub line: usize,
    pub character: usize,
}

/// The 0-based index of the 1-based `line`; line 0 is taken as line 1.
pub open spec fn line_index(line: u32) -> int {
    if line == 0 {
        0
    } else {
        line - 1
    }
}

/// Line `l` exists and holds `symbol`.
pub open spec fn holds_symbol(lines: Seq<Seq<char>>, symbol: Seq<char>, l: int) -> bool {
    0 <= l < lines.len() && contains_text(lines[l], symbol)
}

/// The line on which `symbol` is taken to stand when a caller points at
/// line `idx`: that line if it holds the symbol; else the nearest line
/// within two that does, an earlier line before a later one at the same
/// distance.
pub open spec fn nearest_line(lines: Seq<Seq<char>>, symbol: Seq<char>, idx: int) -> Option<int> {
    if holds_symbol(lines, symbol, idx) {
        Some(idx)
    } else if holds_symbol(lines, symbol, idx - 1) {
        Some(idx - 1)
    } else if holds_symbol(lines, symbol, idx + 1) {
        Some(idx + 1)
    } else if holds_symbol(lines, symbol, idx - 2) {
        Some(idx - 2)
    } else if holds_symbol(lines, symbol, idx + 2) {
        Some(idx + 2)
    } else {
        None
    }
}

/// The place of `symbol` near the 1-based `line`, as line and character
/// offset: the first occurrence on the nearest line that holds it. `None`
/// when the line lies beyond the file or no line within two holds it.
pub open spec fn located(lines: Seq<Seq<char>>, line: u32, symbol: Seq<char>) -> Option<
    (int, int),
> {
    if line_index(line) >= lines.len() {
        None
    } else {
        match nearest_line(lines, symbol, line_index(line)) {
            Some(l) => Some((l, first_occurrence(lines[l], symbol).unwrap())),
            None => None,
        }
    }
}

/// `e` is the error owed when `symbol` cannot be placed near `line`:
/// `LineOutOfBounds` when the line lies beyond the file, else
/// `SymbolNotFound`.
pub open spec fn position_fault(lines: Seq<Seq<char>>, line: u32, symbol: Seq<char>, e: QueryError) -> bool {
    &&& located(lines, line, symbol) is None
    &&& if line_index(line) >= lines.len() {
        e == (QueryError::LineOutOfBounds { line, lines: lines.len() as usize })
    } else {
        e matches QueryError::SymbolNotFound { symbol: s, line: l } && s@ == symbol && l == line
    }
}

/// The offset of `symbol` on line `l`, if the line holds it.
fn probe(lines: &Vec<Vec<char>>, symbol: &Vec<char>, l: usize) -> (r: Option<usize>)
    requires
        l < lines.len(),
    ensures
        r is Some <==> holds_symbol(line_views(lines@), symbol@, l as int),
        r matches Some(c) ==> first_occurrence(line_views(lines@)[l as int], symbol@) == Some(
            c as int,
        ),
{
    proof {
        assert(line_views(lines@)[l as int] == lines@[l as int]@);
    }
    find(&lines[l], symbol)
}

/// Resolves the approximate `line` (1-based) and `symbol` to an exact
/// place in the text `contents`.
///
/// Fails with `LineOutOfBounds` when the line lies beyond the file, and
/// with `SymbolNotFound` when neither the line nor a line within two of it
/// holds the symbol.
pub fn find_symbol_position(contents: &str, line: u32, symbol: &str) -> (r: Result<
    Position,
    QueryError,
>)
    ensures
        match r {
            Ok(p) => located(lines_of(contents@), line, symbol@) == Some(
                (p.line as int, p.character as int),
            ),
            Err(e) => position_fault(lines_of(contents@), line, symbol@, e),
        },
{
    let chars = to_chars(contents);
    let lines = split_lines(&chars);
    let sym = to_chars(symbol);
    let idx: usize = if line == 0 {
        0
    } else {
        (line - 1) as usize
    };
    let n = lines.len();
    if idx >= n {
        return Err(QueryError::LineOutOfBounds { line, lines: n });
    }
    if let Some(c) = probe(&lines, &sym, idx) {
        return Ok(Position { line: idx, character: c });
    }
    if idx >= 1 {
        if let Some(c) = probe(&lines, &sym, idx - 1) {
            return Ok(Position { line: idx - 1, character: c });
        }
    }
    if n - idx > 1 {
        if let Some(c) = probe(&lines, &sym, idx + 1) {
            return Ok(Position { line: idx + 1, character: c });
        }
    }
    if idx >= 2 {
        if let Some(c) = probe(&lines, &sym, idx - 2) {
            return Ok(Position { line: idx - 2, character: c });
        }
    }
    if n - idx > 2 {
        if let Some(c) = probe(&lines, &sym, idx + 2) {
            return Ok(Position { line: idx + 2, character: c });
        }
    }
    Err(QueryError::SymbolNotFound { symbol: symbol.to_owned(), line })
}

/// Where a line holds the symbol, it is found there, at the symbol's first
/// occurrence on that line.
pub proof fn lemma_exact_line(lines: Seq<Seq<char>>, line: u32, symbol: Seq<char>)
    requires
        holds_symbol(lines, symbol, line_index(line)),
    ensures
        located(lines, line, symbol) == Some(
            (line_index(line), first_occurrence(lines[line_index(line)], symbol).unwrap()),
        ),
{
}

/// Where the symbol stands two lines before the line given and on none of
/// the three lines around that one, the earlier line is found.
pub proof fn lemma_two_lines_earlier(lines: Seq<Seq<char>>, line: u32, symbol: Seq<char>)
    requires
        line_index(line) < lines.len(),
        holds_symbol(lines, symbol, line_index(line) - 2),
        !holds_symbol(lines, symbol, line_index(line)),
        !holds_symbol(lines, symbol, line_index(line) - 1),
        !holds_symbol(lines, symbol, line_index(line) + 1),
    ensures
        located(lines, line, symbol) matches Some((l, _)) && l == line_index(line) - 2,
{
}

/// Where no line within two of the line given holds the symbol, nothing
/// is found.
pub proof fn lemma_not_near(lines: Seq<Seq<char>>, line: u32, symbol: Seq<char>)
    requires
        forall|l: int| line_index(line) - 2 <= l <= line_index(line) + 2 ==> !holds_symbol(
            lines,
            symbol,
            l,
        ),
    ensures
        located(lines, line, symbol) is None,
{
}

} // verus!
