//! Turning the engine's answers into the text shown to the user.

use vstd::prelude::*;

use crate::error::QueryError;
use crate::lines::{line_views, lines_of, split_lines, trim, trimmed};
use crate::numbers::{decimal, push_decimal};
use crate::paths::{display_name, file_name, relative_to, workspace_relative};
use crate::text::{
    contains, contains_text, from_chars, joined, push_all, push_str, string_views, to_chars,
};

verus! {

/// One fragment of hover content: plain text, or code in a named language.
#[derive(Debug, Clone)]
pub enum MarkedString {
    String(String),
    LanguageString { language: String, value: String },
}

/// What the engine returns for a hover request.
#[derive(Debug, Clone)]
pub enum HoverContents {
    Scalar(MarkedString),
    Array(Vec<MarkedString>),
    Markup(String),
}

/// A range of lines in a file, as the engine names it; lines are 0-based.
#[derive(Debug, Clone)]
pub struct Location {
    pub path: String,
    pub start_line: u32,
    pub end_line: u32,
}

/// What the engine returns for a go-to-definition request that found
/// something: one place, several places, or several links to places.
#[derive(Debug, Clone)]
pub enum DefinitionReply {
    Scalar(Location),
    Array(Vec<Location>),
    Link(Vec<Location>),
}

/// A place that refers to a symbol, with the current text of its file.
#[derive(Debug, Clone)]
pub struct ReferenceSource {
    pub location: Location,
    pub contents: String,
}

/// A fragment as shown: plain text as it is, code in a fence that carries
/// its language.
pub open spec fn marked_text(m: MarkedString) -> Seq<char> {
    match m {
        MarkedString::String(s) => s@,
        MarkedString::LanguageString { language, value } => "```"@ + language@ + "\n"@ + value@
            + "\n```"@,
    }
}

/// The fragments of `ms` as shown, in order.
pub open spec fn marked_texts(ms: Seq<MarkedString>) -> Seq<Seq<char>> {
    Seq::new(ms.len(), |i: int| marked_text(ms[i]))
}

/// Hover content as shown: all fragments, a blank line between each two.
pub open spec fn hover_text(contents: HoverContents) -> Seq<char> {
    match contents {
        HoverContents::Scalar(m) => marked_text(m),
        HoverContents::Array(ms) => joined(marked_texts(ms@), "\n\n"@),
        HoverContents::Markup(value) => value@,
    }
}

fn push_marked(out: &mut Vec<char>, m: &MarkedString)
    ensures
        final(out)@ == old(out)@ + marked_text(*m),
{
    match m {
        MarkedString::String(s) => {
            push_str(out, s.as_str());
        },
        MarkedString::LanguageString { language, value } => {
            push_str(out, "```");
            push_str(out, language.as_str());
            push_str(out, "\n");
            push_str(out, value.as_str());
            push_str(out, "\n```");
        },
    }
    proof {
        assert(out@ =~= old(out)@ + marked_text(*m));
    }
}

/// The text shown for hover content.
pub fn format_hover_content(contents: &HoverContents) -> (text: String)
    ensures
        text@ == hover_text(*contents),
{
    let mut out: Vec<char> = Vec::new();
    match contents {
        HoverContents::Scalar(m) => {
            push_marked(&mut out, m);
            proof {
                assert(out@ =~= marked_text(*m));
            }
        },
        HoverContents::Array(ms) => {
            let mut i: usize = 0;
            proof {
                assert(marked_texts(ms@).take(0) =~= Seq::<Seq<char>>::empty());
            }
            while i < ms.len()
                invariant
                    i <= ms.len(),
                    out@ == joined(marked_texts(ms@).take(i as int), "\n\n"@),
                decreases ms.len() - i,
            {
                let ghost before = out@;
                if i > 0 {
                    push_str(&mut out, "\n\n");
                }
                push_marked(&mut out, &ms[i]);
                proof {
                    let texts = marked_texts(ms@);
                    let next = texts.take(i + 1);
                    assert(next.drop_last() =~= texts.take(i as int));
                    assert(next.last() == marked_text(ms@[i as int]));
                    if i == 0 {
                        assert(before =~= Seq::<char>::empty());
                        assert(out@ =~= next[0]);
                    } else {
                        assert(out@ =~= before + "\n\n"@ + next.last());
                    }
                }
                i += 1;
            }
            proof {
                assert(marked_texts(ms@).take(ms.len() as int) =~= marked_texts(ms@));
            }
        },
        HoverContents::Markup(value) => {
            push_str(&mut out, value.as_str());
            proof {
                assert(out@ =~= value@);
            }
        },
    }
    from_chars(&out)
}

/// The first line shown for a definition on the 0-based lines `start` to
/// `end` of a file of `len` lines: one line before the definition, not
/// before the file's start and not beyond its end.
pub open spec fn excerpt_start(len: int, start: int) -> int {
    if start <= 0 {
        0
    } else if start - 1 <= len {
        start - 1
    } else {
        len
    }
}

/// The line after the last one shown: ten lines after the definition, not
/// beyond the file's end and not before the first line shown.
pub open spec fn excerpt_end(len: int, start: int, end: int) -> int {
    let hi = if end + 11 <= len {
        end + 11
    } else {
        len
    };
    if hi < excerpt_start(len, start) {
        excerpt_start(len, start)
    } else {
        hi
    }
}

/// The lines shown for a definition: one line of leading context, the
/// definition, up to ten lines after it, within the file.
pub open spec fn excerpt(lines: Seq<Seq<char>>, start: int, end: int) -> Seq<Seq<char>> {
    lines.subrange(
        excerpt_start(lines.len() as int, start),
        excerpt_end(lines.len() as int, start, end),
    )
}

/// A definition as shown: path, first and last line (1-based), then the
/// excerpt in a code fence.
pub open spec fn definition_text(workspace: Seq<char>, location: Location, contents: Seq<char>) -> Seq<
    char,
> {
    workspace_relative(location.path@, workspace) + ":"@ + decimal(location.start_line as nat + 1)
        + ":"@ + decimal(location.end_line as nat + 1) + ":\n```rust\n"@ + joined(
        excerpt(lines_of(contents), location.start_line as int, location.end_line as int),
        "\n"@,
    ) + "\n```"@
}

/// Appends the lines `from..to` of `lines` to `out`, a newline between
/// each two.
fn push_lines(out: &mut Vec<char>, lines: &Vec<Vec<char>>, from: usize, to: usize)
    requires
        from <= to <= lines.len(),
    ensures
        final(out)@ == old(out)@ + joined(
            line_views(lines@).subrange(from as int, to as int),
            "\n"@,
        ),
{
    let ghost all = line_views(lines@);
    let mut i: usize = from;
    proof {
        assert(all.subrange(from as int, from as int) =~= Seq::<Seq<char>>::empty());
        assert(out@ =~= old(out)@ + joined(all.subrange(from as int, i as int), "\n"@));
    }
    while i < to
        invariant
            from <= i <= to <= lines.len(),
            all == line_views(lines@),
            out@ == old(out)@ + joined(all.subrange(from as int, i as int), "\n"@),
        decreases to - i,
    {
        let ghost before = out@;
        if i > from {
            push_str(out, "\n");
        }
        push_all(out, &lines[i]);
        proof {
            let next = all.subrange(from as int, i + 1);
            assert(next.drop_last() =~= all.subrange(from as int, i as int));
            assert(next.last() == lines@[i as int]@);
            if i == from {
                assert(out@ =~= old(out)@ + next[0]);
            } else {
                assert(out@ =~= old(out)@ + (joined(next.drop_last(), "\n"@) + "\n"@
                    + next.last()));
            }
        }
        i += 1;
    }
}

/// The text shown for a definition at `location`, given the current text
/// of its file.
pub fn format_definition(workspace: &str, location: &Location, contents: &str) -> (text: String)
    ensures
        text@ == definition_text(workspace@, *location, contents@),
{
    let chars = to_chars(contents);
    let lines = split_lines(&chars);
    let len = lines.len();
    let start = location.start_line as usize;
    let end = location.end_line as usize;
    let lo: usize = if start == 0 {
        0
    } else if start - 1 <= len {
        start - 1
    } else {
        len
    };
    let hi: usize = if len >= 11 && end <= len - 11 {
        end + 11
    } else {
        len
    };
    let hi: usize = if hi < lo {
        lo
    } else {
        hi
    };
    let shown = relative_to(location.path.as_str(), workspace);
    let mut out: Vec<char> = Vec::new();
    push_str(&mut out, shown.as_str());
    push_str(&mut out, ":");
    push_decimal(&mut out, location.start_line as u64 + 1);
    push_str(&mut out, ":");
    push_decimal(&mut out, location.end_line as u64 + 1);
    push_str(&mut out, ":\n```rust\n");
    push_lines(&mut out, &lines, lo, hi);
    push_str(&mut out, "\n```");
    proof {
        assert(lo == excerpt_start(len as int, start as int));
        assert(hi == excerpt_end(len as int, start as int, end as int));
        assert(out@ =~= definition_text(workspace@, *location, contents@));
    }
    from_chars(&out)
}

/// The definition that is shown for the engine's answer: the place of an
/// answer that names exactly one place in the single form. Any other
/// answer shows nothing.
pub fn definition_target(reply: Option<DefinitionReply>) -> (target: Option<Location>)
    ensures
        target == match reply {
            Some(DefinitionReply::Scalar(location)) => Some(location),
            _ => None,
        },
{
    match reply {
        Some(DefinitionReply::Scalar(location)) => Some(location),
        _ => None,
    }
}

/// A reference as shown: path, 1-based line, and the line's text without
/// the whitespace around it. `None` where the file no longer has the line.
pub open spec fn reference_text(workspace: Seq<char>, source: ReferenceSource) -> Option<
    Seq<char>,
> {
    let lines = lines_of(source.contents@);
    let line = source.location.start_line as int;
    if line < lines.len() {
        Some(
            workspace_relative(source.location.path@, workspace) + ":"@ + decimal(
                (line + 1) as nat,
            ) + ": "@ + trimmed(lines[line]),
        )
    } else {
        None
    }
}

/// The references as shown, in the order given, without those whose line
/// lies beyond their file.
pub open spec fn reference_texts(workspace: Seq<char>, sources: Seq<ReferenceSource>) -> Seq<
    Seq<char>,
>
    decreases sources.len(),
{
    if sources.len() == 0 {
        Seq::empty()
    } else {
        let before = reference_texts(workspace, sources.drop_last());
        match reference_text(workspace, sources.last()) {
            Some(text) => before.push(text),
            None => before,
        }
    }
}

/// The text shown for one reference.
pub fn format_reference(workspace: &str, source: &ReferenceSource) -> (r: Option<String>)
    ensures
        match r {
            Some(text) => reference_text(workspace@, *source) == Some(text@),
            None => reference_text(workspace@, *source) is None,
        },
{
    let chars = to_chars(source.contents.as_str());
    let lines = split_lines(&chars);
    let line = source.location.start_line as usize;
    if line >= lines.len() {
        return None;
    }
    let shown = relative_to(source.location.path.as_str(), workspace);
    let body = trim(&lines[line]);
    let mut out: Vec<char> = Vec::new();
    push_str(&mut out, shown.as_str());
    push_str(&mut out, ":");
    push_decimal(&mut out, source.location.start_line as u64 + 1);
    push_str(&mut out, ": ");
    push_all(&mut out, &body);
    proof {
        assert(line_views(lines@)[line as int] == lines@[line as int]@);
        assert(out@ =~= reference_text(workspace@, *source).unwrap());
    }
    Some(from_chars(&out))
}

/// The texts shown for the references `sources`: one entry for each whose
/// line its file still has, in the order given.
pub fn format_references(workspace: &str, sources: &Vec<ReferenceSource>) -> (texts: Vec<String>)
    ensures
        string_views(texts@) == reference_texts(workspace@, sources@),
{
    let mut texts: Vec<String> = Vec::new();
    let mut i: usize = 0;
    proof {
        assert(sources@.take(0) =~= Seq::<ReferenceSource>::empty());
        assert(string_views(texts@) =~= Seq::<Seq<char>>::empty());
    }
    while i < sources.len()
        invariant
            i <= sources.len(),
            string_views(texts@) == reference_texts(workspace@, sources@.take(i as int)),
        decreases sources.len() - i,
    {
        let ghost before = texts@;
        proof {
            assert(sources@.take(i + 1).drop_last() =~= sources@.take(i as int));
            assert(sources@.take(i + 1).last() == sources@[i as int]);
        }
        match format_reference(workspace, &sources[i]) {
            Some(text) => {
                texts.push(text);
                proof {
                    assert(string_views(texts@) =~= string_views(before).push(text@));
                }
            },
            None => {},
        }
        i += 1;
    }
    proof {
        assert(sources@.take(sources.len() as int) =~= sources@);
    }
    texts
}

/// `l` is the first line that holds `symbol`.
pub open spec fn is_first_line_with(lines: Seq<Seq<char>>, symbol: Seq<char>, l: int) -> bool {
    &&& 0 <= l < lines.len()
    &&& contains_text(lines[l], symbol)
    &&& forall|k: int| 0 <= k < l ==> !contains_text(lines[k], symbol)
}

/// The 0-based index of the first line of `contents` that holds `symbol`;
/// `None` exactly when no line does.
pub fn first_line_containing(contents: &str, symbol: &str) -> (r: Option<usize>)
    ensures
        r matches Some(l) ==> l < usize::MAX,
        match r {
            Some(l) => is_first_line_with(lines_of(contents@), symbol@, l as int),
            None => forall|k: int|
                0 <= k < lines_of(contents@).len() ==> !contains_text(
                    #[trigger] lines_of(contents@)[k],
                    symbol@,
                ),
        },
{
    let chars = to_chars(contents);
    let lines = split_lines(&chars);
    let sym = to_chars(symbol);
    let mut i: usize = 0;
    while i < lines.len()
        invariant
            i <= lines.len(),
            line_views(lines@) == lines_of(contents@),
            sym@ == symbol@,
            forall|k: int|
                0 <= k < i ==> !contains_text(#[trigger] lines_of(contents@)[k], symbol@),
        decreases lines.len() - i,
    {
        proof {
            assert(line_views(lines@)[i as int] == lines@[i as int]@);
        }
        if contains(&lines[i], &sym) {
            return Some(i);
        }
        i += 1;
    }
    None
}

/// The 1-based number of the 0-based line `l`, as the 32 bits of a line
/// number hold it.
pub open spec fn line_number(l: int) -> u32 {
    ((l + 1) % 0x1_0000_0000) as u32
}

/// The 1-based line at which hover is asked to resolve `symbol`: the first
/// line of `contents` that holds it; `None` exactly when no line does.
pub fn resolve_line(contents: &str, symbol: &str) -> (r: Option<u32>)
    ensures
        match r {
            Some(line) => exists|l: int|
                is_first_line_with(lines_of(contents@), symbol@, l) && line == line_number(l),
            None => forall|k: int|
                0 <= k < lines_of(contents@).len() ==> !contains_text(
                    #[trigger] lines_of(contents@)[k],
                    symbol@,
                ),
        },
{
    match first_line_containing(contents, symbol) {
        Some(l) => {
            let number: u64 = (l as u64 + 1) % 0x1_0000_0000;
            assert(is_first_line_with(lines_of(contents@), symbol@, l as int) && number as u32
                == line_number(l as int));
            Some(number as u32)
        },
        None => None,
    }
}

/// A resolved symbol as shown: where it was found, then its hover text.
pub open spec fn resolved_text(symbol: Seq<char>, file: Seq<char>, hover: Seq<char>) -> Seq<
    char,
> {
    "Found symbol `"@ + symbol + "` in "@ + display_name(file) + ":\n\n"@ + hover
}

/// The text shown for a resolved symbol.
pub fn format_resolved(symbol: &str, file: &str, hover: &str) -> (text: String)
    ensures
        text@ == resolved_text(symbol@, file@, hover@),
{
    let name = file_name(file);
    let mut out: Vec<char> = Vec::new();
    push_str(&mut out, "Found symbol `");
    push_str(&mut out, symbol);
    push_str(&mut out, "` in ");
    push_str(&mut out, name.as_str());
    push_str(&mut out, ":\n\n");
    push_str(&mut out, hover);
    proof {
        assert(out@ =~= resolved_text(symbol@, file@, hover@));
    }
    from_chars(&out)
}

/// What resolving `symbol` in `file` returns, given how the hover query at
/// its first mention went: the hover text under a heading, or nothing
/// where hover failed or had nothing to say.
pub fn resolved_reply(symbol: &str, file: &str, hover: &Result<Option<String>, QueryError>) -> (r:
    Option<String>)
    ensures
        match *hover {
            Ok(Some(text)) => r matches Some(shown) && shown@ == resolved_text(
                symbol@,
                file@,
                text@,
            ),
            _ => r is None,
        },
{
    match hover {
        Ok(Some(text)) => Some(format_resolved(symbol, file, text.as_str())),
        _ => None,
    }
}

} // verus!
