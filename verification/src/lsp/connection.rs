//! The interface of a backend, and a stand-in with fixed answers.

use vstd::prelude::*;

use crate::error::QueryError;
use crate::numbers::{decimal, push_decimal};
use crate::paths::{display_name, file_name};
use crate::text::{from_chars, push_str, string_views};

verus! {

/// A backend that answers the four queries. Lines are 1-based and need
/// only be near the symbol.
///
/// Each operation has a relation that says which results it may return,
/// and callers' contracts are stated over these relations. A backend that
/// leaves a relation as it is here promises nothing of that operation.
pub trait LspConnection {
    /// The results that `hover` may return.
    open spec fn hover_result(
        &self,
        file: Seq<char>,
        line: u32,
        symbol: Seq<char>,
        r: Result<Option<String>, QueryError>,
    ) -> bool {
        true
    }

    /// The results that `implementation` may return.
    open spec fn implementation_result(
        &self,
        file: Seq<char>,
        line: u32,
        symbol: Seq<char>,
        r: Result<Option<String>, QueryError>,
    ) -> bool {
        true
    }

    /// The results that `references` may return.
    open spec fn references_result(
        &self,
        file: Seq<char>,
        line: u32,
        symbol: Seq<char>,
        r: Result<Vec<String>, QueryError>,
    ) -> bool {
        true
    }

    /// The results that `resolve_symbol` may return.
    open spec fn resolve_result(
        &self,
        file: Seq<char>,
        symbol: Seq<char>,
        r: Result<Option<String>, QueryError>,
    ) -> bool {
        true
    }

    /// Documentation of `symbol` near `line` of `file`.
    fn hover(&self, file: &str, line: u32, symbol: &str) -> (r: Result<Option<String>, QueryError>)
        ensures
            self.hover_result(file@, line, symbol@, r),
    ;

    /// The definition of `symbol` near `line` of `file`, with its source.
    fn implementation(&self, file: &str, line: u32, symbol: &str) -> (r: Result<
        Option<String>,
        QueryError,
    >)
        ensures
            self.implementation_result(file@, line, symbol@, r),
    ;

    /// The places that refer to `symbol` near `line` of `file`.
    fn references(&self, file: &str, line: u32, symbol: &str) -> (r: Result<Vec<String>, QueryError>)
        ensures
            self.references_result(file@, line, symbol@, r),
    ;

    /// What `symbol` is, looked up at its first mention in `file`.
    fn resolve_symbol(&self, file: &str, symbol: &str) -> (r: Result<Option<String>, QueryError>)
        ensures
            self.resolve_result(file@, symbol@, r),
    ;
}

/// A backend with fixed answers, made from its arguments alone.
pub struct MockLspConnection;

/// The stand-in's documentation of `symbol`.
pub open spec fn mock_hover_text(name: Seq<char>, line: u32, symbol: Seq<char>) -> Seq<char> {
    "```rust\n"@ + symbol + ": String\n```\n\n---\n\nDocumentation for `"@ + symbol + "` at "@
        + name + ":"@ + decimal(line as nat)
}

/// The stand-in's definition of `symbol`.
pub open spec fn mock_implementation_text(name: Seq<char>, line: u32, symbol: Seq<char>) -> Seq<
    char,
> {
    name + ":"@ + decimal(line as nat) + ":"@ + decimal(line as nat + 5) + ":\n```rust\nimpl "@
        + symbol + " {\n    fn new() -> Self {\n        todo!()\n    }\n}\n```"@
}

/// The stand-in's three references to `symbol`.
pub open spec fn mock_reference_texts(name: Seq<char>, line: u32, symbol: Seq<char>) -> Seq<
    Seq<char>,
> {
    seq![
        name + ":"@ + decimal(line as nat + 10) + ": let x = "@ + symbol + ";"@,
        name + ":"@ + decimal(line as nat + 20) + ": "@ + symbol + ".method();"@,
        name + ":"@ + decimal(line as nat + 30) + ": println!(\"{}\", "@ + symbol + ");"@,
    ]
}

/// The stand-in's description of `symbol`.
pub open spec fn mock_resolve_text(name: Seq<char>, symbol: Seq<char>) -> Seq<char> {
    "Found symbol `"@ + symbol + "` in "@ + name + ":\n\n```rust\nstruct "@ + symbol
        + " {\n    field: String,\n}\n```\n\nA mock struct for testing."@
}

impl MockLspConnection {
    /// The stand-in.
    pub fn new() -> (mock: Self) {
        MockLspConnection
    }
}

impl LspConnection for MockLspConnection {
    open spec fn hover_result(
        &self,
        file: Seq<char>,
        line: u32,
        symbol: Seq<char>,
        r: Result<Option<String>, QueryError>,
    ) -> bool {
        r matches Ok(Some(text)) && text@ == mock_hover_text(display_name(file), line, symbol)
    }

    open spec fn implementation_result(
        &self,
        file: Seq<char>,
        line: u32,
        symbol: Seq<char>,
        r: Result<Option<String>, QueryError>,
    ) -> bool {
        r matches Ok(Some(text)) && text@ == mock_implementation_text(
            display_name(file),
            line,
            symbol,
        )
    }

    open spec fn references_result(
        &self,
        file: Seq<char>,
        line: u32,
        symbol: Seq<char>,
        r: Result<Vec<String>, QueryError>,
    ) -> bool {
        r matches Ok(refs) && string_views(refs@) == mock_reference_texts(
            display_name(file),
            line,
            symbol,
        )
    }

    open spec fn resolve_result(
        &self,
        file: Seq<char>,
        symbol: Seq<char>,
        r: Result<Option<String>, QueryError>,
    ) -> bool {
        r matches Ok(Some(text)) && text@ == mock_resolve_text(display_name(file), symbol)
    }

    fn hover(&self, file: &str, line: u32, symbol: &str) -> (r: Result<Option<String>, QueryError>) {
        let name = file_name(file);
        let mut out: Vec<char> = Vec::new();
        push_str(&mut out, "```rust\n");
        push_str(&mut out, symbol);
        push_str(&mut out, ": String\n```\n\n---\n\nDocumentation for `");
        push_str(&mut out, symbol);
        push_str(&mut out, "` at ");
        push_str(&mut out, name.as_str());
        push_str(&mut out, ":");
        push_decimal(&mut out, line as u64);
        proof {
            assert(out@ =~= mock_hover_text(display_name(file@), line, symbol@));
        }
        Ok(Some(from_chars(&out)))
    }

    fn implementation(&self, file: &str, line: u32, symbol: &str) -> (r: Result<
        Option<String>,
        QueryError,
    >) {
        let name = file_name(file);
        let mut out: Vec<char> = Vec::new();
        push_str(&mut out, name.as_str());
        push_str(&mut out, ":");
        push_decimal(&mut out, line as u64);
        push_str(&mut out, ":");
        push_decimal(&mut out, line as u64 + 5);
        push_str(&mut out, ":\n```rust\nimpl ");
        push_str(&mut out, symbol);
        push_str(&mut out, " {\n    fn new() -> Self {\n        todo!()\n    }\n}\n```");
        proof {
            assert(out@ =~= mock_implementation_text(display_name(file@), line, symbol@));
        }
        Ok(Some(from_chars(&out)))
    }

    fn references(&self, file: &str, line: u32, symbol: &str) -> (r: Result<Vec<String>, QueryError>) {
        let name = file_name(file);
        let mut first: Vec<char> = Vec::new();
        push_str(&mut first, name.as_str());
        push_str(&mut first, ":");
        push_decimal(&mut first, line as u64 + 10);
        push_str(&mut first, ": let x = ");
        push_str(&mut first, symbol);
        push_str(&mut first, ";");
        let mut second: Vec<char> = Vec::new();
        push_str(&mut second, name.as_str());
        push_str(&mut second, ":");
        push_decimal(&mut second, line as u64 + 20);
        push_str(&mut second, ": ");
        push_str(&mut second, symbol);
        push_str(&mut second, ".method();");
        let mut third: Vec<char> = Vec::new();
        push_str(&mut third, name.as_str());
        push_str(&mut third, ":");
        push_decimal(&mut third, line as u64 + 30);
        push_str(&mut third, ": println!(\"{}\", ");
        push_str(&mut third, symbol);
        push_str(&mut third, ");");
        let mut refs: Vec<String> = Vec::new();
        refs.push(from_chars(&first));
        refs.push(from_chars(&second));
        refs.push(from_chars(&third));
        proof {
            let want = mock_reference_texts(display_name(file@), line, symbol@);
            assert(first@ =~= want[0]);
            assert(second@ =~= want[1]);
            assert(third@ =~= want[2]);
            assert(string_views(refs@) =~= want);
        }
        Ok(refs)
    }

    fn resolve_symbol(&self, file: &str, symbol: &str) -> (r: Result<Option<String>, QueryError>) {
        let name = file_name(file);
        let mut out: Vec<char> = Vec::new();
        push_str(&mut out, "Found symbol `");
        push_str(&mut out, symbol);
        push_str(&mut out, "` in ");
        push_str(&mut out, name.as_str());
        push_str(&mut out, ":\n\n```rust\nstruct ");
        push_str(&mut out, symbol);
        push_str(&mut out, " {\n    field: String,\n}\n```\n\nA mock struct for testing.");
        proof {
            assert(out@ =~= mock_resolve_text(display_name(file@), symbol@));
        }
        Ok(Some(from_chars(&out)))
    }
}

} // verus!
