//! Why a query failed.

use vstd::prelude::*;

use crate::numbers::{decimal, push_decimal};
use crate::text::{from_chars, push_str};

verus! {

/// The failure of one query. The daemon stays up; the client reports the
/// message and exits with a failure code.
#[derive(Debug, Clone)]
pub enum QueryError {
    /// The engine has not finished warming up.
    NotReady,
    /// The line asked for lies beyond the end of the file, which has
    /// `lines` lines.
    LineOutOfBounds { line: u32, lines: usize },
    /// The symbol stands neither on the line asked for nor within two
    /// lines of it.
    SymbolNotFound { symbol: String, line: u32 },
    /// The engine answered with an error; `message` is the engine's own.
    Engine { message: String },
    /// A file could not be read or a path could not be used.
    Io { message: String },
    /// A query was handed an event that its state does not expect.
    OutOfStep,
}

/// The one line that tells a user what went wrong.
pub open spec fn error_text(e: QueryError) -> Seq<char> {
    match e {
        QueryError::NotReady => "LSP server is not ready yet"@,
        QueryError::LineOutOfBounds { line, lines } => "Line "@ + decimal(line as nat)
            + " is out of bounds (file has "@ + decimal(lines as nat) + " lines)"@,
        QueryError::SymbolNotFound { symbol, line } => "Symbol '"@ + symbol@
            + "' not found near line "@ + decimal(line as nat),
        QueryError::Engine { message } => message@,
        QueryError::Io { message } => message@,
        QueryError::OutOfStep => "Query received an event out of step"@,
    }
}

impl QueryError {
    /// The one line that tells a user what went wrong.
    pub fn message(&self) -> (text: String)
        ensures
            text@ == error_text(*self),
    {
        let mut out: Vec<char> = Vec::new();
        match self {
            QueryError::NotReady => {
                push_str(&mut out, "LSP server is not ready yet");
            },
            QueryError::LineOutOfBounds { line, lines } => {
                push_str(&mut out, "Line ");
                push_decimal(&mut out, *line as u64);
                push_str(&mut out, " is out of bounds (file has ");
                push_decimal(&mut out, *lines as u64);
                push_str(&mut out, " lines)");
            },
            QueryError::SymbolNotFound { symbol, line } => {
                push_str(&mut out, "Symbol '");
                push_str(&mut out, symbol.as_str());
                push_str(&mut out, "' not found near line ");
                push_decimal(&mut out, *line as u64);
            },
            QueryError::Engine { message } => {
                push_str(&mut out, message.as_str());
            },
            QueryError::Io { message } => {
                push_str(&mut out, message.as_str());
            },
            QueryError::OutOfStep => {
                push_str(&mut out, "Query received an event out of step");
            },
        }
        proof {
            assert(out@ =~= error_text(*self));
        }
        from_chars(&out)
    }
}

} // verus!
