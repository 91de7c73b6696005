//! Backends that answer queries: the common interface, a stand-in with
//! fixed answers, and the bridge to the analysis engine.

pub mod connection;
pub mod documents;
pub mod format;
pub mod locate;
pub mod position;
pub mod rust_analyzer;

pub use connection::{LspConnection, MockLspConnection};
pub use documents::OpenDocumentSet;
pub use format::{
    definition_target, first_line_containing, format_definition, format_hover_content, format_reference,
    format_references, format_resolved, resolve_line, resolved_reply, DefinitionReply, HoverContents, Location, MarkedString, ReferenceSource,
};
pub use locate::{common_paths, find_rust_analyzer, SetupError};
pub use position::{find_symbol_position, Position};
pub use rust_analyzer::{
    decide_retry, QueryAction, QueryEvent, QueryKind, QueryState, RetryDecision,
    RustAnalyzerConnection,
};
