use language_query::error::QueryError;
use language_query::lsp::{find_symbol_position, Position};

const SOURCE: &str = "use std::fmt;\n\nstruct Point {\n    x: i32,\n    y: i32,\n}\n\nfn helper() {}\n";

fn at(line: usize, character: usize) -> Position {
    Position { line, character }
}

#[test]
fn exact_line_gives_line_and_offset() {
    assert_eq!(find_symbol_position(SOURCE, 3, "Point").unwrap(), at(2, 7));
    assert_eq!(find_symbol_position(SOURCE, 4, "x").unwrap(), at(3, 4));
    assert_eq!(find_symbol_position(SOURCE, 1, "use").unwrap(), at(0, 0));
}

#[test]
fn first_occurrence_on_the_line_is_taken() {
    assert_eq!(find_symbol_position("ab ab ab\n", 1, "ab").unwrap(), at(0, 0));
    assert_eq!(find_symbol_position("xab ab\n", 1, "ab").unwrap(), at(0, 1));
}

#[test]
fn match_two_lines_earlier_is_found() {
    let text = "target\nnone\nnone\nnone\nnone\n";
    assert_eq!(find_symbol_position(text, 3, "target").unwrap(), at(0, 0));
}

#[test]
fn match_two_lines_later_is_found() {
    let text = "none\nnone\nnone\nnone\n  target\n";
    assert_eq!(find_symbol_position(text, 3, "target").unwrap(), at(4, 2));
}

#[test]
fn earlier_line_wins_at_the_same_distance() {
    let text = "a sym\nnone\nb sym\n";
    assert_eq!(find_symbol_position(text, 2, "sym").unwrap(), at(0, 2));
    let text = "sym\nx\nnone\nx\nsym here\n";
    assert_eq!(find_symbol_position(text, 3, "sym").unwrap(), at(0, 0));
}

#[test]
fn nearer_line_wins_over_farther() {
    let text = "sym far\nnone\nnone\n sym near\n";
    assert_eq!(find_symbol_position(text, 3, "sym").unwrap(), at(3, 1));
    let text = "none\n sym near\nnone\nnone\nsym far\n";
    assert_eq!(find_symbol_position(text, 3, "sym").unwrap(), at(1, 1));
}

#[test]
fn no_match_within_two_lines_is_not_found() {
    let text = "target\nx\nx\nx\nx\nx\ntarget\n";
    match find_symbol_position(text, 4, "target") {
        Err(QueryError::SymbolNotFound { symbol, line }) => {
            assert_eq!(symbol, "target");
            assert_eq!(line, 4);
        }
        other => panic!("unexpected {:?}", other),
    }
    let e = find_symbol_position(text, 4, "target").unwrap_err();
    assert_eq!(e.message(), "Symbol 'target' not found near line 4");
}

#[test]
fn line_beyond_the_file_is_out_of_bounds() {
    match find_symbol_position("a\nb\n", 3, "a") {
        Err(QueryError::LineOutOfBounds { line, lines }) => {
            assert_eq!(line, 3);
            assert_eq!(lines, 2);
        }
        other => panic!("unexpected {:?}", other),
    }
    let e = find_symbol_position("a\nb\n", 3, "a").unwrap_err();
    assert_eq!(e.message(), "Line 3 is out of bounds (file has 2 lines)");
    assert!(matches!(
        find_symbol_position("", 1, "a"),
        Err(QueryError::LineOutOfBounds { line: 1, lines: 0 })
    ));
}

#[test]
fn line_zero_is_taken_as_the_first_line() {
    assert_eq!(find_symbol_position("abc\n", 0, "bc").unwrap(), at(0, 1));
}

#[test]
fn last_line_probes_stay_inside_the_file() {
    assert_eq!(find_symbol_position("sym\nx\nx", 3, "sym").unwrap(), at(0, 0));
    assert!(matches!(
        find_symbol_position("x\nx\nx", 3, "sym"),
        Err(QueryError::SymbolNotFound { .. })
    ));
}

#[test]
fn offset_counts_characters() {
    assert_eq!(find_symbol_position("let é = field;\n", 1, "field").unwrap(), at(0, 8));
}

#[test]
fn error_messages_of_the_other_kinds() {
    assert_eq!(QueryError::NotReady.message(), "LSP server is not ready yet");
    assert_eq!(QueryError::Engine { message: "boom".to_string() }.message(), "boom");
    assert_eq!(QueryError::Io { message: "Failed to read file".to_string() }.message(), "Failed to read file");
    assert_eq!(QueryError::OutOfStep.message(), "Query received an event out of step");
}
