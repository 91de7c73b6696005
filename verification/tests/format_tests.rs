use language_query::error::QueryError;
use language_query::lsp::{
    definition_target, DefinitionReply, first_line_containing, format_definition, format_hover_content, format_reference,
    format_references, format_resolved, resolve_line, resolved_reply, HoverContents, Location,
    MarkedString, ReferenceSource,
};

fn code(language: &str, value: &str) -> MarkedString {
    MarkedString::LanguageString { language: language.to_string(), value: value.to_string() }
}

fn plain(text: &str) -> MarkedString {
    MarkedString::String(text.to_string())
}

fn location(path: &str, start_line: u32, end_line: u32) -> Location {
    Location { path: path.to_string(), start_line, end_line }
}

fn source(path: &str, line: u32, contents: &str) -> ReferenceSource {
    ReferenceSource { location: location(path, line, line), contents: contents.to_string() }
}

fn numbered(n: usize) -> String {
    (0..n).map(|i| format!("line {}\n", i)).collect()
}

#[test]
fn hover_markup_is_its_value() {
    assert_eq!(format_hover_content(&HoverContents::Markup("# Doc\ntext".to_string())), "# Doc\ntext");
}

#[test]
fn hover_scalar_fragments() {
    assert_eq!(format_hover_content(&HoverContents::Scalar(plain("just text"))), "just text");
    assert_eq!(
        format_hover_content(&HoverContents::Scalar(code("rust", "fn f()"))),
        "```rust\nfn f()\n```"
    );
}

#[test]
fn hover_array_is_joined_by_blank_lines() {
    let contents = HoverContents::Array(vec![code("rust", "struct S"), plain("A struct."), plain("More.")]);
    assert_eq!(format_hover_content(&contents), "```rust\nstruct S\n```\n\nA struct.\n\nMore.");
    assert_eq!(format_hover_content(&HoverContents::Array(vec![])), "");
    assert_eq!(format_hover_content(&HoverContents::Array(vec![plain("one")])), "one");
}

#[test]
fn definition_shows_context_and_ten_trailing_lines() {
    let text = numbered(30);
    let got = format_definition("/ws", &location("/ws/src/lib.rs", 5, 6), &text);
    let body: Vec<String> = (4..17).map(|i| format!("line {}", i)).collect();
    assert_eq!(got, format!("src/lib.rs:6:7:\n```rust\n{}\n```", body.join("\n")));
}

#[test]
fn definition_is_clamped_to_the_file() {
    let text = "a\nb\nc\n";
    assert_eq!(
        format_definition("/ws", &location("/ws/m.rs", 0, 0), text),
        "m.rs:1:1:\n```rust\na\nb\nc\n```"
    );
    assert_eq!(
        format_definition("/ws", &location("/ws/m.rs", 2, 2), text),
        "m.rs:3:3:\n```rust\nb\nc\n```"
    );
}

#[test]
fn definition_beyond_the_file_shows_no_lines() {
    assert_eq!(
        format_definition("/ws", &location("/ws/m.rs", 9, 9), "a\nb\n"),
        "m.rs:10:10:\n```rust\n\n```"
    );
    assert_eq!(format_definition("/ws", &location("/ws/m.rs", 0, 0), ""), "m.rs:1:1:\n```rust\n\n```");
}

#[test]
fn definition_outside_the_workspace_keeps_its_path() {
    assert_eq!(
        format_definition("/ws", &location("/other/m.rs", 0, 0), "x\n"),
        "/other/m.rs:1:1:\n```rust\nx\n```"
    );
}

#[test]
fn definition_line_numbers_do_not_overflow() {
    let got = format_definition("/ws", &location("/ws/m.rs", u32::MAX, u32::MAX), "x\n");
    assert_eq!(got, "m.rs:4294967296:4294967296:\n```rust\n\n```");
}

#[test]
fn reference_shows_trimmed_line() {
    let got = format_reference("/ws", &source("/ws/src/a.rs", 1, "fn a() {\n    helper();  \n}\n"));
    assert_eq!(got, Some("src/a.rs:2: helper();".to_string()));
}

#[test]
fn reference_beyond_the_file_is_skipped() {
    assert_eq!(format_reference("/ws", &source("/ws/src/a.rs", 3, "a\nb\nc\n")), None);
    assert_eq!(format_reference("/ws", &source("/ws/src/a.rs", 0, "")), None);
}

#[test]
fn references_keep_order_and_skip_stale_ones() {
    let sources = vec![
        source("/ws/a.rs", 0, "  helper();\n"),
        source("/ws/b.rs", 5, "short\n"),
        source("/elsewhere/c.rs", 1, "x\n\tlet h = helper;\n"),
    ];
    assert_eq!(
        format_references("/ws", &sources),
        vec!["a.rs:1: helper();".to_string(), "/elsewhere/c.rs:2: let h = helper;".to_string()]
    );
    assert!(format_references("/ws", &Vec::new()).is_empty());
}

#[test]
fn first_line_containing_finds_the_first() {
    assert_eq!(first_line_containing("a\nuse HashMap;\nHashMap::new()\n", "HashMap"), Some(1));
    assert_eq!(first_line_containing("a\nb\n", "HashMap"), None);
    assert_eq!(first_line_containing("", "x"), None);
    assert_eq!(first_line_containing("x", "x"), Some(0));
}

#[test]
fn resolve_line_is_one_based() {
    assert_eq!(resolve_line("a\nuse HashMap;\nHashMap::new()\n", "HashMap"), Some(2));
    assert_eq!(resolve_line("HashMap\n", "HashMap"), Some(1));
    assert_eq!(resolve_line("a\nb\n", "HashMap"), None);
}

#[test]
fn resolved_text_names_symbol_and_file() {
    assert_eq!(
        format_resolved("HashMap", "/ws/src/lib.rs", "```rust\nstruct HashMap\n```"),
        "Found symbol `HashMap` in lib.rs:\n\n```rust\nstruct HashMap\n```"
    );
}

#[test]
fn resolved_reply_wraps_hover_only() {
    assert_eq!(
        resolved_reply("S", "src/m.rs", &Ok(Some("docs".to_string()))),
        Some("Found symbol `S` in m.rs:\n\ndocs".to_string())
    );
    assert_eq!(resolved_reply("S", "src/m.rs", &Ok(None)), None);
    assert_eq!(resolved_reply("S", "src/m.rs", &Err(QueryError::NotReady)), None);
}

#[test]
fn only_a_single_place_is_shown_as_definition() {
    let place = location("/ws/a.rs", 1, 2);
    let got = definition_target(Some(DefinitionReply::Scalar(place.clone()))).unwrap();
    assert_eq!((got.path.as_str(), got.start_line, got.end_line), ("/ws/a.rs", 1, 2));
    assert!(definition_target(Some(DefinitionReply::Array(vec![place.clone()]))).is_none());
    assert!(definition_target(Some(DefinitionReply::Link(vec![place]))).is_none());
    assert!(definition_target(None).is_none());
}
