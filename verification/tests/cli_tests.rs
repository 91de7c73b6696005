use language_query::cli::{
    parse_file_location, plan_command, render_response, ClientPlan, Command, FileLocation,
};
use language_query::ipc::{Method, ReplyBody, ResponseResult};

fn location(file: &str, line: u32) -> FileLocation {
    FileLocation { file: file.to_string(), line }
}

fn ok(body: ReplyBody) -> ResponseResult {
    ResponseResult::Success { result: body }
}

fn docs_method() -> Method {
    Method::Docs { file: "a.rs".to_string(), line: 1, symbol: "s".to_string() }
}

fn some(text: &str) -> Option<String> {
    Some(text.to_string())
}

#[test]
fn location_with_file_and_line() {
    let got = parse_file_location("src/main.rs:42").unwrap();
    assert_eq!(got.file, "src/main.rs");
    assert_eq!(got.line, 42);
    let got = parse_file_location(":7").unwrap();
    assert_eq!(got.file, "");
    assert_eq!(got.line, 7);
    let got = parse_file_location("a.rs:+3").unwrap();
    assert_eq!((got.file.as_str(), got.line), ("a.rs", 3));
}

#[test]
fn location_without_a_colon_is_refused() {
    assert_eq!(
        parse_file_location("src/main.rs").unwrap_err(),
        "Expected format: file:line (e.g., src/main.rs:42)"
    );
    assert_eq!(parse_file_location("").unwrap_err(), "Expected format: file:line (e.g., src/main.rs:42)");
}

#[test]
fn location_with_a_bad_line_is_refused() {
    for text in ["a.rs:", "a.rs:x", "a.rs:-1", "a.rs:1:2", "a.rs:4294967296", "a.rs: 1"] {
        assert_eq!(
            parse_file_location(text).unwrap_err(),
            "Line number must be a positive integer",
            "for {:?}",
            text
        );
    }
}

#[test]
fn location_with_line_zero_is_refused() {
    assert_eq!(parse_file_location("a.rs:0").unwrap_err(), "Line number must be greater than 0");
    assert_eq!(parse_file_location("a.rs:000").unwrap_err(), "Line number must be greater than 0");
}

#[test]
fn location_splits_at_the_first_colon() {
    assert!(parse_file_location("C:/x.rs:3").is_err());
    let got = parse_file_location("x.rs:4294967295").unwrap();
    assert_eq!(got.line, u32::MAX);
}

#[test]
fn query_commands_become_requests() {
    let plan = plan_command(
        Command::Docs { location: location("a.rs", 3), symbol: "field".to_string() },
        "id-1".to_string(),
    );
    match plan {
        ClientPlan::Send { request } => {
            assert_eq!(request.id, "id-1");
            match request.method {
                Method::Docs { file, line, symbol } => {
                    assert_eq!((file.as_str(), line, symbol.as_str()), ("a.rs", 3, "field"));
                }
                other => panic!("unexpected {:?}", other),
            }
        }
        other => panic!("unexpected {:?}", other),
    }
    let plan = plan_command(
        Command::Impl { location: location("b.rs", 4), symbol: "T".to_string() },
        "2".to_string(),
    );
    assert!(matches!(plan, ClientPlan::Send { request } if matches!(&request.method, Method::Impl { file, line: 4, symbol } if file == "b.rs" && symbol == "T")));
    let plan = plan_command(
        Command::Refs { location: location("c.rs", 5), symbol: "h".to_string() },
        "3".to_string(),
    );
    assert!(matches!(plan, ClientPlan::Send { request } if matches!(&request.method, Method::Refs { file, line: 5, symbol } if file == "c.rs" && symbol == "h")));
    let plan = plan_command(
        Command::Resolve { symbol: "HashMap".to_string(), file: "d.rs".to_string() },
        "4".to_string(),
    );
    assert!(matches!(plan, ClientPlan::Send { request } if request.id == "4" && matches!(&request.method, Method::Resolve { file, symbol } if file == "d.rs" && symbol == "HashMap")));
}

#[test]
fn status_and_stop_become_requests() {
    assert!(matches!(
        plan_command(Command::Status, "s".to_string()),
        ClientPlan::Send { request } if request.id == "s" && matches!(request.method, Method::Status)
    ));
    assert!(matches!(
        plan_command(Command::Stop, "t".to_string()),
        ClientPlan::Send { request } if request.id == "t" && matches!(request.method, Method::Shutdown)
    ));
}

#[test]
fn logs_and_daemon_send_nothing() {
    match plan_command(Command::Logs { lines: 50 }, "x".to_string()) {
        ClientPlan::Notice { message } => {
            assert_eq!(message, "Log viewing not yet implemented (would show 50 lines)")
        }
        other => panic!("unexpected {:?}", other),
    }
    match plan_command(Command::Daemon { workspace: "/ws".to_string() }, "x".to_string()) {
        ClientPlan::RunDaemon { workspace } => assert_eq!(workspace, "/ws"),
        other => panic!("unexpected {:?}", other),
    }
}

#[test]
fn error_goes_to_standard_error_with_code_one() {
    let out = render_response(&docs_method(), &ResponseResult::Error { error: "LSP server is not ready yet".to_string() });
    assert!(out.stdout.is_empty());
    assert_eq!(out.stderr, vec!["Error: LSP server is not ready yet".to_string()]);
    assert_eq!(out.exit_code, 1);
}

#[test]
fn docs_are_printed_when_present() {
    let out = render_response(&docs_method(), &ok(ReplyBody::Docs { docs: some("the docs") }));
    assert_eq!(out.stdout, vec!["the docs".to_string()]);
    assert!(out.stderr.is_empty());
    assert_eq!(out.exit_code, 0);
    let out = render_response(&docs_method(), &ok(ReplyBody::Docs { docs: None }));
    assert!(out.stdout.is_empty());
    assert_eq!(out.exit_code, 0);
}

#[test]
fn body_of_another_kind_prints_nothing() {
    let out = render_response(&docs_method(), &ok(ReplyBody::Resolved { resolved: some("x") }));
    assert!(out.stdout.is_empty());
    assert_eq!(out.exit_code, 0);
}

#[test]
fn implementation_references_and_resolved_are_printed() {
    let method = Method::Impl { file: "a".to_string(), line: 1, symbol: "s".to_string() };
    let out = render_response(&method, &ok(ReplyBody::Implementation { implementation: some("impl") }));
    assert_eq!(out.stdout, vec!["impl".to_string()]);
    let method = Method::Refs { file: "a".to_string(), line: 1, symbol: "s".to_string() };
    let refs = vec!["a:1: x".to_string(), "b:2: y".to_string()];
    let out = render_response(&method, &ok(ReplyBody::References { references: refs.clone() }));
    assert_eq!(out.stdout, refs);
    let out = render_response(&method, &ok(ReplyBody::References { references: vec![] }));
    assert!(out.stdout.is_empty());
    let method = Method::Resolve { file: "a".to_string(), symbol: "s".to_string() };
    let out = render_response(&method, &ok(ReplyBody::Resolved { resolved: some("found") }));
    assert_eq!(out.stdout, vec!["found".to_string()]);
}

#[test]
fn status_is_three_lines() {
    let body = ReplyBody::Status { status: some("ready"), workspace: some("/ws"), indexing: Some(false) };
    let out = render_response(&Method::Status, &ok(body));
    assert_eq!(
        out.stdout,
        vec!["Status: ready".to_string(), "Workspace: /ws".to_string(), "Indexing: false".to_string()]
    );
    let body = ReplyBody::Status { status: None, workspace: None, indexing: Some(true) };
    let out = render_response(&Method::Status, &ok(body));
    assert_eq!(
        out.stdout,
        vec!["Status: unknown".to_string(), "Workspace: unknown".to_string(), "Indexing: true".to_string()]
    );
    let out = render_response(&Method::Status, &ok(ReplyBody::Shutdown { shutdown: true }));
    assert_eq!(
        out.stdout,
        vec!["Status: unknown".to_string(), "Workspace: unknown".to_string(), "Indexing: false".to_string()]
    );
}

#[test]
fn shutdown_prints_that_the_daemon_stopped() {
    let out = render_response(&Method::Shutdown, &ok(ReplyBody::Shutdown { shutdown: true }));
    assert_eq!(out.stdout, vec!["Daemon stopped".to_string()]);
    assert_eq!(out.exit_code, 0);
}
