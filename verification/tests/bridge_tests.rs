use language_query::error::QueryError;
use language_query::lsp::{
    common_paths, decide_retry, find_rust_analyzer, OpenDocumentSet, Position, QueryAction,
    QueryEvent, QueryKind, QueryState, RetryDecision, RustAnalyzerConnection, SetupError,
};
use language_query::paths::{absolute_path, file_name, relative_to};

const TEXT: &str = "fn main() {\n    helper();\n}\n";

fn warm(workspace: &str) -> RustAnalyzerConnection {
    let mut session = RustAnalyzerConnection::new(workspace);
    session.mark_ready();
    session
}

fn start(path: &str) -> QueryEvent {
    QueryEvent::Start { path: path.to_string() }
}

fn failed(message: &str) -> QueryEvent {
    QueryEvent::Failed { message: message.to_string() }
}

#[test]
fn new_session_is_not_ready() {
    let session = RustAnalyzerConnection::new("/ws");
    assert!(!session.is_ready());
    assert_eq!(session.workspace(), "/ws");
    assert!(matches!(session.ensure_ready(), Err(QueryError::NotReady)));
    assert!(!session.is_open("/ws/a.rs"));
}

#[test]
fn session_is_ready_after_warm_up() {
    let mut session = RustAnalyzerConnection::new("/ws");
    session.mark_ready();
    assert!(session.is_ready());
    assert!(session.ensure_ready().is_ok());
    session.mark_ready();
    assert!(session.is_ready());
}

#[test]
fn warm_up_delays() {
    assert_eq!(RustAnalyzerConnection::warm_up_millis(false), 2000);
    assert_eq!(RustAnalyzerConnection::warm_up_millis(true), 3000);
}

#[test]
fn workspace_folder_is_the_last_component() {
    assert_eq!(RustAnalyzerConnection::new("/home/me/project").workspace_folder_name(), "project");
    assert_eq!(RustAnalyzerConnection::new("/").workspace_folder_name(), "");
}

#[test]
fn query_before_warm_up_fails_with_not_ready() {
    let mut session = RustAnalyzerConnection::new("/ws");
    for kind in [QueryKind::Hover, QueryKind::Definition, QueryKind::References] {
        let (state, action) = session.step(kind, 2, "helper", QueryState::Idle, start("/ws/a.rs"));
        assert!(matches!(state, QueryState::Done));
        assert!(matches!(action, QueryAction::Fail { error: QueryError::NotReady }));
    }
    session.mark_ready();
    let (state, action) = session.step(QueryKind::Hover, 2, "helper", QueryState::Idle, start("/ws/a.rs"));
    assert!(matches!(state, QueryState::Opening { .. }));
    assert!(matches!(action, QueryAction::Announce { .. }));
}

#[test]
fn hover_runs_from_start_to_delivery() {
    let mut session = warm("/ws");
    let (state, action) = session.step(QueryKind::Hover, 2, "helper", QueryState::Idle, start("/ws/a.rs"));
    match (&state, &action) {
        (QueryState::Opening { path }, QueryAction::Announce { path: announced }) => {
            assert_eq!(path, "/ws/a.rs");
            assert_eq!(announced, "/ws/a.rs");
        }
        other => panic!("unexpected {:?}", other),
    }
    assert!(!session.is_open("/ws/a.rs"));
    let (state, action) = session.step(QueryKind::Hover, 2, "helper", state, QueryEvent::Announced);
    assert!(matches!(state, QueryState::Locating));
    assert!(matches!(action, QueryAction::ReadText));
    assert!(session.is_open("/ws/a.rs"));
    let text = QueryEvent::Text { contents: TEXT.to_string() };
    let (state, action) = session.step(QueryKind::Hover, 2, "helper", state, text);
    let place = Position { line: 1, character: 4 };
    assert!(matches!(state, QueryState::Waiting { position, retries: 0 } if position == place));
    assert!(matches!(action, QueryAction::Ask { position } if position == place));
    let (state, action) = session.step(QueryKind::Hover, 2, "helper", state, QueryEvent::Replied);
    assert!(matches!(state, QueryState::Done));
    assert!(matches!(action, QueryAction::Deliver));
}

#[test]
fn announced_file_is_not_announced_again() {
    let mut session = warm("/ws");
    session.open_file("/ws/a.rs".to_string());
    let (state, action) = session.step(QueryKind::References, 2, "helper", QueryState::Idle, start("/ws/a.rs"));
    assert!(matches!(state, QueryState::Locating));
    assert!(matches!(action, QueryAction::ReadText));
    let (state, _) = session.step(QueryKind::References, 2, "helper", QueryState::Idle, start("/ws/b.rs"));
    assert!(matches!(state, QueryState::Opening { .. }));
}

#[test]
fn symbol_that_cannot_be_placed_ends_the_query() {
    let mut session = warm("/ws");
    let text = QueryEvent::Text { contents: TEXT.to_string() };
    let (state, action) = session.step(QueryKind::Hover, 2, "missing", QueryState::Locating, text);
    assert!(matches!(state, QueryState::Done));
    match action {
        QueryAction::Fail { error } => assert_eq!(error.message(), "Symbol 'missing' not found near line 2"),
        other => panic!("unexpected {:?}", other),
    }
    let text = QueryEvent::Text { contents: TEXT.to_string() };
    let (_, action) = session.step(QueryKind::Hover, 9, "helper", QueryState::Locating, text);
    assert!(matches!(action, QueryAction::Fail { error: QueryError::LineOutOfBounds { line: 9, lines: 3 } }));
}

#[test]
fn failures_outside_the_engine_end_the_query() {
    let mut session = warm("/ws");
    let opening = QueryState::Opening { path: "/ws/a.rs".to_string() };
    let (state, action) = session.step(QueryKind::Hover, 1, "s", opening, failed("Failed to read file"));
    assert!(matches!(state, QueryState::Done));
    assert!(matches!(action, QueryAction::Fail { error: QueryError::Io { message } } if message == "Failed to read file"));
    assert!(!session.is_open("/ws/a.rs"));
    let (_, action) = session.step(QueryKind::Hover, 1, "s", QueryState::Locating, failed("gone"));
    assert!(matches!(action, QueryAction::Fail { error: QueryError::Io { message } } if message == "gone"));
}

#[test]
fn passing_engine_error_is_retried_three_times() {
    let mut session = warm("/ws");
    let position = Position { line: 1, character: 4 };
    let mut state = QueryState::Waiting { position, retries: 0 };
    for round in 1..=3u32 {
        let (next, action) = session.step(QueryKind::Hover, 2, "helper", state, failed("server: content modified"));
        assert!(matches!(next, QueryState::BackingOff { retries, .. } if retries == round));
        assert!(matches!(action, QueryAction::Pause { millis: 500 }));
        let (next, action) = session.step(QueryKind::Hover, 2, "helper", next, QueryEvent::Elapsed);
        assert!(matches!(next, QueryState::Waiting { retries, .. } if retries == round));
        assert!(matches!(action, QueryAction::Ask { position: p } if p == position));
        state = next;
    }
    let (next, action) = session.step(QueryKind::Hover, 2, "helper", state, failed("server: content modified"));
    assert!(matches!(next, QueryState::Done));
    assert!(matches!(action, QueryAction::Fail { error: QueryError::Engine { message } } if message == "server: content modified"));
}

#[test]
fn retry_decisions() {
    let retry = |retries| RetryDecision::Retry { retries, millis: 500 };
    assert_eq!(decide_retry(QueryKind::Hover, "content modified", 0), retry(1));
    assert_eq!(decide_retry(QueryKind::References, "x content modified y", 2), retry(3));
    assert_eq!(decide_retry(QueryKind::Hover, "content modified", 3), RetryDecision::GiveUp);
    assert_eq!(decide_retry(QueryKind::Hover, "content modified", u32::MAX), RetryDecision::GiveUp);
    assert_eq!(decide_retry(QueryKind::Hover, "Content Modified", 0), RetryDecision::GiveUp);
    assert_eq!(decide_retry(QueryKind::Hover, "other failure", 0), RetryDecision::GiveUp);
    assert_eq!(decide_retry(QueryKind::Definition, "content modified", 0), RetryDecision::GiveUp);
}

#[test]
fn definition_is_never_retried() {
    let mut session = warm("/ws");
    let state = QueryState::Waiting { position: Position { line: 0, character: 0 }, retries: 0 };
    let (next, action) = session.step(QueryKind::Definition, 1, "s", state, failed("content modified"));
    assert!(matches!(next, QueryState::Done));
    assert!(matches!(action, QueryAction::Fail { error: QueryError::Engine { .. } }));
}

#[test]
fn event_out_of_step_ends_the_query() {
    let mut session = warm("/ws");
    let (state, action) = session.step(QueryKind::Hover, 1, "s", QueryState::Idle, QueryEvent::Replied);
    assert!(matches!(state, QueryState::Done));
    assert!(matches!(action, QueryAction::Fail { error: QueryError::OutOfStep }));
    let (_, action) = session.step(QueryKind::Hover, 1, "s", QueryState::Done, start("/ws/a.rs"));
    assert!(matches!(action, QueryAction::Fail { error: QueryError::OutOfStep }));
}

#[test]
fn open_documents_only_grow() {
    let mut set = OpenDocumentSet::new();
    assert_eq!(set.len(), 0);
    assert!(!set.contains("/a"));
    assert!(set.insert("/a".to_string()));
    assert!(set.insert("/b".to_string()));
    assert!(!set.insert("/a".to_string()));
    assert_eq!(set.len(), 2);
    assert!(set.contains("/a"));
    assert!(set.contains("/b"));
    assert!(!set.contains("/c"));
}

#[test]
fn engine_found_by_the_search_wins() {
    let candidates = vec!["/usr/bin/rust-analyzer".to_string()];
    let got = find_rust_analyzer(Some("/opt/bin/rust-analyzer\n"), &candidates, &vec![true]);
    assert_eq!(got.unwrap(), "/opt/bin/rust-analyzer");
}

#[test]
fn first_existing_candidate_is_taken() {
    let candidates = vec!["/a".to_string(), "/b".to_string(), "/c".to_string()];
    assert_eq!(find_rust_analyzer(None, &candidates, &vec![false, true, true]).unwrap(), "/b");
    assert_eq!(find_rust_analyzer(None, &candidates, &vec![true, false, false]).unwrap(), "/a");
    assert_eq!(find_rust_analyzer(None, &candidates, &vec![false, false, true, true]).unwrap(), "/c");
}

#[test]
fn engine_in_no_place_is_not_found() {
    let candidates = vec!["/a".to_string(), "/b".to_string()];
    assert_eq!(find_rust_analyzer(None, &candidates, &vec![false, false]), Err(SetupError::EngineNotFound));
    assert_eq!(find_rust_analyzer(None, &candidates, &vec![false]), Err(SetupError::EngineNotFound));
    assert_eq!(find_rust_analyzer(None, &Vec::new(), &vec![true]), Err(SetupError::EngineNotFound));
}

#[test]
fn common_paths_end_in_the_home_directory() {
    let paths = common_paths();
    assert_eq!(paths.len(), 4);
    assert_eq!(paths[0], "/usr/local/bin/rust-analyzer");
    assert_eq!(paths[1], "/usr/bin/rust-analyzer");
    assert_eq!(paths[2], "/opt/homebrew/bin/rust-analyzer");
    assert!(paths[3].ends_with("/.cargo/bin/rust-analyzer"));
    assert!(!paths[3].starts_with('~'));
}

#[test]
fn file_names_and_relative_paths() {
    assert_eq!(file_name("/ws/src/lib.rs"), "lib.rs");
    assert_eq!(file_name("lib.rs"), "lib.rs");
    assert_eq!(file_name("/ws/src/"), "src");
    assert_eq!(file_name("/"), "");
    assert_eq!(relative_to("/ws/src/lib.rs", "/ws"), "src/lib.rs");
    assert_eq!(relative_to("/ws/src/lib.rs", "/ws/"), "src/lib.rs");
    assert_eq!(relative_to("/wsx/lib.rs", "/ws"), "/wsx/lib.rs");
    assert_eq!(relative_to("/other/lib.rs", "/ws"), "/other/lib.rs");
}

#[test]
fn absolute_paths() {
    assert_eq!(absolute_path("/abs/a.rs", "/cwd"), "/abs/a.rs");
    assert_eq!(absolute_path("src/a.rs", "/cwd"), "/cwd/src/a.rs");
    assert_eq!(absolute_path("src/a.rs", "/cwd/"), "/cwd/src/a.rs");
    assert_eq!(absolute_path("", "/cwd"), "/cwd/");
    for (file, dir) in [("a.rs", "/cwd"), ("/x/a.rs", "/cwd"), ("./a.rs", "/"), ("", "/cwd")] {
        let want = std::path::Path::new(dir).join(file);
        assert_eq!(absolute_path(file, dir), want.to_str().unwrap());
    }
}
