//! The bridge to the analysis engine: the state of one session and the
//! decisions of a query. Talking to the engine is left to the caller, who
//! performs each action that `step` returns and hands back what happened.

use vstd::prelude::*;

use crate::error::QueryError;
use crate::lines::lines_of;
use crate::lsp::documents::OpenDocumentSet;
use crate::lsp::position::{find_symbol_position, located, position_fault, Position};
use crate::paths::{display_name, file_name};
use crate::text::{contains, contains_text, to_chars};

verus! {

/// How often a request that failed for a passing reason is sent again.
pub const MAX_RETRIES: u32 = 3;

/// The pause before a request is sent again, in milliseconds.
pub const RETRY_BACKOFF_MILLIS: u64 = 500;

/// The engine request behind a query.
#[derive(Debug, Clone, Copy, PartialEq, Eq, Structural)]
pub enum QueryKind {
    Hover,
    Definition,
    References,
}

/// What to do after the engine failed a request.
#[derive(Debug, Clone, Copy, PartialEq, Eq, Structural)]
pub enum RetryDecision {
    /// Wait `millis`, then send the request again; it is then retry
    /// number `retries`.
    Retry { retries: u32, millis: u64 },
    /// Report the engine's error unchanged.
    GiveUp,
}

/// The engine says that its state changed under the request: a passing
/// condition.
pub open spec fn is_transient(message: Seq<char>) -> bool {
    contains_text(message, "content modified"@)
}

/// The decision after a failed request: hover and find-references are
/// sent again on a passing error, at most `MAX_RETRIES` times;
/// go-to-definition never is.
pub open spec fn retry_decision(kind: QueryKind, message: Seq<char>, retries: u32) -> RetryDecision {
    if kind != QueryKind::Definition && is_transient(message) && retries < MAX_RETRIES {
        RetryDecision::Retry { retries: (retries + 1) as u32, millis: RETRY_BACKOFF_MILLIS }
    } else {
        RetryDecision::GiveUp
    }
}

/// What to do after the engine failed a request of `kind` with `message`,
/// `retries` retries having been made already.
pub fn decide_retry(kind: QueryKind, message: &str, retries: u32) -> (d: RetryDecision)
    ensures
        d == retry_decision(kind, message@, retries),
{
    let is_definition = match kind {
        QueryKind::Definition => true,
        _ => false,
    };
    if is_definition || retries >= MAX_RETRIES {
        return RetryDecision::GiveUp;
    }
    let text = to_chars(message);
    let marker = to_chars("content modified");
    if contains(&text, &marker) {
        RetryDecision::Retry { retries: retries + 1, millis: RETRY_BACKOFF_MILLIS }
    } else {
        RetryDecision::GiveUp
    }
}

/// Where a query stands.
#[derive(Debug, Clone)]
pub enum QueryState {
    /// Nothing was done yet.
    Idle,
    /// The file at `path` is being announced to the engine.
    Opening { path: String },
    /// The file's text is being read, to place the symbol.
    Locating,
    /// A request is with the engine, after `retries` retries.
    Waiting { position: Position, retries: u32 },
    /// The pause before retry number `retries`.
    BackingOff { position: Position, retries: u32 },
    /// The query is over.
    Done,
}

/// What happened outside since the last step.
#[derive(Debug, Clone)]
pub enum QueryEvent {
    /// The query begins; `path` is the canonical absolute path of its file.
    Start { path: String },
    /// The file was announced to the engine.
    Announced,
    /// The file was read; `contents` is its text.
    Text { contents: String },
    /// The engine answered the request.
    Replied,
    /// The last action failed; `message` says why.
    Failed { message: String },
    /// The pause is over.
    Elapsed,
}

/// What the caller is to do next.
#[derive(Debug, Clone)]
pub enum QueryAction {
    /// Read the file at `path` and announce it, text unchanged, to the engine.
    Announce { path: String },
    /// Read the file of the query.
    ReadText,
    /// Send the engine request at `position`.
    Ask { position: Position },
    /// Wait `millis` milliseconds.
    Pause { millis: u64 },
    /// Format the engine's answer and return it: the query succeeded.
    Deliver,
    /// Return `error`: the query failed.
    Fail { error: QueryError },
}

/// The state of one engine session, as far as queries depend on it:
/// whether the engine is taken to be warmed up, and which files it was
/// told about.
pub struct RustAnalyzerConnection {
    workspace: String,
    opened_files: OpenDocumentSet,
    is_ready: bool,
}

impl RustAnalyzerConnection {
    /// Well-formedness.
    pub closed spec fn wf(&self) -> bool {
        self.opened_files.wf()
    }

    /// Whether the engine is taken to be warmed up.
    pub closed spec fn ready(&self) -> bool {
        self.is_ready
    }

    /// The files announced to the engine.
    pub closed spec fn opened(&self) -> Set<Seq<char>> {
        self.opened_files@
    }

    /// The workspace's path.
    pub closed spec fn workspace_text(&self) -> Seq<char> {
        self.workspace@
    }

    /// `other` is this session with nothing changed.
    pub open spec fn same_as(&self, other: &Self) -> bool {
        &&& self.ready() == other.ready()
        &&& self.opened() == other.opened()
        &&& self.workspace_text() == other.workspace_text()
    }

    /// A session for `workspace`: not ready, no file announced.
    pub fn new(workspace: &str) -> (session: Self)
        ensures
            session.wf(),
            !session.ready(),
            session.opened() == Set::<Seq<char>>::empty(),
            session.workspace_text() == workspace@,
    {
        RustAnalyzerConnection {
            workspace: workspace.to_owned(),
            opened_files: OpenDocumentSet::new(),
            is_ready: false,
        }
    }

    /// The workspace's path.
    pub fn workspace(&self) -> (path: &str)
        ensures
            path@ == self.workspace_text(),
    {
        self.workspace.as_str()
    }

    /// The name under which the workspace is announced to the engine in
    /// the handshake: the final component of its path.
    pub fn workspace_folder_name(&self) -> (name: String)
        ensures
            name@ == display_name(self.workspace_text()),
    {
        file_name(self.workspace.as_str())
    }

    /// The warm-up delay in milliseconds after the handshake: the engine
    /// does not say when it has indexed the workspace, so a fixed time
    /// stands for it.
    pub fn warm_up_millis(testing: bool) -> (millis: u64)
        ensures
            millis == if testing {
                3000u64
            } else {
                2000u64
            },
    {
        if testing {
            3000
        } else {
            2000
        }
    }

    /// Marks the engine as warmed up; to be called once the warm-up delay
    /// is over. No operation takes the flag back.
    pub fn mark_ready(&mut self)
        requires
            old(self).wf(),
        ensures
            final(self).wf(),
            final(self).ready(),
            final(self).opened() == old(self).opened(),
            final(self).workspace_text() == old(self).workspace_text(),
    {
        self.is_ready = true;
    }

    /// Whether the engine is taken to be warmed up.
    pub fn is_ready(&self) -> (b: bool)
        ensures
            b == self.ready(),
    {
        self.is_ready
    }

    /// Fails with `NotReady` until the engine is warmed up.
    pub fn ensure_ready(&self) -> (r: Result<(), QueryError>)
        ensures
            r is Ok <==> self.ready(),
            r matches Err(e) ==> e == QueryError::NotReady,
    {
        if !self.is_ready {
            return Err(QueryError::NotReady);
        }
        Ok(())
    }

    /// Whether the file at the canonical path `path` was announced.
    pub fn is_open(&self, path: &str) -> (b: bool)
        ensures
            b == self.opened().contains(path@),
    {
        self.opened_files.contains(path)
    }

    /// Records that the file at the canonical path `path` was announced.
    pub fn open_file(&mut self, path: String)
        requires
            old(self).wf(),
        ensures
            final(self).wf(),
            final(self).opened() == old(self).opened().insert(path@),
            final(self).ready() == old(self).ready(),
            final(self).workspace_text() == old(self).workspace_text(),
    {
        self.opened_files.insert(path);
    }

    /// What `step` owes: the next state and the action for `state` and
    /// `event`, in a query of `kind` for `symbol` near `line`; `before` and
    /// `after` are the session around the step.
    pub open spec fn stepped(
        before: &Self,
        after: &Self,
        kind: QueryKind,
        line: u32,
        symbol: Seq<char>,
        state: QueryState,
        event: QueryEvent,
        next: QueryState,
        action: QueryAction,
    ) -> bool {
        match (state, event) {
            (QueryState::Idle, QueryEvent::Start { path }) => {
                &&& before.same_as(after)
                &&& if !before.ready() {
                    next is Done && action == (QueryAction::Fail { error: QueryError::NotReady })
                } else if before.opened().contains(path@) {
                    next is Locating && action is ReadText
                } else {
                    next == (QueryState::Opening { path }) && action == (QueryAction::Announce {
                        path,
                    })
                }
            },
            (QueryState::Opening { path }, QueryEvent::Announced) => {
                &&& after.ready() == before.ready()
                &&& after.workspace_text() == before.workspace_text()
                &&& after.opened() == before.opened().insert(path@)
                &&& next is Locating
                &&& action is ReadText
            },
            (QueryState::Opening { path }, QueryEvent::Failed { message }) => {
                &&& before.same_as(after)
                &&& next is Done
                &&& action == (QueryAction::Fail { error: QueryError::Io { message } })
            },
            (QueryState::Locating, QueryEvent::Text { contents }) => {
                &&& before.same_as(after)
                &&& match located(lines_of(contents@), line, symbol) {
                    Some((l, c)) => {
                        let position = Position { line: l as usize, character: c as usize };
                        next == (QueryState::Waiting { position, retries: 0 }) && action == (
                        QueryAction::Ask { position })
                    },
                    None => next is Done && (action matches QueryAction::Fail { error }
                        && position_fault(lines_of(contents@), line, symbol, error)),
                }
            },
            (QueryState::Locating, QueryEvent::Failed { message }) => {
                &&& before.same_as(after)
                &&& next is Done
                &&& action == (QueryAction::Fail { error: QueryError::Io { message } })
            },
            (QueryState::Waiting { position, retries }, QueryEvent::Replied) => {
                &&& before.same_as(after)
                &&& next is Done
                &&& action is Deliver
            },
            (QueryState::Waiting { position, retries }, QueryEvent::Failed { message }) => {
                &&& before.same_as(after)
                &&& match retry_decision(kind, message@, retries) {
                    RetryDecision::Retry { retries: again, millis } => next == (
                    QueryState::BackingOff { position, retries: again }) && action == (
                    QueryAction::Pause { millis }),
                    RetryDecision::GiveUp => next is Done && action == (QueryAction::Fail {
                        error: QueryError::Engine { message },
                    }),
                }
            },
            (QueryState::BackingOff { position, retries }, QueryEvent::Elapsed) => {
                &&& before.same_as(after)
                &&& next == (QueryState::Waiting { position, retries })
                &&& action == (QueryAction::Ask { position })
            },
            _ => {
                &&& before.same_as(after)
                &&& next is Done
                &&& action == (QueryAction::Fail { error: QueryError::OutOfStep })
            },
        }
    }

    /// One step of a hover, go-to-definition or find-references query for
    /// `symbol` near the 1-based `line`: takes what happened, returns where
    /// the query stands now and what is to be done next.
    ///
    /// A query runs: readiness, announcing the file if the engine does not
    /// know it, placing the symbol, the engine request with its retries,
    /// delivery. An event that the state does not expect ends the query
    /// with `OutOfStep`.
    pub fn step(
        &mut self,
        kind: QueryKind,
        line: u32,
        symbol: &str,
        state: QueryState,
        event: QueryEvent,
    ) -> (r: (QueryState, QueryAction))
        requires
            old(self).wf(),
        ensures
            final(self).wf(),
            Self::stepped(old(self), final(self), kind, line, symbol@, state, event, r.0, r.1),
    {
        match (state, event) {
            (QueryState::Idle, QueryEvent::Start { path }) => {
                if !self.is_ready {
                    (QueryState::Done, QueryAction::Fail { error: QueryError::NotReady })
                } else if self.opened_files.contains(path.as_str()) {
                    (QueryState::Locating, QueryAction::ReadText)
                } else {
                    let announced = path.clone();
                    (QueryState::Opening { path }, QueryAction::Announce { path: announced })
                }
            },
            (QueryState::Opening { path }, QueryEvent::Announced) => {
                self.opened_files.insert(path);
                (QueryState::Locating, QueryAction::ReadText)
            },
            (QueryState::Opening { path }, QueryEvent::Failed { message }) => {
                (QueryState::Done, QueryAction::Fail { error: QueryError::Io { message } })
            },
            (QueryState::Locating, QueryEvent::Text { contents }) => {
                match find_symbol_position(contents.as_str(), line, symbol) {
                    Ok(position) => (
                        QueryState::Waiting { position, retries: 0 },
                        QueryAction::Ask { position },
                    ),
                    Err(error) => (QueryState::Done, QueryAction::Fail { error }),
                }
            },
            (QueryState::Locating, QueryEvent::Failed { message }) => {
                (QueryState::Done, QueryAction::Fail { error: QueryError::Io { message } })
            },
            (QueryState::Waiting { position, retries }, QueryEvent::Replied) => {
                (QueryState::Done, QueryAction::Deliver)
            },
            (QueryState::Waiting { position, retries }, QueryEvent::Failed { message }) => {
                match decide_retry(kind, message.as_str(), retries) {
                    RetryDecision::Retry { retries: again, millis } => (
                        QueryState::BackingOff { position, retries: again },
                        QueryAction::Pause { millis },
                    ),
                    RetryDecision::GiveUp => (
                        QueryState::Done,
                        QueryAction::Fail { error: QueryError::Engine { message } },
                    ),
                }
            },
            (QueryState::BackingOff { position, retries }, QueryEvent::Elapsed) => {
                (QueryState::Waiting { position, retries }, QueryAction::Ask { position })
            },
            _ => (QueryState::Done, QueryAction::Fail { error: QueryError::OutOfStep }),
        }
    }
}

/// Readiness gates every query: whatever the query, while the engine is
/// not taken to be warmed up its first step fails with `NotReady`, and
/// nothing is asked of the engine.
pub proof fn lemma_not_ready_fails(
    before: &RustAnalyzerConnection,
    after: &RustAnalyzerConnection,
    kind: QueryKind,
    line: u32,
    symbol: Seq<char>,
    path: String,
    next: QueryState,
    action: QueryAction,
)
    requires
        !before.ready(),
        RustAnalyzerConnection::stepped(
            before,
            after,
            kind,
            line,
            symbol,
            QueryState::Idle,
            QueryEvent::Start { path },
            next,
            action,
        ),
    ensures
        next is Done,
        action == (QueryAction::Fail { error: QueryError::NotReady }),
        !after.ready(),
{
}

/// The number of retries that `state` records.
pub open spec fn retries_of(state: QueryState) -> int {
    match state {
        QueryState::Waiting { retries, .. } => retries as int,
        QueryState::BackingOff { retries, .. } => retries as int,
        _ => 0,
    }
}

/// What every step keeps: the set of announced files only grows, the
/// readiness flag is not touched, and a query within `MAX_RETRIES` retries
/// stays within them; go-to-definition is never sent again.
pub proof fn lemma_step_keeps(
    before: &RustAnalyzerConnection,
    after: &RustAnalyzerConnection,
    kind: QueryKind,
    line: u32,
    symbol: Seq<char>,
    state: QueryState,
    event: QueryEvent,
    next: QueryState,
    action: QueryAction,
)
    requires
        retries_of(state) <= MAX_RETRIES,
        RustAnalyzerConnection::stepped(before, after, kind, line, symbol, state, event, next, action),
    ensures
        before.opened().subset_of(after.opened()),
        after.ready() == before.ready(),
        retries_of(next) <= MAX_RETRIES,
        kind == QueryKind::Definition ==> !(action is Pause),
{
}

} // verus!
