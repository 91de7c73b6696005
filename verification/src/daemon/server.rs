//! The daemon's side of a connection, and the daemon's life cycle.

use vstd::prelude::*;

use crate::error::{error_text, QueryError};
use crate::ipc::protocol::{Method, ReplyBody, Request, Response, ResponseResult};
use crate::lsp::connection::LspConnection;
use crate::service::LanguageQueryService;

verus! {

/// The pause between a served shutdown request and the end of the
/// process, in milliseconds: time for the client to read the response.
pub const SHUTDOWN_GRACE_MILLIS: u64 = 100;

/// What `handle_request` owes for `method`: the backend's answer under the
/// field that names it, the backend's error unchanged; fixed answers for
/// status and shutdown, for which the backend is not asked.
pub open spec fn handled<C: LspConnection>(
    service: &LanguageQueryService<C>,
    method: Method,
    r: Result<ReplyBody, QueryError>,
) -> bool {
    match method {
        Method::Docs { file, line, symbol } => exists|inner: Result<Option<String>, QueryError>|
            #[trigger] service.backend().hover_result(file@, line, symbol@, inner) && (match inner {
                Ok(docs) => r == Ok::<ReplyBody, QueryError>(ReplyBody::Docs { docs }),
                Err(e) => r == Err::<ReplyBody, QueryError>(e),
            }),
        Method::Impl { file, line, symbol } => exists|inner: Result<Option<String>, QueryError>|
            #[trigger] service.backend().implementation_result(file@, line, symbol@, inner) && (
            match inner {
                Ok(implementation) => r == Ok::<ReplyBody, QueryError>(
                    ReplyBody::Implementation { implementation },
                ),
                Err(e) => r == Err::<ReplyBody, QueryError>(e),
            }),
        Method::Refs { file, line, symbol } => exists|inner: Result<Vec<String>, QueryError>|
            #[trigger] service.backend().references_result(file@, line, symbol@, inner) && (
            match inner {
                Ok(references) => r == Ok::<ReplyBody, QueryError>(
                    ReplyBody::References { references },
                ),
                Err(e) => r == Err::<ReplyBody, QueryError>(e),
            }),
        Method::Resolve { file, symbol } => exists|inner: Result<Option<String>, QueryError>|
            #[trigger] service.backend().resolve_result(file@, symbol@, inner) && (match inner {
                Ok(resolved) => r == Ok::<ReplyBody, QueryError>(ReplyBody::Resolved { resolved }),
                Err(e) => r == Err::<ReplyBody, QueryError>(e),
            }),
        Method::Status => {
            &&& r matches Ok(ReplyBody::Status { status, workspace, indexing })
            &&& status matches Some(s)
            &&& s@ == "ready"@
            &&& workspace matches Some(w)
            &&& w@ == service.workspace_text()
            &&& indexing == Some(false)
        },
        Method::Shutdown => r == Ok::<ReplyBody, QueryError>(ReplyBody::Shutdown { shutdown: true }),
    }
}

/// Answers one request: a query goes to the backend; status and shutdown
/// are answered without it.
pub fn handle_request<C: LspConnection>(method: Method, service: &LanguageQueryService<C>) -> (r:
    Result<ReplyBody, QueryError>)
    ensures
        handled(service, method, r),
{
    match method {
        Method::Docs { file, line, symbol } => {
            match service.get_docs(file.as_str(), line, symbol.as_str()) {
                Ok(docs) => Ok(ReplyBody::Docs { docs }),
                Err(e) => Err(e),
            }
        },
        Method::Impl { file, line, symbol } => {
            match service.get_impl(file.as_str(), line, symbol.as_str()) {
                Ok(implementation) => Ok(ReplyBody::Implementation { implementation }),
                Err(e) => Err(e),
            }
        },
        Method::Refs { file, line, symbol } => {
            match service.get_refs(file.as_str(), line, symbol.as_str()) {
                Ok(references) => Ok(ReplyBody::References { references }),
                Err(e) => Err(e),
            }
        },
        Method::Resolve { file, symbol } => {
            match service.resolve_symbol(file.as_str(), symbol.as_str()) {
                Ok(resolved) => Ok(ReplyBody::Resolved { resolved }),
                Err(e) => Err(e),
            }
        },
        Method::Status => {
            Ok(
                ReplyBody::Status {
                    status: Some("ready".to_owned()),
                    workspace: Some(service.workspace_path().to_owned()),
                    indexing: Some(false),
                },
            )
        },
        Method::Shutdown => Ok(ReplyBody::Shutdown { shutdown: true }),
    }
}

/// What the handler of a connection does once a response went out.
#[derive(Debug, Clone, Copy, PartialEq, Eq, Structural)]
pub enum AfterReply {
    /// Wait for the next request on the connection.
    NextRequest,
    /// Wait `grace_millis`, then end the whole process with `code`.
    Exit { grace_millis: u64, code: i32 },
}

/// What `respond` owes for `request`: the request's id, the outcome of
/// `handle_request` as success or as the error's message, and the end of
/// the process exactly after a shutdown request that succeeded.
pub open spec fn responded<C: LspConnection>(
    service: &LanguageQueryService<C>,
    request: Request,
    response: Response,
    after: AfterReply,
) -> bool {
    &&& response.id == request.id
    &&& exists|outcome: Result<ReplyBody, QueryError>|
        #[trigger] handled(service, request.method, outcome) && (match outcome {
            Ok(result) => response.result == (ResponseResult::Success { result }),
            Err(e) => response.result matches ResponseResult::Error { error } && error@
                == error_text(e),
        })
    &&& after == if request.method is Shutdown && response.result is Success {
        AfterReply::Exit { grace_millis: SHUTDOWN_GRACE_MILLIS, code: 0 }
    } else {
        AfterReply::NextRequest
    }
}

/// Serves one request of a connection: the response to send, and what the
/// handler does after sending it.
pub fn respond<C: LspConnection>(request: Request, service: &LanguageQueryService<C>) -> (r: (
    Response,
    AfterReply,
))
    ensures
        responded(service, request, r.0, r.1),
{
    let Request { id, method } = request;
    let is_shutdown = method.is_shutdown();
    let outcome = handle_request(method, service);
    let ghost witness = outcome;
    let result = match outcome {
        Ok(result) => ResponseResult::Success { result },
        Err(e) => ResponseResult::Error { error: e.message() },
    };
    let after = if is_shutdown && result.is_success() {
        AfterReply::Exit { grace_millis: SHUTDOWN_GRACE_MILLIS, code: 0 }
    } else {
        AfterReply::NextRequest
    };
    let response = Response { id, result };
    proof {
        assert(handled(service, request.method, witness));
    }
    (response, after)
}

/// A shutdown request is always served with success, and ends the process
/// after the grace period.
pub proof fn lemma_shutdown_served<C: LspConnection>(
    service: &LanguageQueryService<C>,
    request: Request,
    response: Response,
    after: AfterReply,
)
    requires
        request.method is Shutdown,
        responded(service, request, response, after),
    ensures
        response.result == (ResponseResult::Success {
            result: ReplyBody::Shutdown { shutdown: true },
        }),
        after == (AfterReply::Exit { grace_millis: SHUTDOWN_GRACE_MILLIS, code: 0 }),
{
}

/// The life of a daemon.
#[derive(Debug, Clone, Copy, PartialEq, Eq, Structural)]
pub enum DaemonState {
    /// The endpoint is not bound yet.
    Starting,
    /// The accept loop runs.
    Listening,
    /// A termination signal came: the endpoint is being given up.
    ShuttingDown,
    /// The daemon is over.
    Terminated,
}

/// What happened to the daemon.
#[derive(Debug, Clone, Copy, PartialEq, Eq, Structural)]
pub enum DaemonEvent {
    /// The endpoint path was looked at; `exists` says whether a file is
    /// there.
    Looked { exists: bool },
    /// The file at the endpoint path was deleted.
    Removed,
    /// The endpoint is bound.
    Bound,
    /// A client connected.
    Accepted,
    /// Accepting a connection failed.
    AcceptFailed,
    /// A termination signal came.
    Signal,
    /// The listener was dropped and the endpoint file deleted.
    CleanedUp,
    /// An action failed for good.
    Failed,
}

/// What the daemon is to do next.
#[derive(Debug, Clone, Copy, PartialEq, Eq, Structural)]
pub enum DaemonAction {
    /// Delete the file at the endpoint path: it is taken to be stale.
    RemoveEndpoint,
    /// Bind the endpoint.
    Bind,
    /// Wait for the next connection or signal.
    Accept,
    /// Hand the connection to a handler of its own, and wait for the next
    /// connection or signal.
    ServeAndAccept,
    /// Stop accepting, drop the listener and delete the endpoint file.
    /// Connections that are being served are not waited for.
    CleanUp,
    /// End the process with `code`.
    Exit { code: i32 },
}

/// The daemon of one workspace: its endpoint and where it stands.
pub struct DaemonServer {
    socket_path: String,
    state: DaemonState,
}

/// The state after `event` in `state`, and the action that it asks for.
pub open spec fn daemon_step(state: DaemonState, event: DaemonEvent) -> (DaemonState, DaemonAction) {
    match (state, event) {
        (DaemonState::Starting, DaemonEvent::Looked { exists }) => if exists {
            (DaemonState::Starting, DaemonAction::RemoveEndpoint)
        } else {
            (DaemonState::Starting, DaemonAction::Bind)
        },
        (DaemonState::Starting, DaemonEvent::Removed) => (DaemonState::Starting, DaemonAction::Bind),
        (DaemonState::Starting, DaemonEvent::Bound) => (DaemonState::Listening, DaemonAction::Accept),
        (DaemonState::Listening, DaemonEvent::Accepted) => (
            DaemonState::Listening,
            DaemonAction::ServeAndAccept,
        ),
        (DaemonState::Listening, DaemonEvent::AcceptFailed) => (
            DaemonState::Listening,
            DaemonAction::Accept,
        ),
        (DaemonState::Listening, DaemonEvent::Signal) => (
            DaemonState::ShuttingDown,
            DaemonAction::CleanUp,
        ),
        (DaemonState::ShuttingDown, DaemonEvent::CleanedUp) => (
            DaemonState::Terminated,
            DaemonAction::Exit { code: 0 },
        ),
        _ => (DaemonState::Terminated, DaemonAction::Exit { code: 1 }),
    }
}

/// The order of the states: a daemon never goes back.
pub open spec fn state_rank(state: DaemonState) -> int {
    match state {
        DaemonState::Starting => 0,
        DaemonState::Listening => 1,
        DaemonState::ShuttingDown => 2,
        DaemonState::Terminated => 3,
    }
}

impl DaemonServer {
    /// Where the daemon stands.
    pub closed spec fn current(&self) -> DaemonState {
        self.state
    }

    /// The endpoint's path.
    pub closed spec fn endpoint(&self) -> Seq<char> {
        self.socket_path@
    }

    /// A daemon for the endpoint at `socket_path`, not bound yet.
    pub fn new(socket_path: String) -> (server: Self)
        ensures
            server.current() == DaemonState::Starting,
            server.endpoint() == socket_path@,
    {
        DaemonServer { socket_path, state: DaemonState::Starting }
    }

    /// The endpoint's path.
    pub fn socket_path(&self) -> (path: &str)
        ensures
            path@ == self.endpoint(),
    {
        self.socket_path.as_str()
    }

    /// Where the daemon stands.
    pub fn state(&self) -> (state: DaemonState)
        ensures
            state == self.current(),
    {
        self.state
    }

    /// Takes what happened and says what the daemon does next.
    ///
    /// Starting: a file found at the endpoint path is deleted before the
    /// endpoint is bound. Listening: each connection gets a handler of its
    /// own; a failed accept is passed over; a signal starts the shutdown.
    /// Shutting down: once the endpoint is given up the process ends. An
    /// event that the state does not expect ends the daemon with a failure.
    pub fn run(&mut self, event: DaemonEvent) -> (action: DaemonAction)
        ensures
            (final(self).current(), action) == daemon_step(old(self).current(), event),
            final(self).endpoint() == old(self).endpoint(),
    {
        let (next, action) = match (self.state, event) {
            (DaemonState::Starting, DaemonEvent::Looked { exists }) => {
                if exists {
                    (DaemonState::Starting, DaemonAction::RemoveEndpoint)
                } else {
                    (DaemonState::Starting, DaemonAction::Bind)
                }
            },
            (DaemonState::Starting, DaemonEvent::Removed) => (
                DaemonState::Starting,
                DaemonAction::Bind,
            ),
            (DaemonState::Starting, DaemonEvent::Bound) => (
                DaemonState::Listening,
                DaemonAction::Accept,
            ),
            (DaemonState::Listening, DaemonEvent::Accepted) => (
                DaemonState::Listening,
                DaemonAction::ServeAndAccept,
            ),
            (DaemonState::Listening, DaemonEvent::AcceptFailed) => (
                DaemonState::Listening,
                DaemonAction::Accept,
            ),
            (DaemonState::Listening, DaemonEvent::Signal) => (
                DaemonState::ShuttingDown,
                DaemonAction::CleanUp,
            ),
            (DaemonState::ShuttingDown, DaemonEvent::CleanedUp) => (
                DaemonState::Terminated,
                DaemonAction::Exit { code: 0 },
            ),
            _ => (DaemonState::Terminated, DaemonAction::Exit { code: 1 }),
        };
        self.state = next;
        action
    }
}

/// A daemon never goes back to an earlier state, binds only while
/// starting, and gives up its endpoint before it ends after a signal.
pub proof fn lemma_daemon_progress(state: DaemonState, event: DaemonEvent)
    ensures
        state_rank(daemon_step(state, event).0) >= state_rank(state),
        daemon_step(state, event).1 == DaemonAction::Bind ==> state == DaemonState::Starting,
        daemon_step(state, event).1 == DaemonAction::CleanUp ==> state == DaemonState::Listening
            && event == DaemonEvent::Signal,
        daemon_step(state, event).1 == (DaemonAction::Exit { code: 0 }) ==> state
            == DaemonState::ShuttingDown && event == DaemonEvent::CleanedUp,
{
}

} // verus!
