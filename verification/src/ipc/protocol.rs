//! The messages of the wire protocol.

use vstd::prelude::*;

verus! {

/// One request of a client. `id` is chosen by the caller and comes back in
/// the response.
#[derive(Debug, Clone)]
pub struct Request {
    pub id: String,
    pub method: Method,
}

/// What a request asks for. Lines are 1-based.
#[derive(Debug, Clone)]
pub enum Method {
    Docs { file: String, line: u32, symbol: String },
    Impl { file: String, line: u32, symbol: String },
    Refs { file: String, line: u32, symbol: String },
    Resolve { file: String, symbol: String },
    Status,
    Shutdown,
}

/// The answer to one request.
#[derive(Debug, Clone)]
pub struct Response {
    pub id: String,
    pub result: ResponseResult,
}

/// Success with a body, or an error message.
#[derive(Debug, Clone)]
pub enum ResponseResult {
    Success { result: ReplyBody },
    Error { error: String },
}

/// The body of a successful response: one object per kind of request, named
/// by its fields.
#[derive(Debug, Clone)]
pub enum ReplyBody {
    Docs { docs: Option<String> },
    Implementation { implementation: Option<String> },
    References { references: Vec<String> },
    Resolved { resolved: Option<String> },
    Status { status: Option<String>, workspace: Option<String>, indexing: Option<bool> },
    Shutdown { shutdown: bool },
}

impl Method {
    /// Whether this is the request that stops the daemon.
    pub fn is_shutdown(&self) -> (b: bool)
        ensures
            b == (self is Shutdown),
    {
        match self {
            Method::Shutdown => true,
            _ => false,
        }
    }
}

impl ResponseResult {
    /// Whether this is a success.
    pub fn is_success(&self) -> (b: bool)
        ensures
            b == (self is Success),
    {
        match self {
            ResponseResult::Success { .. } => true,
            ResponseResult::Error { .. } => false,
        }
    }
}

} // verus!
