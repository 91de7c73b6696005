//! The query interface: four operations over whichever backend was chosen
//! when the service was made.

use vstd::prelude::*;

use crate::error::QueryError;
use crate::lsp::connection::{LspConnection, MockLspConnection};
use crate::lsp::locate::SetupError;

verus! {

/// A read-only front of one backend for one workspace. Nothing is cached:
/// every call asks the backend.
pub struct LanguageQueryService<C: LspConnection> {
    lsp: C,
    workspace: String,
}

impl<C: LspConnection> LanguageQueryService<C> {
    /// The backend that answers.
    pub closed spec fn backend(&self) -> C {
        self.lsp
    }

    /// The workspace's path.
    pub closed spec fn workspace_text(&self) -> Seq<char> {
        self.workspace@
    }

    /// A service for `workspace` over `lsp`. `has_manifest` says whether
    /// the workspace holds a `Cargo.toml`: only then is it a project that
    /// the service supports.
    pub fn new(workspace: &str, has_manifest: bool, lsp: C) -> (r: Result<Self, SetupError>)
        ensures
            r is Ok <==> has_manifest,
            r matches Ok(service) ==> service.workspace_text() == workspace@ && service.backend()
                == lsp,
            r matches Err(e) ==> e == SetupError::NotARustProject,
    {
        if has_manifest {
            Ok(LanguageQueryService { lsp, workspace: workspace.to_owned() })
        } else {
            Err(SetupError::NotARustProject)
        }
    }

    /// A service for `workspace` over `lsp`, whatever the workspace holds.
    pub fn new_with_lsp(lsp: C, workspace: &str) -> (service: Self)
        ensures
            service.workspace_text() == workspace@,
            service.backend() == lsp,
    {
        LanguageQueryService { lsp, workspace: workspace.to_owned() }
    }

    /// The workspace's path.
    pub fn workspace_path(&self) -> (path: &str)
        ensures
            path@ == self.workspace_text(),
    {
        self.workspace.as_str()
    }

    /// Documentation of `symbol` near the 1-based `line` of `file`.
    pub fn get_docs(&self, file: &str, line: u32, symbol: &str) -> (r: Result<
        Option<String>,
        QueryError,
    >)
        ensures
            self.backend().hover_result(file@, line, symbol@, r),
    {
        self.lsp.hover(file, line, symbol)
    }

    /// The definition of `symbol` near the 1-based `line` of `file`.
    pub fn get_impl(&self, file: &str, line: u32, symbol: &str) -> (r: Result<
        Option<String>,
        QueryError,
    >)
        ensures
            self.backend().implementation_result(file@, line, symbol@, r),
    {
        self.lsp.implementation(file, line, symbol)
    }

    /// The places that refer to `symbol` near the 1-based `line` of `file`.
    pub fn get_refs(&self, file: &str, line: u32, symbol: &str) -> (r: Result<
        Vec<String>,
        QueryError,
    >)
        ensures
            self.backend().references_result(file@, line, symbol@, r),
    {
        self.lsp.references(file, line, symbol)
    }

    /// What `symbol` is, looked up at its first mention in `file`.
    pub fn resolve_symbol(&self, file: &str, symbol: &str) -> (r: Result<
        Option<String>,
        QueryError,
    >)
        ensures
            self.backend().resolve_result(file@, symbol@, r),
    {
        self.lsp.resolve_symbol(file, symbol)
    }
}

/// A service over the stand-in backend.
pub fn create_test_service(workspace: &str) -> (service: LanguageQueryService<MockLspConnection>)
    ensures
        service.workspace_text() == workspace@,
{
    LanguageQueryService::new_with_lsp(MockLspConnection::new(), workspace)
}

} // verus!
