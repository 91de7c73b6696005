//! Finding the engine's executable.

use vstd::prelude::*;

use crate::lines::{trim, trimmed};
use crate::text::{from_chars, to_chars};

verus! {

/// Why a session could not be set up.
#[derive(Debug, Clone, Copy, PartialEq, Eq, Structural)]
pub enum SetupError {
    /// The engine's executable is in none of the places looked at.
    EngineNotFound,
    /// The workspace has no `Cargo.toml`.
    NotARustProject,
}

/// The line that tells a user why the session could not be set up.
pub open spec fn setup_error_text(e: SetupError) -> Seq<char> {
    match e {
        SetupError::EngineNotFound =>
            "Could not find rust-analyzer. Please ensure it is installed and in your PATH."@,
        SetupError::NotARustProject =>
            "Not a Rust project (no Cargo.toml found). Only Rust projects are currently supported."@,
    }
}

impl SetupError {
    /// The line that tells a user why the session could not be set up.
    pub fn message(&self) -> (text: String)
        ensures
            text@ == setup_error_text(*self),
    {
        match self {
            SetupError::EngineNotFound => {
                "Could not find rust-analyzer. Please ensure it is installed and in your PATH.".to_owned()
            },
            SetupError::NotARustProject => {
                "Not a Rust project (no Cargo.toml found). Only Rust projects are currently supported.".to_owned()
            },
        }
    }
}

/// `path` begins with a tilde.
pub open spec fn tilde_led(path: Seq<char>) -> bool {
    path.len() > 0 && path[0] == '~'
}

/// `tail` is the end of `text`.
pub open spec fn ends_with(text: Seq<char>, tail: Seq<char>) -> bool {
    tail.len() <= text.len() && text.subrange(text.len() - tail.len(), text.len() as int) == tail
}

/// `shellexpand::tilde`: a path that does not begin with a tilde comes
/// back unchanged; in one that does, the tilde gives way to the home
/// directory or stays (no home directory is known, or the tilde names
/// another user), and what follows the tilde is kept either way.
#[verifier::external_body]
fn expand_tilde(path: &str) -> (expanded: String)
    ensures
        !tilde_led(path@) ==> expanded@ == path@,
        tilde_led(path@) ==> ends_with(expanded@, path@.skip(1)),
{
    shellexpand::tilde(path).into_owned()
}

/// The places where the engine is commonly installed, as spelled before
/// the home directory is filled in.
pub open spec fn common_locations() -> Seq<Seq<char>> {
    seq![
        "/usr/local/bin/rust-analyzer"@,
        "/usr/bin/rust-analyzer"@,
        "/opt/homebrew/bin/rust-analyzer"@,
        "~/.cargo/bin/rust-analyzer"@,
    ]
}

/// The places where the engine is commonly installed, in the order in
/// which they are tried. The last lies in the user's home directory.
pub fn common_paths() -> (paths: Vec<String>)
    ensures
        paths@.len() == 4,
        forall|i: int| 0 <= i < 3 ==> (#[trigger] paths@[i])@ == common_locations()[i],
        ends_with(paths@[3]@, "/.cargo/bin/rust-analyzer"@),
{
    let mut paths: Vec<String> = Vec::new();
    paths.push(expand_tilde("/usr/local/bin/rust-analyzer"));
    paths.push(expand_tilde("/usr/bin/rust-analyzer"));
    paths.push(expand_tilde("/opt/homebrew/bin/rust-analyzer"));
    paths.push(expand_tilde("~/.cargo/bin/rust-analyzer"));
    proof {
        reveal_strlit("/usr/local/bin/rust-analyzer");
        reveal_strlit("/usr/bin/rust-analyzer");
        reveal_strlit("/opt/homebrew/bin/rust-analyzer");
        reveal_strlit("~/.cargo/bin/rust-analyzer");
        reveal_strlit("/.cargo/bin/rust-analyzer");
        assert("~/.cargo/bin/rust-analyzer"@.skip(1) =~= "/.cargo/bin/rust-analyzer"@);
    }
    paths
}

/// `i` is the first candidate that exists.
pub open spec fn is_first_existing(candidates: Seq<String>, exists: Seq<bool>, i: int) -> bool {
    &&& 0 <= i < candidates.len()
    &&& i < exists.len()
    &&& exists[i]
    &&& forall|k: int| 0 <= k < i ==> !exists[k]
}

/// No candidate exists.
pub open spec fn none_exists(candidates: Seq<String>, exists: Seq<bool>) -> bool {
    forall|k: int| 0 <= k < candidates.len() && k < exists.len() ==> !exists[k]
}

/// Picks the engine's executable.
///
/// `which_output` is what a search of the executable path printed, if it
/// found the engine; `candidates` are the common places, and `exists[i]`
/// says whether `candidates[i]` is there (a candidate without an entry
/// counts as absent).
///
/// A search that found the engine decides: its output, trimmed. Else the
/// first candidate that exists is taken. With neither, the engine is not
/// found.
pub fn find_rust_analyzer(
    which_output: Option<&str>,
    candidates: &Vec<String>,
    exists: &Vec<bool>,
) -> (r: Result<String, SetupError>)
    ensures
        match which_output {
            Some(out) => r matches Ok(path) && path@ == trimmed(out@),
            None => match r {
                Ok(path) => exists|i: int|
                    is_first_existing(candidates@, exists@, i) && path == candidates@[i],
                Err(e) => none_exists(candidates@, exists@) && e == SetupError::EngineNotFound,
            },
        },
{
    if let Some(out) = which_output {
        let chars = to_chars(out);
        let path = trim(&chars);
        return Ok(from_chars(&path));
    }
    let mut i: usize = 0;
    while i < candidates.len() && i < exists.len()
        invariant
            which_output is None,
            forall|k: int| 0 <= k < i ==> !exists@[k],
        decreases candidates.len() - i,
    {
        if exists[i] {
            let path = candidates[i].clone();
            assert(is_first_existing(candidates@, exists@, i as int));
            return Ok(path);
        }
        i += 1;
    }
    Err(SetupError::EngineNotFound)
}

} // verus!
