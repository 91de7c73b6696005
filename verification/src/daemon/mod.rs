//! Session location: the endpoint of a workspace and the liveness probe.

pub mod server;

use sha2::Digest;
use vstd::prelude::*;
use vstd::string::StringSliceAdditionalSpecFns;

use crate::paths::{join_path, joined_path};
use crate::text::{from_chars, push_str};

verus! {

/// What a look at an endpoint shows.
#[derive(Debug, Clone, Copy, PartialEq, Eq, Structural)]
pub enum Liveness {
    /// No endpoint file: no daemon runs.
    Absent,
    /// The endpoint file is there: whether a daemon answers is found out
    /// by connecting.
    TryConnect,
    /// A daemon accepted the connection.
    Running,
    /// The file is there but nothing answers: a daemon that crashed left
    /// it. It is to be deleted; no daemon runs.
    Stale,
}

impl Liveness {
    /// Whether a daemon runs, where that is known.
    pub open spec fn alive(self) -> Option<bool> {
        match self {
            Liveness::Absent => Some(false),
            Liveness::TryConnect => None,
            Liveness::Running => Some(true),
            Liveness::Stale => Some(false),
        }
    }

    /// Whether the endpoint file is to be deleted.
    pub open spec fn removes_endpoint(self) -> bool {
        self is Stale
    }

    /// Whether a daemon runs; `None` as long as connecting has to tell.
    pub fn is_alive(&self) -> (r: Option<bool>)
        ensures
            r == self.alive(),
    {
        match self {
            Liveness::Absent => Some(false),
            Liveness::TryConnect => None,
            Liveness::Running => Some(true),
            Liveness::Stale => Some(false),
        }
    }
}

/// What is known of the daemon behind an endpoint. `exists` says whether
/// the endpoint file is there; `connected` says how an attempt to connect
/// went, once one was made.
///
/// Without the file no daemon runs, and nothing is tried. With it, a
/// connection decides: accepted, a daemon runs; refused, the file is stale
/// and is deleted.
pub open spec fn liveness(exists: bool, connected: Option<bool>) -> Liveness {
    if !exists {
        Liveness::Absent
    } else {
        match connected {
            None => Liveness::TryConnect,
            Some(true) => Liveness::Running,
            Some(false) => Liveness::Stale,
        }
    }
}

/// Probes an endpoint: what a look at it shows, and what is to be done.
pub fn is_daemon_running(exists: bool, connected: Option<bool>) -> (r: Liveness)
    ensures
        r == liveness(exists, connected),
{
    if !exists {
        return Liveness::Absent;
    }
    match connected {
        None => Liveness::TryConnect,
        Some(true) => Liveness::Running,
        Some(false) => Liveness::Stale,
    }
}

/// A stale endpoint, one whose file is there while nothing accepts a
/// connection, is deleted and reported as not running.
pub proof fn lemma_stale_endpoint_removed()
    ensures
        liveness(true, Some(false)).removes_endpoint(),
        liveness(true, Some(false)).alive() == Some(false),
        forall|exists: bool, connected: Option<bool>|
            (#[trigger] liveness(exists, connected)).removes_endpoint() <==> exists && connected
                == Some(false),
{
}

/// Names the SHA-256 digest of `data`, as `sha2::Sha256` computes it.
pub uninterp spec fn sha256(data: Seq<u8>) -> Seq<u8>;

/// `sha2::Sha256::digest`: the 32 bytes of the SHA-256 digest of `data`.
#[verifier::external_body]
fn sha256_digest(data: &[u8]) -> (digest: Vec<u8>)
    ensures
        digest@ == sha256(data@),
        digest@.len() == 32,
{
    sha2::Sha256::digest(data).to_vec()
}

/// The lower-case hexadecimal digit of `n`.
pub open spec fn hex_digit(n: int) -> char {
    if n == 0 {
        '0'
    } else if n == 1 {
        '1'
    } else if n == 2 {
        '2'
    } else if n == 3 {
        '3'
    } else if n == 4 {
        '4'
    } else if n == 5 {
        '5'
    } else if n == 6 {
        '6'
    } else if n == 7 {
        '7'
    } else if n == 8 {
        '8'
    } else if n == 9 {
        '9'
    } else if n == 10 {
        'a'
    } else if n == 11 {
        'b'
    } else if n == 12 {
        'c'
    } else if n == 13 {
        'd'
    } else if n == 14 {
        'e'
    } else {
        'f'
    }
}

/// `bytes` in lower-case hexadecimal, two digits a byte.
pub open spec fn hex_lower(bytes: Seq<u8>) -> Seq<char> {
    Seq::new(
        2 * bytes.len(),
        |i: int|
            if i % 2 == 0 {
                hex_digit(bytes[i / 2] as int / 16)
            } else {
                hex_digit(bytes[i / 2] as int % 16)
            },
    )
}

/// The file name of the endpoint of the workspace spelled `workspace`:
/// `lq-`, the first eight hexadecimal digits of the SHA-256 digest of the
/// path's bytes, `.sock`.
pub open spec fn socket_name(workspace: Seq<char>) -> Seq<char> {
    "lq-"@ + hex_lower(sha256(vstd::utf8::encode_utf8(workspace))).take(8) + ".sock"@
}

/// The endpoint of `workspace` below the directory `socket_dir`.
pub open spec fn socket_path(socket_dir: Seq<char>, workspace: Seq<char>) -> Seq<char> {
    joined_path(socket_dir, socket_name(workspace))
}

fn hex_char(n: u8) -> (c: char)
    requires
        n < 16,
    ensures
        c == hex_digit(n as int),
{
    if n == 0 {
        '0'
    } else if n == 1 {
        '1'
    } else if n == 2 {
        '2'
    } else if n == 3 {
        '3'
    } else if n == 4 {
        '4'
    } else if n == 5 {
        '5'
    } else if n == 6 {
        '6'
    } else if n == 7 {
        '7'
    } else if n == 8 {
        '8'
    } else if n == 9 {
        '9'
    } else if n == 10 {
        'a'
    } else if n == 11 {
        'b'
    } else if n == 12 {
        'c'
    } else if n == 13 {
        'd'
    } else if n == 14 {
        'e'
    } else {
        'f'
    }
}

/// Appends the first `2 * count` hexadecimal digits of `bytes` to `out`.
fn push_hex_prefix(out: &mut Vec<char>, bytes: &Vec<u8>, count: usize)
    requires
        count <= bytes.len(),
    ensures
        final(out)@ == old(out)@ + hex_lower(bytes@).take(2 * count),
{
    let mut i: usize = 0;
    proof {
        assert(out@ =~= old(out)@ + hex_lower(bytes@).take(0));
    }
    while i < count
        invariant
            i <= count <= bytes.len(),
            out@ == old(out)@ + hex_lower(bytes@).take(2 * i),
        decreases count - i,
    {
        let b = bytes[i];
        out.push(hex_char(b / 16));
        out.push(hex_char(b % 16));
        proof {
            let hex = hex_lower(bytes@);
            assert(hex[2 * i] == hex_digit(b as int / 16));
            assert(hex[2 * i + 1] == hex_digit(b as int % 16));
            assert(out@ =~= old(out)@ + hex.take(2 * (i + 1)));
        }
        i += 1;
    }
}

/// The endpoint of a workspace: a function of the workspace's path and of
/// the directory that holds the endpoints, and of nothing else, so that
/// every process finds the same endpoint for the same workspace.
pub fn get_socket_path(socket_dir: &str, workspace: &str) -> (path: String)
    ensures
        path@ == socket_path(socket_dir@, workspace@),
{
    let digest = sha256_digest(workspace.as_bytes());
    let mut name: Vec<char> = Vec::new();
    push_str(&mut name, "lq-");
    push_hex_prefix(&mut name, &digest, 4);
    push_str(&mut name, ".sock");
    proof {
        assert(name@ =~= socket_name(workspace@));
    }
    let name = from_chars(&name);
    join_path(socket_dir, name.as_str())
}

} // verus!
