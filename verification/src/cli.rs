//! The client's side: reading a location, making the request for a
//! command, and rendering the response.

use vstd::prelude::*;

use crate::ipc::protocol::{Method, ReplyBody, Request, ResponseResult};
use crate::numbers::{decimal, parse_u32, parsed_u32, push_decimal};
use crate::text::{from_chars, push_all, push_str, string_views, to_chars};

verus! {

/// A file and a 1-based line in it.
#[derive(Debug, Clone)]
pub struct FileLocation {
    pub file: String,
    pub line: u32,
}

/// What the command line asked for.
#[derive(Debug, Clone)]
pub enum Command {
    Docs { location: FileLocation, symbol: String },
    Impl { location: FileLocation, symbol: String },
    Refs { location: FileLocation, symbol: String },
    Resolve { symbol: String, file: String },
    Status,
    Stop,
    Logs { lines: usize },
    Daemon { workspace: String },
}

/// What is to be done for a command.
#[derive(Debug, Clone)]
pub enum ClientPlan {
    /// Run the daemon for `workspace` in this process.
    RunDaemon { workspace: String },
    /// Send `request` to the workspace's daemon and render its response.
    Send { request: Request },
    /// Print `message` to standard error; nothing is sent.
    Notice { message: String },
}

/// The number of characters before the first `':'` of `s` (`s.len()` when
/// it holds none).
pub open spec fn first_colon(s: Seq<char>) -> nat
    decreases s.len(),
{
    if s.len() == 0 || s[0] == ':' {
        0
    } else {
        1 + first_colon(s.drop_first())
    }
}

/// What `s` says as a location `file:line`: the file before the first
/// colon, and after it a line number greater than 0; else the message
/// that says what is wrong.
pub open spec fn parsed_location(s: Seq<char>) -> Result<(Seq<char>, u32), Seq<char>> {
    let k = first_colon(s);
    if k >= s.len() {
        Err("Expected format: file:line (e.g., src/main.rs:42)"@)
    } else {
        match parsed_u32(s.skip(k as int + 1)) {
            None => Err("Line number must be a positive integer"@),
            Some(line) => if line == 0 {
                Err("Line number must be greater than 0"@)
            } else {
                Ok((s.take(k as int), line))
            },
        }
    }
}

/// `first_colon` is the place of the first colon.
pub proof fn lemma_first_colon(s: Seq<char>, m: int)
    requires
        0 <= m <= s.len(),
        forall|j: int| 0 <= j < m ==> s[j] != ':',
        m == s.len() || s[m] == ':',
    ensures
        first_colon(s) == m as nat,
    decreases s.len(),
{
    if s.len() == 0 || s[0] == ':' {
    } else {
        let rest = s.drop_first();
        assert forall|j: int| 0 <= j < m - 1 implies rest[j] != ':' by {
            assert(rest[j] == s[j + 1]);
        }
        lemma_first_colon(rest, m - 1);
    }
}

/// Reads a location `file:line` as given on the command line. The line
/// must be a number greater than 0.
pub fn parse_file_location(s: &str) -> (r: Result<FileLocation, String>)
    ensures
        match r {
            Ok(location) => parsed_location(s@) == Ok::<(Seq<char>, u32), Seq<char>>(
                (location.file@, location.line),
            ),
            Err(message) => parsed_location(s@) == Err::<(Seq<char>, u32), Seq<char>>(message@),
        },
{
    let chars = to_chars(s);
    let n = chars.len();
    let mut k: usize = 0;
    while k < n && chars[k] != ':'
        invariant
            k <= n,
            n == chars.len(),
            forall|j: int| 0 <= j < k ==> chars@[j] != ':',
        decreases n - k,
    {
        k += 1;
    }
    proof {
        lemma_first_colon(chars@, k as int);
    }
    if k >= n {
        return Err("Expected format: file:line (e.g., src/main.rs:42)".to_owned());
    }
    let mut file: Vec<char> = Vec::new();
    let mut i: usize = 0;
    while i < k
        invariant
            i <= k < chars.len(),
            file@ == chars@.take(i as int),
        decreases k - i,
    {
        file.push(chars[i]);
        proof {
            assert(file@ =~= chars@.take(i + 1));
        }
        i += 1;
    }
    let mut number: Vec<char> = Vec::new();
    let mut j: usize = k + 1;
    proof {
        assert(number@ =~= chars@.subrange(k + 1, j as int));
    }
    while j < n
        invariant
            k + 1 <= j <= n,
            n == chars.len(),
            number@ == chars@.subrange(k + 1, j as int),
        decreases n - j,
    {
        number.push(chars[j]);
        proof {
            assert(number@ =~= chars@.subrange(k + 1, j + 1));
        }
        j += 1;
    }
    proof {
        assert(number@ =~= chars@.skip(k + 1));
    }
    match parse_u32(&number) {
        None => Err("Line number must be a positive integer".to_owned()),
        Some(line) => {
            if line == 0 {
                Err("Line number must be greater than 0".to_owned())
            } else {
                Ok(FileLocation { file: from_chars(&file), line })
            }
        },
    }
}

/// The notice printed for the log command.
pub open spec fn logs_notice(lines: usize) -> Seq<char> {
    "Log viewing not yet implemented (would show "@ + decimal(lines as nat) + " lines)"@
}

/// The plan owed for `command`, with `id` as the id of the request.
pub open spec fn planned(command: Command, id: String, plan: ClientPlan) -> bool {
    match command {
        Command::Docs { location, symbol } => plan == (ClientPlan::Send {
            request: Request {
                id,
                method: Method::Docs { file: location.file, line: location.line, symbol },
            },
        }),
        Command::Impl { location, symbol } => plan == (ClientPlan::Send {
            request: Request {
                id,
                method: Method::Impl { file: location.file, line: location.line, symbol },
            },
        }),
        Command::Refs { location, symbol } => plan == (ClientPlan::Send {
            request: Request {
                id,
                method: Method::Refs { file: location.file, line: location.line, symbol },
            },
        }),
        Command::Resolve { symbol, file } => plan == (ClientPlan::Send {
            request: Request { id, method: Method::Resolve { file, symbol } },
        }),
        Command::Status => plan == (ClientPlan::Send { request: Request { id, method: Method::Status } }),
        Command::Stop => plan == (ClientPlan::Send {
            request: Request { id, method: Method::Shutdown },
        }),
        Command::Logs { lines } => plan matches ClientPlan::Notice { message } && message@
            == logs_notice(lines),
        Command::Daemon { workspace } => plan == (ClientPlan::RunDaemon { workspace }),
    }
}

/// What is to be done for `command`. `id` becomes the id of the request,
/// where one is sent.
pub fn plan_command(command: Command, id: String) -> (plan: ClientPlan)
    ensures
        planned(command, id, plan),
{
    match command {
        Command::Docs { location, symbol } => ClientPlan::Send {
            request: Request {
                id,
                method: Method::Docs { file: location.file, line: location.line, symbol },
            },
        },
        Command::Impl { location, symbol } => ClientPlan::Send {
            request: Request {
                id,
                method: Method::Impl { file: location.file, line: location.line, symbol },
            },
        },
        Command::Refs { location, symbol } => ClientPlan::Send {
            request: Request {
                id,
                method: Method::Refs { file: location.file, line: location.line, symbol },
            },
        },
        Command::Resolve { symbol, file } => ClientPlan::Send {
            request: Request { id, method: Method::Resolve { file, symbol } },
        },
        Command::Status => ClientPlan::Send { request: Request { id, method: Method::Status } },
        Command::Stop => ClientPlan::Send { request: Request { id, method: Method::Shutdown } },
        Command::Logs { lines } => {
            let mut out: Vec<char> = Vec::new();
            push_str(&mut out, "Log viewing not yet implemented (would show ");
            push_decimal(&mut out, lines as u64);
            push_str(&mut out, " lines)");
            proof {
                assert(out@ =~= logs_notice(lines));
            }
            ClientPlan::Notice { message: from_chars(&out) }
        },
        Command::Daemon { workspace } => ClientPlan::RunDaemon { workspace },
    }
}

/// What the client prints for a response, and how it exits.
#[derive(Debug, Clone)]
pub struct Rendered {
    /// The texts printed to standard output, one print each.
    pub stdout: Vec<String>,
    /// The texts printed to standard error, one print each.
    pub stderr: Vec<String>,
    /// The exit code of the process.
    pub exit_code: i32,
}

/// `text`, or `unknown` where there is none.
pub open spec fn or_unknown(text: Option<String>) -> Seq<char> {
    match text {
        Some(t) => t@,
        None => "unknown"@,
    }
}

/// A truth value as printed.
pub open spec fn bool_text(b: bool) -> Seq<char> {
    if b {
        "true"@
    } else {
        "false"@
    }
}

/// The three lines of a status report.
pub open spec fn status_lines(body: ReplyBody) -> Seq<Seq<char>> {
    match body {
        ReplyBody::Status { status, workspace, indexing } => seq![
            "Status: "@ + or_unknown(status),
            "Workspace: "@ + or_unknown(workspace),
            "Indexing: "@ + bool_text(indexing == Some(true)),
        ],
        _ => seq![
            "Status: unknown"@,
            "Workspace: unknown"@,
            "Indexing: false"@,
        ],
    }
}

/// One text, if there is one.
pub open spec fn optional_line(text: Option<String>) -> Seq<Seq<char>> {
    match text {
        Some(t) => seq![t@],
        None => Seq::empty(),
    }
}

/// What goes to standard output for the success `body` of a request of
/// `method`: the field that answers the method, if the body has it.
pub open spec fn success_lines(method: Method, body: ReplyBody) -> Seq<Seq<char>> {
    match method {
        Method::Docs { .. } => match body {
            ReplyBody::Docs { docs } => optional_line(docs),
            _ => Seq::empty(),
        },
        Method::Impl { .. } => match body {
            ReplyBody::Implementation { implementation } => optional_line(implementation),
            _ => Seq::empty(),
        },
        Method::Refs { .. } => match body {
            ReplyBody::References { references } => string_views(references@),
            _ => Seq::empty(),
        },
        Method::Resolve { .. } => match body {
            ReplyBody::Resolved { resolved } => optional_line(resolved),
            _ => Seq::empty(),
        },
        Method::Status => status_lines(body),
        Method::Shutdown => seq!["Daemon stopped"@],
    }
}

/// What `render_response` owes: a success goes to standard output and
/// exits with 0; an error goes to standard error as one line and exits
/// with 1.
pub open spec fn rendered(method: Method, result: ResponseResult, out: Rendered) -> bool {
    match result {
        ResponseResult::Success { result: body } => {
            &&& string_views(out.stdout@) == success_lines(method, body)
            &&& out.stderr@.len() == 0
            &&& out.exit_code == 0
        },
        ResponseResult::Error { error } => {
            &&& out.stdout@.len() == 0
            &&& string_views(out.stderr@) == seq!["Error: "@ + error@]
            &&& out.exit_code == 1
        },
    }
}

fn push_optional(lines: &mut Vec<String>, text: &Option<String>)
    ensures
        string_views(final(lines)@) == string_views(old(lines)@) + optional_line(*text),
{
    match text {
        Some(t) => {
            lines.push(t.clone());
            proof {
                assert(string_views(lines@) =~= string_views(old(lines)@) + seq![t@]);
            }
        },
        None => {
            proof {
                assert(string_views(lines@) =~= string_views(old(lines)@) + Seq::<
                    Seq<char>,
                >::empty());
            }
        },
    }
}

fn labelled(label: &str, text: &Option<String>) -> (line: String)
    ensures
        line@ == label@ + or_unknown(*text),
{
    let mut out = to_chars(label);
    match text {
        Some(t) => push_str(&mut out, t.as_str()),
        None => push_str(&mut out, "unknown"),
    }
    from_chars(&out)
}

fn status_report(body: &ReplyBody) -> (lines: Vec<String>)
    ensures
        string_views(lines@) == status_lines(*body),
{
    let mut lines: Vec<String> = Vec::new();
    match body {
        ReplyBody::Status { status, workspace, indexing } => {
            lines.push(labelled("Status: ", status));
            lines.push(labelled("Workspace: ", workspace));
            let flag = match indexing {
                Some(true) => true,
                _ => false,
            };
            let mut out = to_chars("Indexing: ");
            if flag {
                push_str(&mut out, "true");
            } else {
                push_str(&mut out, "false");
            }
            lines.push(from_chars(&out));
        },
        _ => {
            lines.push("Status: unknown".to_owned());
            lines.push("Workspace: unknown".to_owned());
            lines.push("Indexing: false".to_owned());
        },
    }
    proof {
        assert(string_views(lines@) =~= status_lines(*body));
    }
    lines
}

fn copy_lines(texts: &Vec<String>) -> (lines: Vec<String>)
    ensures
        string_views(lines@) == string_views(texts@),
{
    let mut lines: Vec<String> = Vec::new();
    let mut i: usize = 0;
    while i < texts.len()
        invariant
            i <= texts.len(),
            lines@.len() == i,
            forall|k: int| 0 <= k < i ==> lines@[k]@ == texts@[k]@,
        decreases texts.len() - i,
    {
        lines.push(texts[i].clone());
        i += 1;
    }
    proof {
        assert(string_views(lines@) =~= string_views(texts@));
    }
    lines
}

/// What the client prints for the response to a request of `method`, and
/// the code it exits with.
pub fn render_response(method: &Method, result: &ResponseResult) -> (out: Rendered)
    ensures
        rendered(*method, *result, out),
{
    match result {
        ResponseResult::Error { error } => {
            let mut line = to_chars("Error: ");
            push_str(&mut line, error.as_str());
            let mut stderr: Vec<String> = Vec::new();
            stderr.push(from_chars(&line));
            proof {
                assert(string_views(stderr@) =~= seq!["Error: "@ + error@]);
            }
            Rendered { stdout: Vec::new(), stderr, exit_code: 1 }
        },
        ResponseResult::Success { result: body } => {
            let mut stdout: Vec<String> = Vec::new();
            proof {
                assert(string_views(stdout@) =~= Seq::<Seq<char>>::empty());
            }
            match method {
                Method::Docs { .. } => {
                    if let ReplyBody::Docs { docs } = body {
                        push_optional(&mut stdout, docs);
                    }
                },
                Method::Impl { .. } => {
                    if let ReplyBody::Implementation { implementation } = body {
                        push_optional(&mut stdout, implementation);
                    }
                },
                Method::Refs { .. } => {
                    if let ReplyBody::References { references } = body {
                        stdout = copy_lines(references);
                    }
                },
                Method::Resolve { .. } => {
                    if let ReplyBody::Resolved { resolved } = body {
                        push_optional(&mut stdout, resolved);
                    }
                },
                Method::Status => {
                    stdout = status_report(body);
                },
                Method::Shutdown => {
                    stdout.push("Daemon stopped".to_owned());
                },
            }
            proof {
                assert(string_views(stdout@) =~= success_lines(*method, *body));
            }
            Rendered { stdout, stderr: Vec::new(), exit_code: 0 }
        },
    }
}

} // verus!
