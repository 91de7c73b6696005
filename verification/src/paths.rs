//! File-system paths as text. Only their spelling is looked at here; nothing
//! touches the disk.

use vstd::prelude::*;

use crate::text::{from_chars, push_all, to_chars};

verus! {

/// Names what `std::path::Path::file_name` returns for the path spelled
/// `path`, on the platform the crate is built for: its final component, if
/// it has one.
pub uninterp spec fn path_file_name(path: Seq<char>) -> Option<Seq<char>>;

/// Names what `std::path::Path::strip_prefix` returns for the path spelled
/// `path` and the base spelled `base`: the rest of `path` below `base`, if
/// `base` is a prefix of it component by component.
pub uninterp spec fn path_strip_prefix(path: Seq<char>, base: Seq<char>) -> Option<Seq<char>>;

/// `Path::file_name`, with the component turned back into text.
#[verifier::external_body]
fn final_component(path: &str) -> (name: Option<String>)
    ensures
        match name {
            Some(n) => path_file_name(path@) == Some(n@),
            None => path_file_name(path@) is None,
        },
{
    std::path::Path::new(path).file_name().map(|n| n.to_string_lossy().into_owned())
}

/// `Path::strip_prefix`, with the remainder turned back into text.
#[verifier::external_body]
fn below(path: &str, base: &str) -> (rest: Option<String>)
    ensures
        match rest {
            Some(r) => path_strip_prefix(path@, base@) == Some(r@),
            None => path_strip_prefix(path@, base@) is None,
        },
{
    std::path::Path::new(path).strip_prefix(base).ok().map(|p| p.to_string_lossy().into_owned())
}

/// The name under which a file is shown: its final component, or nothing
/// where the path has none.
pub open spec fn display_name(path: Seq<char>) -> Seq<char> {
    match path_file_name(path) {
        Some(n) => n,
        None => Seq::empty(),
    }
}

/// The spelling under which a path is shown to the user of `workspace`:
/// relative to the workspace where it lies below it, else unchanged.
pub open spec fn workspace_relative(path: Seq<char>, workspace: Seq<char>) -> Seq<char> {
    match path_strip_prefix(path, workspace) {
        Some(r) => r,
        None => path,
    }
}

/// The final component of `path`, empty where it has none.
pub fn file_name(path: &str) -> (name: String)
    ensures
        name@ == display_name(path@),
{
    match final_component(path) {
        Some(n) => n,
        None => String::new(),
    }
}

/// `path` relative to `workspace` where it lies below it, else `path`.
pub fn relative_to(path: &str, workspace: &str) -> (shown: String)
    ensures
        shown@ == workspace_relative(path@, workspace@),
{
    match below(path, workspace) {
        Some(r) => r,
        None => path.to_owned(),
    }
}

/// The relative path `name` below `dir`: a separator stands between them
/// unless `dir` is empty or ends in one.
pub open spec fn joined_path(dir: Seq<char>, name: Seq<char>) -> Seq<char> {
    if dir.len() == 0 || dir.last() == '/' {
        dir + name
    } else {
        dir + seq!['/'] + name
    }
}

/// The relative path `name` below `dir`.
pub fn join_path(dir: &str, name: &str) -> (path: String)
    ensures
        path@ == joined_path(dir@, name@),
{
    let mut path = to_chars(dir);
    if path.len() > 0 && path[path.len() - 1] != '/' {
        path.push('/');
    }
    let tail = to_chars(name);
    push_all(&mut path, &tail);
    proof {
        assert(path@ =~= joined_path(dir@, name@));
    }
    from_chars(&path)
}

/// The path spelled `file` as an absolute one: itself where it begins at
/// the root, else taken below `current_dir`.
pub open spec fn absolute(file: Seq<char>, current_dir: Seq<char>) -> Seq<char> {
    if file.len() > 0 && file[0] == '/' {
        file
    } else {
        joined_path(current_dir, file)
    }
}

/// `file` as an absolute path, relative paths being taken below
/// `current_dir`.
pub fn absolute_path(file: &str, current_dir: &str) -> (path: String)
    ensures
        path@ == absolute(file@, current_dir@),
{
    let name = to_chars(file);
    if name.len() > 0 && name[0] == '/' {
        return file.to_owned();
    }
    join_path(current_dir, file)
}

} // verus!
