//! Paths of scripts and of the files that record a running script.

use vstd::prelude::*;

verus! {

/// Whether a path is absolute on Unix: it starts with the root `/`.
pub open spec fn is_absolute(path: Seq<char>) -> bool {
    path.len() > 0 && path[0] == '/'
}

/// What `std::path::Path::join` gives on Unix for a base path and a path
/// adjoined to it: an absolute path replaces the base; a relative one
/// follows the base, after a `/` where the base is not empty and does not
/// already end in `/`.
pub open spec fn joined_path(base: Seq<char>, rel: Seq<char>) -> Seq<char> {
    if is_absolute(rel) {
        rel
    } else if base.len() > 0 && base.last() != '/' {
        base + seq!['/'] + rel
    } else {
        base + rel
    }
}

/// Calls `std::path::Path::join` on two UTF-8 paths and gives the result as
/// text; the contract claims what `joined_path` states.
#[verifier::external_body]
pub(crate) fn join_path(base: &str, rel: &str) -> (r: String)
    ensures
        r@ == joined_path(base@, rel@),
{
    std::path::Path::new(base).join(rel).to_string_lossy().into_owned()
}

/// The part of a path after its last `/`.
pub open spec fn last_component(path: Seq<char>) -> Seq<char>
    decreases path.len(),
{
    if path.len() == 0 {
        path
    } else if path.last() == '/' {
        Seq::empty()
    } else {
        last_component(path.drop_last()).push(path.last())
    }
}

/// The file name of a path, as `std::path::Path::file_name` reads it on
/// Unix: the last component, where separators and `.` components at the end
/// are passed over; none for an empty path, a root, a path that is `.` or
/// ends in `..`.
pub open spec fn file_name_of(path: Seq<char>) -> Option<Seq<char>>
    decreases path.len(),
{
    let last = last_component(path);
    if path.len() == 0 {
        None
    } else if last.len() == 0 {
        file_name_of(path.drop_last())
    } else if last == seq!['.'] {
        if path.len() == 1 {
            None
        } else {
            file_name_of(path.drop_last())
        }
    } else if last == seq!['.', '.'] {
        None
    } else {
        Some(last)
    }
}

/// The position of the last `.` in a name, `-1` where it has none.
pub open spec fn last_dot(name: Seq<char>) -> int
    decreases name.len(),
{
    if name.len() == 0 {
        -1
    } else if name.last() == '.' {
        name.len() - 1
    } else {
        last_dot(name.drop_last())
    }
}

/// The stem of a file name: the whole name where it has no `.`, or its only
/// `.` is its first character; otherwise the part before the last `.`.
pub open spec fn stem_of_file_name(name: Seq<char>) -> Seq<char> {
    let dot = last_dot(name);
    if dot <= 0 {
        name
    } else {
        name.take(dot)
    }
}

/// What `std::path::Path::file_stem` gives on Unix: the stem of the path's
/// file name, none where it has no file name.
pub open spec fn file_stem_of(path: Seq<char>) -> Option<Seq<char>> {
    match file_name_of(path) {
        Some(name) => Some(stem_of_file_name(name)),
        None => None,
    }
}

/// Calls `std::path::Path::file_stem` on a UTF-8 path and gives the stem as
/// text; the contract claims what `file_stem_of` states.
#[verifier::external_body]
pub(crate) fn file_stem(path: &str) -> (r: Option<String>)
    ensures
        r is Some == file_stem_of(path@) is Some,
        r is Some ==> r.unwrap()@ == file_stem_of(path@).unwrap(),
{
    match std::path::Path::new(path).file_stem() {
        Some(stem) => Some(stem.to_string_lossy().into_owned()),
        None => None,
    }
}

/// The name of the file that records the process id of a running script
/// whose file stem is `stem`.
pub open spec fn pid_file_name_spec(stem: Seq<char>) -> Seq<char> {
    stem + ".pid"@
}

/// Builds the name of the file that records the process id of a running
/// script, from the script's file stem.
pub fn pid_file_name_for_stem(stem: &str) -> (r: String)
    ensures
        r@ == pid_file_name_spec(stem@),
{
    let mut r = stem.to_owned();
    r.append(".pid");
    r
}

/// The prefix, below the user's base directories, under which the files of
/// one macro live: `macro-manager/<executable>/<set>/<id>`.
pub open spec fn macro_prefix_spec(executable: Seq<char>, set: Seq<char>, id: Seq<char>) -> Seq<
    char,
> {
    "macro-manager/"@ + executable + "/"@ + set + "/"@ + id
}

/// Builds the prefix under which the files of one macro live.
pub fn macro_prefix(executable: &str, set: &str, id: &str) -> (r: String)
    ensures
        r@ == macro_prefix_spec(executable@, set@, id@),
{
    let mut r = "macro-manager/".to_owned();
    r.append(executable);
    r.append("/");
    r.append(set);
    r.append("/");
    r.append(id);
    assert(r@ =~= macro_prefix_spec(executable@, set@, id@));
    r
}

} // verus!
