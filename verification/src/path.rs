//! Paths as text: joining, the home directory, and the check on files.

use vstd::prelude::*;
use crate::error::{ErrorKind, ErrorView, SyncError};

verus! {

/// `base`, a slash, and `name`.
pub open spec fn joined(base: Seq<char>, name: Seq<char>) -> Seq<char> {
    base + seq!['/'] + name
}

/// The path of `name` below `base`.
pub fn join(base: &String, name: &str) -> (path: String)
    ensures
        path@ == joined(base@, name@),
{
    proof {
        reveal_strlit("/");
    }
    let path = base.clone().concat("/").concat(name);
    assert(path@ =~= joined(base@, name@));
    path
}

/// Two names that lead to the same path below one base are the same name.
pub proof fn lemma_joined_injective(base: Seq<char>, a: Seq<char>, b: Seq<char>)
    requires
        joined(base, a) == joined(base, b),
    ensures
        a == b,
{
    let skip = base.len() + 1;
    assert(joined(base, a).subrange(skip as int, joined(base, a).len() as int) =~= a);
    assert(joined(base, b).subrange(skip as int, joined(base, b).len() as int) =~= b);
}

/// How the search for the home directory of the invoking user ended.
#[derive(Clone, Debug, PartialEq, Eq)]
pub enum HomeLookup {
    /// The system knows no home directory for the user.
    Unknown,
    /// There is one, but its path is not valid Unicode.
    Unreadable,
    /// The home directory, as text.
    Found(String),
}

/// The error for a path that does not name a regular file.
pub open spec fn not_found(path: Seq<char>) -> ErrorView {
    ErrorView { kind: ErrorKind::NotFound, detail: path }
}

/// The error for a home directory that the system does not know.
pub open spec fn home_unknown() -> ErrorView {
    ErrorView { kind: ErrorKind::Environment, detail: "Cannot get home directory"@ }
}

/// The error for a home directory whose path is not valid Unicode.
pub open spec fn home_unreadable() -> ErrorView {
    ErrorView { kind: ErrorKind::Environment, detail: "Cannot parse home directory"@ }
}

/// Asks `dirs::home_dir` for the home directory and turns the path it gives
/// into text with `PathBuf::into_os_string` and `OsString::into_string`.
/// The answer depends on the environment of the process, so nothing is
/// claimed of it.
#[verifier::external_body]
fn lookup_home() -> (found: HomeLookup) {
    match dirs::home_dir() {
        Some(dir) => match dir.into_os_string().into_string() {
            Ok(text) => HomeLookup::Found(text),
            Err(_) => HomeLookup::Unreadable,
        },
        None => HomeLookup::Unknown,
    }
}

/// Calls `std::path::Path::is_file` on the path written in `filename`: whether
/// it names a regular file right now. The answer depends on what is on disk,
/// so nothing is claimed of it.
#[verifier::external_body]
fn is_regular_file(filename: &String) -> (present: bool) {
    std::path::Path::new(filename).is_file()
}

/// The home directory that a finished lookup stands for, or the error that
/// says why there is none.
pub fn resolve_home(lookup: HomeLookup) -> (home: Result<String, SyncError>)
    ensures
        match lookup {
            HomeLookup::Found(dir) => home == Ok::<String, SyncError>(dir),
            HomeLookup::Unreadable => home is Err && home->Err_0@ == home_unreadable(),
            HomeLookup::Unknown => home is Err && home->Err_0@ == home_unknown(),
        },
{
    match lookup {
        HomeLookup::Found(dir) => Ok(dir),
        HomeLookup::Unreadable => Err(
            SyncError::new(ErrorKind::Environment, String::from_str("Cannot parse home directory")),
        ),
        HomeLookup::Unknown => Err(
            SyncError::new(ErrorKind::Environment, String::from_str("Cannot get home directory")),
        ),
    }
}

/// The home directory of the invoking user.
///
/// Which of the outcomes occurs is decided by the environment; a failure is
/// always one of the two `Environment` errors.
pub fn home_path() -> (home: Result<String, SyncError>)
    ensures
        home is Err ==> home->Err_0@ == home_unknown() || home->Err_0@ == home_unreadable(),
{
    resolve_home(lookup_home())
}

/// `filename` as a path, given whether it was asked to `check` it and whether
/// a regular file is `present` there: the path itself, unless the check was
/// asked for and no file is there.
pub fn checked_path(filename: &String, check: bool, present: bool) -> (path: Result<
    String,
    SyncError,
>)
    ensures
        check && !present ==> path is Err && path->Err_0@ == not_found(filename@),
        !check || present ==> path is Ok && path->Ok_0@ == filename@,
{
    if check && !present {
        Err(SyncError::new(ErrorKind::NotFound, filename.clone()))
    } else {
        Ok(filename.clone())
    }
}

/// `filename` as a path; with `check`, only if it names a regular file.
///
/// Without `check` the disk is not consulted and the call succeeds. With it,
/// the disk decides; the only failure is `NotFound` for `filename`.
pub fn file_to_path(filename: &String, check: bool) -> (path: Result<String, SyncError>)
    ensures
        !check ==> path is Ok,
        path is Ok ==> path->Ok_0@ == filename@,
        path is Err ==> path->Err_0@ == not_found(filename@),
{
    let present = !check || is_regular_file(filename);
    checked_path(filename, check, present)
}

} // verus!
