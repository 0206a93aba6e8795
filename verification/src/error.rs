//! The error type shared by every component.

use vstd::prelude::*;

verus! {

/// What went wrong.
#[derive(Clone, Copy, Debug, PartialEq, Eq, Structural)]
pub enum ErrorKind {
    /// The command line lacks a required argument or names no known subcommand.
    Usage,
    /// The manifest could not be opened or does not have the expected shape.
    Parse,
    /// The home directory of the invoking user could not be determined.
    Environment,
    /// A path that must name a regular file does not.
    NotFound,
    /// The remote address is not an SSH address.
    UnsupportedProtocol,
    /// The clone directory exists but holds no valid repository.
    CorruptRepository,
    /// Cloning the remote repository failed.
    Clone,
    /// A filesystem operation failed.
    Io,
}

/// An error: its kind, and the text that goes with it.
///
/// For `NotFound` the detail is the path that was looked for, for
/// `CorruptRepository` the clone directory; for every other kind it is the
/// message itself.
#[derive(Clone, Debug, PartialEq, Eq)]
pub struct SyncError {
    pub kind: ErrorKind,
    pub detail: String,
}

/// Mathematical value of a [`SyncError`].
pub struct ErrorView {
    pub kind: ErrorKind,
    pub detail: Seq<char>,
}

impl View for SyncError {
    type V = ErrorView;

    open spec fn view(&self) -> ErrorView {
        ErrorView { kind: self.kind, detail: self.detail@ }
    }
}

/// The words that precede the detail in the message of an error of this kind.
pub open spec fn message_prefix(kind: ErrorKind) -> Seq<char> {
    match kind {
        ErrorKind::NotFound => "File not found: "@,
        ErrorKind::CorruptRepository => "Not a valid repository: "@,
        _ => Seq::empty(),
    }
}

/// The human-readable message of an error.
pub open spec fn message_text(e: ErrorView) -> Seq<char> {
    message_prefix(e.kind) + e.detail
}

impl SyncError {
    /// An error of the given kind with the given detail.
    pub fn new(kind: ErrorKind, detail: String) -> (e: SyncError)
        ensures
            e@ == (ErrorView { kind, detail: detail@ }),
    {
        SyncError { kind, detail }
    }

    /// The message shown to the user.
    pub fn message(&self) -> (text: String)
        ensures
            text@ == message_text(self@),
    {
        let text = match self.kind {
            ErrorKind::NotFound => String::from_str("File not found: "),
            ErrorKind::CorruptRepository => String::from_str("Not a valid repository: "),
            _ => String::new(),
        };
        text.concat(self.detail.as_str())
    }
}

} // verus!
