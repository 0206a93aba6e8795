//! Effects that the caller performs on behalf of the library.

use vstd::prelude::*;

verus! {

/// One effect on the outside world.
///
/// The caller performs the action and reports `Ok(())` when it succeeded, or
/// `Err` with the reason when it did not. For the two checks, `Ok(())` means
/// yes and `Err` means no.
#[derive(Clone, Debug, PartialEq, Eq)]
pub enum Action {
    /// Check that `path` names a regular file.
    CheckFile { path: String },
    /// Check that something exists at `path`.
    CheckExists { path: String },
    /// Open the git repository in `dir`.
    OpenRepository { dir: String },
    /// Clone `url` into `dir`, authenticating as user `git` with the SSH key pair.
    CloneRepository { url: String, dir: String, public_key: String, private_key: String },
    /// Create every missing directory above `path`.
    CreateParentDirs { path: String },
    /// Copy the bytes of `source` to `dest`, replacing what is there.
    CopyFile { source: String, dest: String },
    /// Write `contents` to `path`, replacing what is there.
    WriteFile { path: String, contents: String },
    /// Emit an informational record.
    Log { record: String },
}

/// Mathematical value of an [`Action`].
pub enum ActionView {
    CheckFile { path: Seq<char> },
    CheckExists { path: Seq<char> },
    OpenRepository { dir: Seq<char> },
    CloneRepository { url: Seq<char>, dir: Seq<char>, public_key: Seq<char>, private_key: Seq<char> },
    CreateParentDirs { path: Seq<char> },
    CopyFile { source: Seq<char>, dest: Seq<char> },
    WriteFile { path: Seq<char>, contents: Seq<char> },
    Log { record: Seq<char> },
}

impl View for Action {
    type V = ActionView;

    open spec fn view(&self) -> ActionView {
        match *self {
            Action::CheckFile { path } => ActionView::CheckFile { path: path@ },
            Action::CheckExists { path } => ActionView::CheckExists { path: path@ },
            Action::OpenRepository { dir } => ActionView::OpenRepository { dir: dir@ },
            Action::CloneRepository { url, dir, public_key, private_key } => ActionView::CloneRepository {
                url: url@,
                dir: dir@,
                public_key: public_key@,
                private_key: private_key@,
            },
            Action::CreateParentDirs { path } => ActionView::CreateParentDirs { path: path@ },
            Action::CopyFile { source, dest } => ActionView::CopyFile { source: source@, dest: dest@ },
            Action::WriteFile { path, contents } => ActionView::WriteFile {
                path: path@,
                contents: contents@,
            },
            Action::Log { record } => ActionView::Log { record: record@ },
        }
    }
}

/// What the caller reports of an action, with the reason of a failure as text.
pub open spec fn outcome_view(outcome: Result<(), String>) -> Result<(), Seq<char>> {
    match outcome {
        Ok(_) => Ok(()),
        Err(reason) => Err(reason@),
    }
}

} // verus!
