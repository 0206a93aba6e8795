//! The manifest: the list of the files to synchronize.

use vstd::prelude::*;
use crate::error::{ErrorKind, ErrorView, SyncError};

verus! {

/// The contents of a manifest file: under its one key, the names of the
/// files, each relative to the home directory.
#[derive(Clone, Debug, PartialEq, Eq)]
pub struct DotFiles {
    pub dotfiles: Vec<String>,
}

/// The error for a manifest that could not be opened or does not have the
/// expected shape, with the reason that the reader gave.
pub open spec fn parse_failure(reason: Seq<char>) -> ErrorView {
    ErrorView { kind: ErrorKind::Parse, detail: reason }
}

/// The list of a manifest that was loaded, in the order of the file; `Parse`
/// with the reason when loading failed. There is no partial list.
pub fn read_yaml(loaded: Result<DotFiles, String>) -> (list: Result<Vec<String>, SyncError>)
    ensures
        match loaded {
            Ok(data) => list == Ok::<Vec<String>, SyncError>(data.dotfiles),
            Err(reason) => list is Err && list->Err_0@ == parse_failure(reason@),
        },
{
    match loaded {
        Ok(data) => Ok(data.dotfiles),
        Err(reason) => Err(SyncError::new(ErrorKind::Parse, reason)),
    }
}

} // verus!
