//! Planning core of a dotfile backup tool.
//!
//! The crate decides *what* has to happen to save a list of configuration
//! files into a backup folder, or to install them from a cloned repository:
//! which paths are involved, which step follows which outcome, and which
//! error a failed step turns into. It changes nothing on a disk or a network
//! itself. Every effect is handed to the caller as an [`Action`]; the caller
//! performs it and reports the outcome back.
//!
//! A flow is a pair of functions. The first gives the first [`Step`]; the
//! second, named after the first with `_resume`, takes the stage of the
//! pending step and the outcome of its action and gives the next step, until
//! the step is `Finish`.
//!
//! - [`install`] and [`install_resume`] open or clone the repository and end
//!   with the [`Batch`] of copies into the home directory; [`apply`] gives
//!   that batch for a folder that is already there. [`git_clone`] and
//!   [`git_clone_resume`] are the clone alone, into a directory of the
//!   caller's choice.
//! - [`save`] gives the batch of copies into the backup folder;
//!   [`save_readme`] and [`save_resume`] write the readme after it.
//! - [`copy_file`] and [`copy_file_resume`] make one copy of a batch. The
//!   copies of a batch do not depend on each other and may run side by side;
//!   [`combine`] gathers their outcomes.
//!
//! The module [`model`] states what these flows achieve over a model of the
//! files, and proves it.

pub mod action;
pub mod cli;
pub mod error;
pub mod install;
pub mod manifest;
pub mod model;
pub mod path;
pub mod readme_template;
pub mod sync;

pub use crate::action::Action;
pub use crate::error::{ErrorKind, SyncError};
pub use crate::install::{git_clone, git_clone_resume, install, install_resume, CloneStage, InstallStage};
pub use crate::manifest::{read_yaml, DotFiles};
pub use crate::sync::{
    apply, combine, copy_file, copy_file_resume, save, save_readme, save_resume, Batch, CopyStage, SaveStage, Step,
    SyncTask,
};
