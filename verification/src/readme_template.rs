//! The readme that a backup folder starts with.

use vstd::prelude::*;
use crate::action::{Action, ActionView};

verus! {

/// The text of the template readme.
pub const README_TEXT: &'static str = "# Dotfiles\n
This is a repo to save all the config files
from backing up with [dotfiles-rs](https://github.com/wckdouglas/dotfiles-rs) \n\n
:warning: this repo should be private!!
";

/// The name of the readme inside the backup folder.
pub const README_NAME: &'static str = "README.md";

/// The action that writes the template readme to `readme_fn`.
pub open spec fn readme_request(readme_fn: Seq<char>) -> ActionView {
    ActionView::WriteFile { path: readme_fn, contents: README_TEXT@ }
}

/// Asks for the template readme to be written to `readme_fn`.
pub fn write_template_readme(readme_fn: String) -> (request: Action)
    ensures
        request@ == readme_request(readme_fn@),
{
    Action::WriteFile { path: readme_fn, contents: String::from_str(README_TEXT) }
}

} // verus!
