//! The command surface: from the arguments of an invocation to the request
//! that it stands for.

use vstd::prelude::*;
use crate::error::{ErrorKind, ErrorView, SyncError};
use crate::path::{join, joined};

verus! {

/// The name of the subcommand that saves.
pub const SAVE_COMMAND: &'static str = "save";

/// The name of the subcommand that installs.
pub const INSTALL_COMMAND: &'static str = "install";

/// The other name of the subcommand that installs.
pub const APPLY_COMMAND: &'static str = "apply";

/// What precedes the name of a subcommand that is not known, in the message
/// of the usage error.
pub const UNSUPPORTED_COMMAND: &'static str = "Unsupported subcommand: ";

/// Where the private SSH key is looked for, below the home directory, when
/// none is given.
pub const DEFAULT_KEY: &'static str = ".ssh/id_rsa";

/// The arguments of one invocation, as they were given.
#[derive(Clone, Debug, PartialEq, Eq)]
pub struct CliArgs {
    /// The path of the manifest.
    pub dotfile_yaml: Option<String>,
    /// The name of the subcommand.
    pub subcommand: Option<String>,
    /// The destination directory of a save.
    pub dest_dir: Option<String>,
    /// The address of the remote repository of an install.
    pub url: Option<String>,
    /// The path of the private SSH key of an install.
    pub ssh_key: Option<String>,
    /// Whether the run only reports what it would do.
    pub dry_run: bool,
}

/// Mathematical value of [`CliArgs`].
pub struct ArgsView {
    pub dotfile_yaml: Option<Seq<char>>,
    pub subcommand: Option<Seq<char>>,
    pub dest_dir: Option<Seq<char>>,
    pub url: Option<Seq<char>>,
    pub ssh_key: Option<Seq<char>>,
    pub dry_run: bool,
}

impl DeepView for CliArgs {
    type V = ArgsView;

    open spec fn deep_view(&self) -> ArgsView {
        ArgsView {
            dotfile_yaml: self.dotfile_yaml.deep_view(),
            subcommand: self.subcommand.deep_view(),
            dest_dir: self.dest_dir.deep_view(),
            url: self.url.deep_view(),
            ssh_key: self.ssh_key.deep_view(),
            dry_run: self.dry_run,
        }
    }
}

/// What an invocation asks for.
#[derive(Clone, Debug, PartialEq, Eq)]
pub enum Mode {
    /// Copy the listed files from the home directory into `dest_dir`.
    Save { dest_dir: String },
    /// Install the listed files from the repository at `url`.
    Install { url: String, ssh_key: String },
}

/// Mathematical value of a [`Mode`].
pub enum ModeView {
    Save { dest_dir: Seq<char> },
    Install { url: Seq<char>, ssh_key: Seq<char> },
}

/// A well-formed invocation.
#[derive(Clone, Debug, PartialEq, Eq)]
pub struct Request {
    /// The path of the manifest.
    pub dotfile_yaml: String,
    pub mode: Mode,
    pub dry_run: bool,
}

/// Mathematical value of a [`Request`].
pub struct RequestView {
    pub dotfile_yaml: Seq<char>,
    pub mode: ModeView,
    pub dry_run: bool,
}

impl DeepView for Request {
    type V = RequestView;

    open spec fn deep_view(&self) -> RequestView {
        RequestView {
            dotfile_yaml: self.dotfile_yaml@,
            mode: match self.mode {
                Mode::Save { dest_dir } => ModeView::Save { dest_dir: dest_dir@ },
                Mode::Install { url, ssh_key } => ModeView::Install { url: url@, ssh_key: ssh_key@ },
            },
            dry_run: self.dry_run,
        }
    }
}

/// The error for an invocation that cannot be understood, with the message
/// that names what is wrong.
pub open spec fn usage(message: Seq<char>) -> ErrorView {
    ErrorView { kind: ErrorKind::Usage, detail: message }
}

/// The request that `args` stand for, for a user whose home directory is
/// `home_dir`.
///
/// The manifest is asked for first, then the subcommand, then what the
/// subcommand requires; each usage error names what is missing, and the one
/// for a subcommand that is not known names that subcommand. An install
/// without a key uses the default key below the home directory.
pub open spec fn requested(args: ArgsView, home_dir: Seq<char>) -> Result<RequestView, ErrorView> {
    if args.dotfile_yaml is None {
        Err(usage("Cannot find the provided dotfile yaml file"@))
    } else if args.subcommand is None {
        Err(usage("No subcommand provided"@))
    } else if args.subcommand->0 == SAVE_COMMAND@ {
        match args.dest_dir {
            Some(dest_dir) => Ok(
                RequestView {
                    dotfile_yaml: args.dotfile_yaml->0,
                    mode: ModeView::Save { dest_dir },
                    dry_run: args.dry_run,
                },
            ),
            None => Err(usage("No dest-dir provided"@)),
        }
    } else if args.subcommand->0 == INSTALL_COMMAND@ || args.subcommand->0 == APPLY_COMMAND@ {
        match args.url {
            Some(url) => Ok(
                RequestView {
                    dotfile_yaml: args.dotfile_yaml->0,
                    mode: ModeView::Install {
                        url,
                        ssh_key: match args.ssh_key {
                            Some(key) => key,
                            None => joined(home_dir, DEFAULT_KEY@),
                        },
                    },
                    dry_run: args.dry_run,
                },
            ),
            None => Err(usage("No git url provided"@)),
        }
    } else {
        Err(usage(UNSUPPORTED_COMMAND@ + args.subcommand->0))
    }
}

/// Mathematical value of the outcome of a dispatch.
pub open spec fn request_view(outcome: Result<Request, SyncError>) -> Result<RequestView, ErrorView> {
    match outcome {
        Ok(request) => Ok(request.deep_view()),
        Err(e) => Err(e@),
    }
}

/// A usage error with the given message.
fn usage_error(message: &str) -> (e: SyncError)
    ensures
        e@ == usage(message@),
{
    SyncError::new(ErrorKind::Usage, String::from_str(message))
}

/// Whether `name` reads `word`.
fn is_word(name: &String, word: &str) -> (same: bool)
    ensures
        same == (name@ == word@),
{
    *name == String::from_str(word)
}

/// Turns the arguments of an invocation into a request, for a user whose home
/// directory is `home_dir`.
pub fn dispatch(args: &CliArgs, home_dir: &String) -> (outcome: Result<Request, SyncError>)
    ensures
        request_view(outcome) == requested(args.deep_view(), home_dir@),
{
    let dotfile_yaml = match &args.dotfile_yaml {
        Some(path) => path.clone(),
        None => { return Err(usage_error("Cannot find the provided dotfile yaml file")); },
    };
    let name = match &args.subcommand {
        Some(name) => name,
        None => { return Err(usage_error("No subcommand provided")); },
    };
    if is_word(name, SAVE_COMMAND) {
        match &args.dest_dir {
            Some(dest_dir) => Ok(
                Request { dotfile_yaml, mode: Mode::Save { dest_dir: dest_dir.clone() }, dry_run: args.dry_run },
            ),
            None => Err(usage_error("No dest-dir provided")),
        }
    } else if is_word(name, INSTALL_COMMAND) || is_word(name, APPLY_COMMAND) {
        match &args.url {
            Some(url) => {
                let ssh_key = match &args.ssh_key {
                    Some(key) => key.clone(),
                    None => join(home_dir, DEFAULT_KEY),
                };
                Ok(Request { dotfile_yaml, mode: Mode::Install { url: url.clone(), ssh_key }, dry_run: args.dry_run })
            },
            None => Err(usage_error("No git url provided")),
        }
    } else {
        Err(SyncError::new(ErrorKind::Usage, String::from_str(UNSUPPORTED_COMMAND).concat(name.as_str())))
    }
}

/// The exit status of the process after a run that ended with `outcome`:
/// 0 after a success, 1 after any failure.
pub fn exit_code(outcome: &Result<Vec<u8>, SyncError>) -> (code: i32)
    ensures
        outcome is Ok ==> code == 0,
        outcome is Err ==> code == 1,
{
    match outcome {
        Ok(_) => 0,
        Err(_) => 1,
    }
}

} // verus!
