//! The repository installer: open the local clone if there is one, clone the
//! remote repository over SSH if there is none, then install from it.

use vstd::prelude::*;
use crate::action::{outcome_view, Action, ActionView};
use crate::error::{ErrorKind, ErrorView, SyncError};
use crate::path::{join, joined, not_found};
use crate::sync::{batch_between, plan_batch, Batch, BatchView, Step, StepView};

verus! {

/// What a remote address must begin with to count as an SSH address.
pub const SSH_PREFIX: &'static str = "git@github.com";

/// The name of the clone directory below the home directory.
pub const CLONE_DIR_NAME: &'static str = "dotfiles";

/// What is appended to the path of a private key to name its public key.
pub const PUBLIC_KEY_SUFFIX: &'static str = ".pub";

/// The message for a remote address that is no SSH address.
pub const UNSUPPORTED_PROTOCOL_TEXT: &'static str =
    "We only support ssh-key cloning, which the github url should start with git@github.com prefix";

/// Whether `text` begins with `prefix`.
pub fn starts_with(text: &str, prefix: &str) -> (yes: bool)
    ensures
        yes == prefix@.is_prefix_of(text@),
{
    let n = prefix.unicode_len();
    if text.unicode_len() < n {
        return false;
    }
    let mut i: usize = 0;
    while i < n
        invariant
            i <= n,
            n == prefix@.len(),
            n <= text@.len(),
            forall|k: int| 0 <= k < i ==> text@[k] == prefix@[k],
        decreases n - i,
    {
        if text.get_char(i) != prefix.get_char(i) {
            return false;
        }
        i += 1;
    }
    assert(prefix@ =~= text@.subrange(0, n as int));
    true
}

/// Whether `url` is an SSH address.
pub open spec fn is_ssh_address(url: Seq<char>) -> bool {
    SSH_PREFIX@.is_prefix_of(url)
}

/// Where the repository is cloned to.
pub open spec fn clone_dir(home_dir: Seq<char>) -> Seq<char> {
    joined(home_dir, CLONE_DIR_NAME@)
}

/// The path of the public key that belongs to a private key.
pub open spec fn public_key_of(private_key: Seq<char>) -> Seq<char> {
    private_key + PUBLIC_KEY_SUFFIX@
}

/// The error for a remote address that is no SSH address.
pub open spec fn unsupported_protocol() -> ErrorView {
    ErrorView { kind: ErrorKind::UnsupportedProtocol, detail: UNSUPPORTED_PROTOCOL_TEXT@ }
}

/// The error for a clone directory that holds no valid repository.
pub open spec fn corrupt_repository(dir: Seq<char>) -> ErrorView {
    ErrorView { kind: ErrorKind::CorruptRepository, detail: dir }
}

/// The error for a clone that failed for the given reason.
pub open spec fn clone_failure(reason: Seq<char>) -> ErrorView {
    ErrorView { kind: ErrorKind::Clone, detail: reason }
}

/// The stages of cloning, each named after the action whose outcome is awaited.
#[derive(Clone, Copy, Debug, PartialEq, Eq, Structural)]
pub enum CloneStage {
    /// The public key file is being checked.
    PublicKey,
    /// The private key file is being checked.
    PrivateKey,
    /// The remote repository is being cloned.
    Clone,
}

/// The stages of installing, each named after the action whose outcome is awaited.
#[derive(Clone, Copy, Debug, PartialEq, Eq, Structural)]
pub enum InstallStage {
    /// The clone directory is being looked for.
    Locate,
    /// The existing clone is being opened.
    Open,
    /// The repository is being cloned, and the clone is at the given stage.
    Clone(CloneStage),
}

/// The end of a flow on an address that is no SSH address.
pub open spec fn refused<S, V>() -> StepView<S, V> {
    StepView::Finish { result: Err(unsupported_protocol()) }
}

/// First step of a clone: refuse an address that is no SSH address, else
/// check the public key.
pub open spec fn clone_begin(url: Seq<char>, private_key: Seq<char>) -> StepView<CloneStage, Seq<char>> {
    if !is_ssh_address(url) {
        refused()
    } else {
        StepView::Perform {
            stage: CloneStage::PublicKey,
            action: ActionView::CheckFile { path: public_key_of(private_key) },
        }
    }
}

/// The step of a clone that follows `stage` when its action ended with
/// `outcome`.
///
/// An address that is no SSH address is refused at every stage. Both key
/// files must be there, the public one first. Then the clone of `url` into
/// `dir` is asked for, with the key pair. A clone that succeeded ends the
/// flow with `dir`, the place of the repository; one that failed ends it
/// with `Clone` and the reason.
pub open spec fn clone_next(
    url: Seq<char>,
    dir: Seq<char>,
    private_key: Seq<char>,
    stage: CloneStage,
    outcome: Result<(), Seq<char>>,
) -> StepView<CloneStage, Seq<char>> {
    if !is_ssh_address(url) {
        refused()
    } else {
        match (stage, outcome) {
            (CloneStage::PublicKey, Ok(_)) => StepView::Perform {
                stage: CloneStage::PrivateKey,
                action: ActionView::CheckFile { path: private_key },
            },
            (CloneStage::PublicKey, Err(_)) => StepView::Finish {
                result: Err(not_found(public_key_of(private_key))),
            },
            (CloneStage::PrivateKey, Ok(_)) => StepView::Perform {
                stage: CloneStage::Clone,
                action: ActionView::CloneRepository {
                    url,
                    dir,
                    public_key: public_key_of(private_key),
                    private_key,
                },
            },
            (CloneStage::PrivateKey, Err(_)) => StepView::Finish { result: Err(not_found(private_key)) },
            (CloneStage::Clone, Ok(_)) => StepView::Finish { result: Ok(dir) },
            (CloneStage::Clone, Err(reason)) => StepView::Finish { result: Err(clone_failure(reason)) },
        }
    }
}

/// A step of a clone as a step of the install that it is part of: the
/// install waits for the same action, fails with the same error, and, once
/// the repository is cloned, goes on to install the listed files from its
/// directory into the home directory.
pub open spec fn install_after_clone(
    step: StepView<CloneStage, Seq<char>>,
    names: Seq<Seq<char>>,
    dry_run: bool,
    home_dir: Seq<char>,
) -> StepView<InstallStage, BatchView> {
    match step {
        StepView::Perform { stage, action } => StepView::Perform { stage: InstallStage::Clone(stage), action },
        StepView::Finish { result: Ok(dir) } => StepView::Finish {
            result: Ok(batch_between(names, dir, home_dir, dry_run)),
        },
        StepView::Finish { result: Err(e) } => StepView::Finish { result: Err(e) },
    }
}

/// First step of installing: refuse an address that is no SSH address, else
/// look for the clone directory.
pub open spec fn install_begin(url: Seq<char>, home_dir: Seq<char>) -> StepView<InstallStage, BatchView> {
    if !is_ssh_address(url) {
        refused()
    } else {
        StepView::Perform {
            stage: InstallStage::Locate,
            action: ActionView::CheckExists { path: clone_dir(home_dir) },
        }
    }
}

/// The step that follows `stage` when its action ended with `outcome`.
///
/// An address that is no SSH address is refused at every stage. A clone
/// directory that exists is opened, and must hold a repository; one that does
/// not exist is filled by a clone of the remote repository into it. Once the
/// repository is open or cloned, the listed files are installed from the
/// clone directory into the home directory.
pub open spec fn install_next(
    names: Seq<Seq<char>>,
    url: Seq<char>,
    private_key: Seq<char>,
    dry_run: bool,
    home_dir: Seq<char>,
    stage: InstallStage,
    outcome: Result<(), Seq<char>>,
) -> StepView<InstallStage, BatchView> {
    let dir = clone_dir(home_dir);
    if !is_ssh_address(url) {
        refused()
    } else {
        match (stage, outcome) {
            (InstallStage::Locate, Ok(_)) => StepView::Perform {
                stage: InstallStage::Open,
                action: ActionView::OpenRepository { dir },
            },
            (InstallStage::Locate, Err(_)) => install_after_clone(
                clone_begin(url, private_key),
                names,
                dry_run,
                home_dir,
            ),
            (InstallStage::Open, Ok(_)) => StepView::Finish {
                result: Ok(batch_between(names, dir, home_dir, dry_run)),
            },
            (InstallStage::Open, Err(_)) => StepView::Finish { result: Err(corrupt_repository(dir)) },
            (InstallStage::Clone(at), _) => install_after_clone(
                clone_next(url, dir, private_key, at, outcome),
                names,
                dry_run,
                home_dir,
            ),
        }
    }
}

/// An address that is no SSH address is refused with `UnsupportedProtocol`
/// wherever a flow stands, so that no action, and no clone, is ever asked
/// for on its behalf.
pub proof fn lemma_other_protocol_is_refused(
    names: Seq<Seq<char>>,
    url: Seq<char>,
    dir: Seq<char>,
    private_key: Seq<char>,
    dry_run: bool,
    home_dir: Seq<char>,
    stage: InstallStage,
    at: CloneStage,
    outcome: Result<(), Seq<char>>,
)
    requires
        !is_ssh_address(url),
    ensures
        install_begin(url, home_dir) == refused::<InstallStage, BatchView>(),
        install_next(names, url, private_key, dry_run, home_dir, stage, outcome) == refused::<
            InstallStage,
            BatchView,
        >(),
        clone_begin(url, private_key) == refused::<CloneStage, Seq<char>>(),
        clone_next(url, dir, private_key, at, outcome) == refused::<CloneStage, Seq<char>>(),
{
}

/// With a clone directory that exists and holds a repository, installing
/// looks for the directory, opens it, and goes on to install the listed
/// files from it into the home directory: it asks for no clone and for no key.
pub proof fn lemma_existing_clone_is_not_cloned(
    names: Seq<Seq<char>>,
    url: Seq<char>,
    private_key: Seq<char>,
    dry_run: bool,
    home_dir: Seq<char>,
)
    requires
        is_ssh_address(url),
    ensures
        install_begin(url, home_dir) == (StepView::<InstallStage, BatchView>::Perform {
            stage: InstallStage::Locate,
            action: ActionView::CheckExists { path: clone_dir(home_dir) },
        }),
        install_next(names, url, private_key, dry_run, home_dir, InstallStage::Locate, Ok(())) == (StepView::<
            InstallStage,
            BatchView,
        >::Perform { stage: InstallStage::Open, action: ActionView::OpenRepository { dir: clone_dir(home_dir) } }),
        install_next(names, url, private_key, dry_run, home_dir, InstallStage::Open, Ok(())) == (StepView::<
            InstallStage,
            BatchView,
        >::Finish { result: Ok(batch_between(names, clone_dir(home_dir), home_dir, dry_run)) }),
{
}

/// With both key files there, a clone checks the public key, then the
/// private key, and then asks once for the clone of the address into the
/// directory it was given, with that key pair. It ends with that directory
/// when the clone succeeded, and with `Clone` and the reason when it failed.
pub proof fn lemma_clone_goes_into_its_directory(
    url: Seq<char>,
    dir: Seq<char>,
    private_key: Seq<char>,
    reason: Seq<char>,
)
    requires
        is_ssh_address(url),
    ensures
        clone_begin(url, private_key) == (StepView::<CloneStage, Seq<char>>::Perform {
            stage: CloneStage::PublicKey,
            action: ActionView::CheckFile { path: public_key_of(private_key) },
        }),
        clone_next(url, dir, private_key, CloneStage::PublicKey, Ok(())) == (StepView::<
            CloneStage,
            Seq<char>,
        >::Perform { stage: CloneStage::PrivateKey, action: ActionView::CheckFile { path: private_key } }),
        clone_next(url, dir, private_key, CloneStage::PrivateKey, Ok(())) == (StepView::<
            CloneStage,
            Seq<char>,
        >::Perform {
            stage: CloneStage::Clone,
            action: ActionView::CloneRepository { url, dir, public_key: public_key_of(private_key), private_key },
        }),
        clone_next(url, dir, private_key, CloneStage::Clone, Ok(())) == (StepView::<
            CloneStage,
            Seq<char>,
        >::Finish { result: Ok(dir) }),
        clone_next(url, dir, private_key, CloneStage::Clone, Err(reason)) == (StepView::<
            CloneStage,
            Seq<char>,
        >::Finish { result: Err(clone_failure(reason)) }),
{
}

/// The error for an address that is no SSH address.
fn protocol_error() -> (e: SyncError)
    ensures
        e@ == unsupported_protocol(),
{
    SyncError::new(ErrorKind::UnsupportedProtocol, String::from_str(UNSUPPORTED_PROTOCOL_TEXT))
}

/// Starts a clone of `github_url` with the key pair of `ssh_private_key_fn`.
pub fn git_clone(github_url: &String, ssh_private_key_fn: &String) -> (step: Step<CloneStage, String>)
    ensures
        step.deep_view() == clone_begin(github_url@, ssh_private_key_fn@),
{
    if !starts_with(github_url.as_str(), SSH_PREFIX) {
        Step::Finish { result: Err(protocol_error()) }
    } else {
        Step::Perform {
            stage: CloneStage::PublicKey,
            action: Action::CheckFile { path: ssh_private_key_fn.clone().concat(PUBLIC_KEY_SUFFIX) },
        }
    }
}

/// Goes on with the clone of `github_url` into `git_dotfiles_dir` once the
/// outcome of the pending action is known.
pub fn git_clone_resume(
    github_url: &String,
    git_dotfiles_dir: &String,
    ssh_private_key_fn: &String,
    stage: CloneStage,
    outcome: Result<(), String>,
) -> (step: Step<CloneStage, String>)
    ensures
        step.deep_view() == clone_next(
            github_url@,
            git_dotfiles_dir@,
            ssh_private_key_fn@,
            stage,
            outcome_view(outcome),
        ),
{
    if !starts_with(github_url.as_str(), SSH_PREFIX) {
        return Step::Finish { result: Err(protocol_error()) };
    }
    match stage {
        CloneStage::PublicKey => match outcome {
            Ok(_) => Step::Perform {
                stage: CloneStage::PrivateKey,
                action: Action::CheckFile { path: ssh_private_key_fn.clone() },
            },
            Err(_) => Step::Finish {
                result: Err(
                    SyncError::new(ErrorKind::NotFound, ssh_private_key_fn.clone().concat(PUBLIC_KEY_SUFFIX)),
                ),
            },
        },
        CloneStage::PrivateKey => match outcome {
            Ok(_) => Step::Perform {
                stage: CloneStage::Clone,
                action: Action::CloneRepository {
                    url: github_url.clone(),
                    dir: git_dotfiles_dir.clone(),
                    public_key: ssh_private_key_fn.clone().concat(PUBLIC_KEY_SUFFIX),
                    private_key: ssh_private_key_fn.clone(),
                },
            },
            Err(_) => Step::Finish { result: Err(SyncError::new(ErrorKind::NotFound, ssh_private_key_fn.clone())) },
        },
        CloneStage::Clone => match outcome {
            Ok(_) => Step::Finish { result: Ok(git_dotfiles_dir.clone()) },
            Err(reason) => Step::Finish { result: Err(SyncError::new(ErrorKind::Clone, reason)) },
        },
    }
}

/// Turns a step of a clone into the step of the install that it is part of.
fn after_clone(step: Step<CloneStage, String>, dotfile_list: &Vec<String>, dry_run: bool, home_dir: &String) -> (next:
    Step<InstallStage, Batch>)
    ensures
        next.deep_view() == install_after_clone(step.deep_view(), dotfile_list.deep_view(), dry_run, home_dir@),
{
    match step {
        Step::Perform { stage, action } => Step::Perform { stage: InstallStage::Clone(stage), action },
        Step::Finish { result: Ok(dir) } => Step::Finish {
            result: Ok(plan_batch(dotfile_list, &dir, home_dir, dry_run)),
        },
        Step::Finish { result: Err(e) } => Step::Finish { result: Err(e) },
    }
}

/// Where the repository is cloned to, for a user whose home directory is
/// `home_dir`: the place that the listed files are installed from.
pub fn clone_path(home_dir: &String) -> (dir: String)
    ensures
        dir@ == clone_dir(home_dir@),
{
    join(home_dir, CLONE_DIR_NAME)
}

/// Starts installing from the repository at `github_url`.
pub fn install(github_url: &String, home_dir: &String) -> (step: Step<InstallStage, Batch>)
    ensures
        step.deep_view() == install_begin(github_url@, home_dir@),
{
    if !starts_with(github_url.as_str(), SSH_PREFIX) {
        Step::Finish { result: Err(protocol_error()) }
    } else {
        Step::Perform {
            stage: InstallStage::Locate,
            action: Action::CheckExists { path: clone_path(home_dir) },
        }
    }
}

/// Goes on installing once the outcome of the pending action is known.
pub fn install_resume(
    dotfile_list: &Vec<String>,
    github_url: &String,
    ssh_key_file: &String,
    dry_run: bool,
    home_dir: &String,
    stage: InstallStage,
    outcome: Result<(), String>,
) -> (step: Step<InstallStage, Batch>)
    ensures
        step.deep_view() == install_next(
            dotfile_list.deep_view(),
            github_url@,
            ssh_key_file@,
            dry_run,
            home_dir@,
            stage,
            outcome_view(outcome),
        ),
{
    if !starts_with(github_url.as_str(), SSH_PREFIX) {
        return Step::Finish { result: Err(protocol_error()) };
    }
    let dir = clone_path(home_dir);
    match stage {
        InstallStage::Locate => match outcome {
            Ok(_) => Step::Perform { stage: InstallStage::Open, action: Action::OpenRepository { dir } },
            Err(_) => after_clone(git_clone(github_url, ssh_key_file), dotfile_list, dry_run, home_dir),
        },
        InstallStage::Open => match outcome {
            Ok(_) => Step::Finish { result: Ok(plan_batch(dotfile_list, &dir, home_dir, dry_run)) },
            Err(_) => Step::Finish { result: Err(SyncError::new(ErrorKind::CorruptRepository, dir)) },
        },
        InstallStage::Clone(at) => after_clone(
            git_clone_resume(github_url, &dir, ssh_key_file, at, outcome),
            dotfile_list,
            dry_run,
            home_dir,
        ),
    }
}

} // verus!
