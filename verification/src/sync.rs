//! The file synchronizer: from a manifest to copy tasks, the steps of one
//! copy, and the outcome of a whole batch.

use vstd::prelude::*;
use crate::action::{outcome_view, Action, ActionView};
use crate::error::{ErrorKind, ErrorView, SyncError};
use crate::path::{join, joined, lemma_joined_injective, not_found};
use crate::readme_template::{readme_request, write_template_readme, README_NAME};

verus! {

/// One file to copy: where it is read and where it is written.
#[derive(Clone, Debug, PartialEq, Eq)]
pub struct SyncTask {
    pub source: String,
    pub dest: String,
}

/// Mathematical value of a [`SyncTask`].
pub struct TaskView {
    pub source: Seq<char>,
    pub dest: Seq<char>,
}

impl View for SyncTask {
    type V = TaskView;

    open spec fn view(&self) -> TaskView {
        TaskView { source: self.source@, dest: self.dest@ }
    }
}

impl DeepView for SyncTask {
    type V = TaskView;

    open spec fn deep_view(&self) -> TaskView {
        self@
    }
}

/// The copy tasks of one run, and whether the run only reports what it would do.
#[derive(Clone, Debug, PartialEq, Eq)]
pub struct Batch {
    pub tasks: Vec<SyncTask>,
    pub dry_run: bool,
}

/// Mathematical value of a [`Batch`].
pub struct BatchView {
    pub tasks: Seq<TaskView>,
    pub dry_run: bool,
}

impl DeepView for Batch {
    type V = BatchView;

    open spec fn deep_view(&self) -> BatchView {
        BatchView { tasks: self.tasks.deep_view(), dry_run: self.dry_run }
    }
}

/// Where a flow stands: an action for the caller to perform, with the stage
/// to resume at once its outcome is known, or the end of the flow.
#[derive(Debug, PartialEq, Eq)]
pub enum Step<S, T> {
    Perform { stage: S, action: Action },
    Finish { result: Result<T, SyncError> },
}

/// Mathematical value of a [`Step`].
pub enum StepView<S, V> {
    Perform { stage: S, action: ActionView },
    Finish { result: Result<V, ErrorView> },
}

impl<S, T: DeepView> DeepView for Step<S, T> {
    type V = StepView<S, T::V>;

    open spec fn deep_view(&self) -> StepView<S, T::V> {
        match *self {
            Step::Perform { stage, action } => StepView::Perform { stage, action: action@ },
            Step::Finish { result } => StepView::Finish {
                result: match result {
                    Ok(value) => Ok(value.deep_view()),
                    Err(e) => Err(e@),
                },
            },
        }
    }
}

/// The task that copies `name` from below `source_base` to below `dest_base`.
pub open spec fn task_between(source_base: Seq<char>, dest_base: Seq<char>, name: Seq<char>) -> TaskView {
    TaskView { source: joined(source_base, name), dest: joined(dest_base, name) }
}

/// One task for each name, in the order of the names.
pub open spec fn tasks_between(
    names: Seq<Seq<char>>,
    source_base: Seq<char>,
    dest_base: Seq<char>,
) -> Seq<TaskView> {
    Seq::new(names.len(), |i: int| task_between(source_base, dest_base, names[i]))
}

/// The batch that copies every name from below `source_base` to below `dest_base`.
pub open spec fn batch_between(
    names: Seq<Seq<char>>,
    source_base: Seq<char>,
    dest_base: Seq<char>,
    dry_run: bool,
) -> BatchView {
    BatchView { tasks: tasks_between(names, source_base, dest_base), dry_run }
}

/// Builds the batch for a manifest and two base directories.
pub fn plan_batch(
    dotfile_list: &Vec<String>,
    source_base: &String,
    dest_base: &String,
    dry_run: bool,
) -> (batch: Batch)
    ensures
        batch.deep_view() == batch_between(dotfile_list.deep_view(), source_base@, dest_base@, dry_run),
{
    let mut tasks: Vec<SyncTask> = Vec::new();
    let mut i: usize = 0;
    while i < dotfile_list.len()
        invariant
            i <= dotfile_list.len(),
            tasks.len() == i,
            forall|k: int|
                0 <= k < i ==> (#[trigger] tasks[k])@ == task_between(
                    source_base@,
                    dest_base@,
                    dotfile_list[k]@,
                ),
        decreases dotfile_list.len() - i,
    {
        let name = &dotfile_list[i];
        tasks.push(SyncTask { source: join(source_base, name.as_str()), dest: join(dest_base, name.as_str()) });
        i += 1;
    }
    assert(tasks.deep_view() =~= tasks_between(dotfile_list.deep_view(), source_base@, dest_base@));
    Batch { tasks, dry_run }
}

/// The batch that installs the listed files from `dotfiles_dir` into `home_dir`.
pub fn apply(dotfile_list: &Vec<String>, dotfiles_dir: &String, dry_run: bool, home_dir: &String) -> (batch:
    Batch)
    ensures
        batch.deep_view() == batch_between(dotfile_list.deep_view(), dotfiles_dir@, home_dir@, dry_run),
{
    plan_batch(dotfile_list, dotfiles_dir, home_dir, dry_run)
}

/// The stages of saving, each named after the action whose outcome is awaited.
#[derive(Clone, Copy, Debug, PartialEq, Eq, Structural)]
pub enum SaveStage {
    /// The template readme is being written.
    Readme,
}

/// The error for a filesystem operation that failed for the given reason.
pub open spec fn io_failure(reason: Seq<char>) -> ErrorView {
    ErrorView { kind: ErrorKind::Io, detail: reason }
}

/// The path of the readme of the backup folder `destination_dir`.
pub open spec fn readme_path(destination_dir: Seq<char>) -> Seq<char> {
    joined(destination_dir, README_NAME@)
}

/// Mathematical value of the outcome of a batch.
pub open spec fn codes_view(copied: Result<Vec<u8>, SyncError>) -> Result<Seq<u8>, ErrorView> {
    match copied {
        Ok(codes) => Ok(codes@),
        Err(e) => Err(e@),
    }
}

/// The outcome of a batch has the same value inside a step as outside.
proof fn lemma_codes_view(copied: Result<Vec<u8>, SyncError>)
    ensures
        (Step::<SaveStage, Vec<u8>>::Finish { result: copied }).deep_view() == (StepView::<
            SaveStage,
            Seq<u8>,
        >::Finish { result: codes_view(copied) }),
{
    if let Ok(codes) = copied {
        assert(codes.deep_view() =~= codes@);
    }
}

/// Whether the manifest lists a file of the name of the readme: its copy
/// then stands at the place of the readme in the backup folder.
pub open spec fn lists_readme(names: Seq<Seq<char>>) -> bool {
    exists|j: int| 0 <= j < names.len() && #[trigger] names[j] == README_NAME@
}

/// The manifest lists the readme exactly when one of its copies is written
/// to the path of the readme.
pub proof fn lemma_lists_readme(names: Seq<Seq<char>>, source_base: Seq<char>, destination_dir: Seq<char>)
    ensures
        lists_readme(names) <==> exists|j: int|
            0 <= j < names.len() && (#[trigger] tasks_between(names, source_base, destination_dir)[j]).dest
                == readme_path(destination_dir),
{
    let tasks = tasks_between(names, source_base, destination_dir);
    if lists_readme(names) {
        let j = choose|j: int| 0 <= j < names.len() && #[trigger] names[j] == README_NAME@;
        assert(tasks[j].dest == readme_path(destination_dir));
    }
    if exists|j: int| 0 <= j < names.len() && (#[trigger] tasks[j]).dest == readme_path(destination_dir) {
        let j = choose|j: int| 0 <= j < names.len() && (#[trigger] tasks[j]).dest == readme_path(destination_dir);
        lemma_joined_injective(destination_dir, names[j], README_NAME@);
    }
}

/// The step of a save that follows its batch, which ended with `copied`.
///
/// A failed batch ends the save with its error, and a dry run ends with the
/// outcome of its batch. A real run whose copies all succeeded goes on to
/// write the template readme into the destination, unless the manifest
/// lists a file of that name: then the copy of that file is the readme of
/// the folder, and the save ends.
pub open spec fn save_closing(
    names: Seq<Seq<char>>,
    destination_dir: Seq<char>,
    dry_run: bool,
    copied: Result<Seq<u8>, ErrorView>,
) -> StepView<SaveStage, Seq<u8>> {
    if copied is Ok && !dry_run && !lists_readme(names) {
        StepView::Perform { stage: SaveStage::Readme, action: readme_request(readme_path(destination_dir)) }
    } else {
        StepView::Finish { result: copied }
    }
}

/// The step after the readme was written, or could not be: the save ends
/// with the outcome of its batch, or with `Io`.
pub open spec fn save_next(copied: Result<Seq<u8>, ErrorView>, stage: SaveStage, outcome: Result<(), Seq<char>>) -> StepView<
    SaveStage,
    Seq<u8>,
> {
    match (stage, outcome) {
        (SaveStage::Readme, Ok(_)) => StepView::Finish { result: copied },
        (SaveStage::Readme, Err(reason)) => StepView::Finish { result: Err(io_failure(reason)) },
    }
}

/// The batch that saves the listed files from `home_dir` into `destination_dir`.
pub fn save(dotfile_list: &Vec<String>, destination_dir: &String, dry_run: bool, home_dir: &String) -> (batch:
    Batch)
    ensures
        batch.deep_view() == batch_between(dotfile_list.deep_view(), home_dir@, destination_dir@, dry_run),
{
    plan_batch(dotfile_list, home_dir, destination_dir, dry_run)
}

/// Whether the manifest lists a file of the name of the readme.
fn has_readme(dotfile_list: &Vec<String>) -> (listed: bool)
    ensures
        listed == lists_readme(dotfile_list.deep_view()),
{
    let readme = String::from_str(README_NAME);
    let mut i: usize = 0;
    while i < dotfile_list.len()
        invariant
            i <= dotfile_list.len(),
            readme@ == README_NAME@,
            forall|j: int| 0 <= j < i ==> dotfile_list[j]@ != README_NAME@,
        decreases dotfile_list.len() - i,
    {
        if dotfile_list[i] == readme {
            assert(dotfile_list.deep_view()[i as int] == README_NAME@);
            return true;
        }
        i += 1;
    }
    assert forall|j: int| 0 <= j < dotfile_list.deep_view().len() implies #[trigger] dotfile_list.deep_view()[j]
        != README_NAME@ by {
        assert(dotfile_list.deep_view()[j] == dotfile_list[j]@);
    }
    false
}

/// Goes on with the save of the listed files once its batch has ended with
/// `copied`.
pub fn save_readme(
    dotfile_list: &Vec<String>,
    destination_dir: &String,
    dry_run: bool,
    copied: Result<Vec<u8>, SyncError>,
) -> (step: Step<SaveStage, Vec<u8>>)
    ensures
        step.deep_view() == save_closing(
            dotfile_list.deep_view(),
            destination_dir@,
            dry_run,
            codes_view(copied),
        ),
{
    proof {
        lemma_codes_view(copied);
    }
    if copied.is_ok() && !dry_run && !has_readme(dotfile_list) {
        Step::Perform { stage: SaveStage::Readme, action: write_template_readme(join(destination_dir, README_NAME)) }
    } else {
        Step::Finish { result: copied }
    }
}

/// Ends a save once the outcome of writing the readme is known.
pub fn save_resume(copied: Result<Vec<u8>, SyncError>, stage: SaveStage, outcome: Result<(), String>) -> (step:
    Step<SaveStage, Vec<u8>>)
    ensures
        step.deep_view() == save_next(codes_view(copied), stage, outcome_view(outcome)),
{
    proof {
        lemma_codes_view(copied);
    }
    match stage {
        SaveStage::Readme => match outcome {
            Ok(_) => Step::Finish { result: copied },
            Err(reason) => Step::Finish { result: Err(SyncError::new(ErrorKind::Io, reason)) },
        },
    }
}

/// The stages of one copy, each named after the action whose outcome is awaited.
#[derive(Clone, Copy, Debug, PartialEq, Eq, Structural)]
pub enum CopyStage {
    /// The source is being checked.
    Check,
    /// The directories above the destination are being created.
    Prepare,
    /// The file is being copied.
    Transfer,
    /// The record of the copy is being emitted.
    Report,
}

/// The label of a record: it tells a real copy from one that was only announced.
pub open spec fn copy_label(dry_run: bool) -> Seq<char> {
    if dry_run {
        "Dry run"@
    } else {
        "Shell"@
    }
}

/// The record of one copy.
pub open spec fn copy_record(task: TaskView, dry_run: bool) -> Seq<char> {
    "["@ + copy_label(dry_run) + "] Copied "@ + task.source + " to "@ + task.dest
}

/// Whether the step asks for a change on disk: a file to be copied or
/// written, or directories to be created.
pub open spec fn writes_to_disk<S, V>(step: StepView<S, V>) -> bool {
    step is Perform && (step->action is CopyFile || step->action is WriteFile
        || step->action is CreateParentDirs)
}

/// First step of a copy: check the source.
pub open spec fn copy_begin(task: TaskView) -> StepView<CopyStage, u8> {
    StepView::Perform { stage: CopyStage::Check, action: ActionView::CheckFile { path: task.source } }
}

/// The step that follows `stage` when its action ended with `outcome`.
///
/// A missing source ends the copy with `NotFound`. Once the source is found,
/// a dry run goes straight to its record and touches nothing. A real run
/// creates the directories above the destination, copies the file, and then
/// goes on to its record; a failure of either ends the copy with `Io`. A
/// file is not copied onto itself: where source and destination are one
/// path, the file stays as it is and the real run goes from the directories
/// to its record. The copy has succeeded, with code 0, once the record is
/// out.
pub open spec fn copy_next(task: TaskView, dry_run: bool, stage: CopyStage, outcome: Result<(), Seq<char>>) -> StepView<
    CopyStage,
    u8,
> {
    let report = StepView::Perform {
        stage: CopyStage::Report,
        action: ActionView::Log { record: copy_record(task, dry_run) },
    };
    match (stage, outcome) {
        (CopyStage::Check, Err(_)) => StepView::Finish { result: Err(not_found(task.source)) },
        (CopyStage::Check, Ok(_)) => if dry_run {
            report
        } else {
            StepView::Perform {
                stage: CopyStage::Prepare,
                action: ActionView::CreateParentDirs { path: task.dest },
            }
        },
        (CopyStage::Prepare, Err(reason)) => StepView::Finish { result: Err(io_failure(reason)) },
        (CopyStage::Prepare, Ok(_)) => if dry_run || task.source == task.dest {
            report
        } else {
            StepView::Perform {
                stage: CopyStage::Transfer,
                action: ActionView::CopyFile { source: task.source, dest: task.dest },
            }
        },
        (CopyStage::Transfer, Err(reason)) => StepView::Finish { result: Err(io_failure(reason)) },
        (CopyStage::Transfer, Ok(_)) => report,
        (CopyStage::Report, _) => StepView::Finish { result: Ok(0u8) },
    }
}

/// A dry run asks for no change on disk: no file is copied or written and
/// no directory is created, at no step of a copy and not after the batch of
/// a save.
pub proof fn lemma_dry_run_asks_for_no_write(
    names: Seq<Seq<char>>,
    destination_dir: Seq<char>,
    copied: Result<Seq<u8>, ErrorView>,
    task: TaskView,
    stage: CopyStage,
    outcome: Result<(), Seq<char>>,
)
    ensures
        !writes_to_disk(copy_begin(task)),
        !writes_to_disk(copy_next(task, true, stage, outcome)),
        save_closing(names, destination_dir, true, copied) is Finish,
{
}

/// A copy whose source is missing ends with `NotFound` for that source, in a
/// dry run as in a real one.
pub proof fn lemma_missing_source_ends_copy(task: TaskView, dry_run: bool, reason: Seq<char>)
    ensures
        copy_next(task, dry_run, CopyStage::Check, Err(reason)) == (StepView::<CopyStage, u8>::Finish {
            result: Err(not_found(task.source)),
        }),
{
}

/// Builds the record of one copy.
fn record_of(task: &SyncTask, dry_run: bool) -> (record: String)
    ensures
        record@ == copy_record(task@, dry_run),
{
    let label = if dry_run {
        "Dry run"
    } else {
        "Shell"
    };
    String::from_str("[").concat(label).concat("] Copied ").concat(task.source.as_str()).concat(" to ").concat(
        task.dest.as_str(),
    )
}

/// Starts the copy of one file.
pub fn copy_file(task: &SyncTask) -> (step: Step<CopyStage, u8>)
    ensures
        step.deep_view() == copy_begin(task@),
{
    Step::Perform { stage: CopyStage::Check, action: Action::CheckFile { path: task.source.clone() } }
}

/// Goes on with the copy of one file once the outcome of the pending action
/// is known.
pub fn copy_file_resume(task: &SyncTask, dry_run: bool, stage: CopyStage, outcome: Result<(), String>) -> (step:
    Step<CopyStage, u8>)
    ensures
        step.deep_view() == copy_next(task@, dry_run, stage, outcome_view(outcome)),
{
    match stage {
        CopyStage::Check => match outcome {
            Err(_) => Step::Finish { result: Err(SyncError::new(ErrorKind::NotFound, task.source.clone())) },
            Ok(_) => if dry_run {
                Step::Perform { stage: CopyStage::Report, action: Action::Log { record: record_of(task, dry_run) } }
            } else {
                Step::Perform {
                    stage: CopyStage::Prepare,
                    action: Action::CreateParentDirs { path: task.dest.clone() },
                }
            },
        },
        CopyStage::Prepare => match outcome {
            Err(reason) => Step::Finish { result: Err(SyncError::new(ErrorKind::Io, reason)) },
            Ok(_) => if dry_run || task.source == task.dest {
                Step::Perform { stage: CopyStage::Report, action: Action::Log { record: record_of(task, dry_run) } }
            } else {
                Step::Perform {
                    stage: CopyStage::Transfer,
                    action: Action::CopyFile { source: task.source.clone(), dest: task.dest.clone() },
                }
            },
        },
        CopyStage::Transfer => match outcome {
            Err(reason) => Step::Finish { result: Err(SyncError::new(ErrorKind::Io, reason)) },
            Ok(_) => Step::Perform {
                stage: CopyStage::Report,
                action: Action::Log { record: record_of(task, dry_run) },
            },
        },
        CopyStage::Report => Step::Finish { result: Ok(0) },
    }
}

/// Mathematical value of the outcome of one copy.
pub open spec fn result_view(result: Result<u8, SyncError>) -> Result<u8, ErrorView> {
    match result {
        Ok(code) => Ok(code),
        Err(e) => Err(e@),
    }
}

/// Whether `k` is the place of the first failure among `results`.
pub open spec fn is_first_failure(results: Seq<Result<u8, ErrorView>>, k: int) -> bool {
    &&& 0 <= k < results.len()
    &&& results[k] is Err
    &&& forall|j: int| 0 <= j < k ==> (#[trigger] results[j]) is Ok
}

/// The outcome of a batch whose copies ended with `results`: the codes of all
/// copies when every one succeeded, else the error of the first, in the order
/// of the manifest, that failed.
pub open spec fn combined(results: Seq<Result<u8, ErrorView>>) -> Result<Seq<u8>, ErrorView> {
    if exists|k: int| is_first_failure(results, k) {
        Err(results[choose|k: int| is_first_failure(results, k)]->Err_0)
    } else {
        Ok(Seq::new(results.len(), |i: int| results[i]->Ok_0))
    }
}

/// There is at most one first failure.
pub proof fn lemma_first_failure_unique(results: Seq<Result<u8, ErrorView>>, a: int, b: int)
    requires
        is_first_failure(results, a),
        is_first_failure(results, b),
    ensures
        a == b,
{
    if a < b {
        assert(results[a] is Ok);
    } else if b < a {
        assert(results[b] is Ok);
    }
}

/// When a copy failed, the outcome of the batch is the error of the first
/// that failed.
pub proof fn lemma_combined_of_first_failure(results: Seq<Result<u8, ErrorView>>, k: int)
    requires
        is_first_failure(results, k),
    ensures
        combined(results) == Err::<Seq<u8>, ErrorView>(results[k]->Err_0),
{
    lemma_first_failure_unique(results, k, choose|k: int| is_first_failure(results, k));
}

/// When every copy succeeded, the outcome of the batch is the codes of the
/// copies, in their order.
pub proof fn lemma_combined_of_successes(results: Seq<Result<u8, ErrorView>>)
    requires
        forall|j: int| 0 <= j < results.len() ==> (#[trigger] results[j]) is Ok,
    ensures
        combined(results) == Ok::<Seq<u8>, ErrorView>(Seq::new(results.len(), |i: int| results[i]->Ok_0)),
{
    assert forall|k: int| !is_first_failure(results, k) by {
        if 0 <= k < results.len() {
            assert(results[k] is Ok);
        }
    }
}

/// Gathers the outcomes of the copies of one batch into the outcome of the
/// batch. Nothing is undone on a failure: the other copies have run.
pub fn combine(results: Vec<Result<u8, SyncError>>) -> (outcome: Result<Vec<u8>, SyncError>)
    ensures
        codes_view(outcome) == combined(results@.map_values(|r| result_view(r))),
{
    let ghost views = results@.map_values(|r| result_view(r));
    let mut codes: Vec<u8> = Vec::new();
    let mut i: usize = 0;
    while i < results.len()
        invariant
            i <= results.len(),
            codes.len() == i,
            views == results@.map_values(|r| result_view(r)),
            forall|j: int| 0 <= j < i ==> (#[trigger] views[j]) == Ok::<u8, ErrorView>(codes[j]),
        decreases results.len() - i,
    {
        match &results[i] {
            Ok(code) => {
                codes.push(*code);
            },
            Err(e) => {
                let first = SyncError::new(e.kind, e.detail.clone());
                proof {
                    assert(views[i as int] == Err::<u8, ErrorView>(first@));
                    lemma_combined_of_first_failure(views, i as int);
                }
                return Err(first);
            },
        }
        i += 1;
    }
    proof {
        lemma_combined_of_successes(views);
        assert(codes@ =~= Seq::new(views.len(), |i: int| views[i]->Ok_0));
    }
    Ok(codes)
}

} // verus!
