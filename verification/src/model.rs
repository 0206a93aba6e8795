//! What the flows of this crate do to the files, stated over a small model
//! of the outside world.
//!
//! The library never performs an action itself, so what a run achieves
//! depends on the caller. The laws below hold for a caller that performs
//! each action as [`answer`] and [`effect`] say: regular files are a map
//! from paths to bytes, a copy needs its source, directories can always be
//! created and the model remembers above which paths they were, and a
//! record is appended to the log. The copies of a batch are
//! taken one after the other in the order of the batch, each undisturbed by
//! the others. What the laws ask of a batch does not depend on that order,
//! so what they say of the files holds in whatever order whole copies follow
//! each other.

use vstd::prelude::*;
use crate::action::ActionView;
use crate::error::{ErrorKind, ErrorView};
use crate::path::{joined, lemma_joined_injective, not_found};
use crate::readme_template::README_TEXT;
use crate::sync::{
    batch_between, combined, copy_begin, copy_next, copy_record, is_first_failure, lemma_combined_of_first_failure,
    lemma_combined_of_successes,
    lemma_first_failure_unique, lemma_lists_readme, lists_readme, readme_path, save_closing, save_next,
    task_between, tasks_between, BatchView, CopyStage, StepView, TaskView,
};

verus! {

/// The outside world, as far as saving and installing files are concerned.
pub struct World {
    /// The regular files: their paths and their bytes.
    pub files: Map<Seq<char>, Seq<u8>>,
    /// The paths above which the directories were created on request.
    pub prepared: Set<Seq<char>>,
    /// The records emitted so far.
    pub log: Seq<Seq<char>>,
}

/// What the world reports of an action.
///
/// A check succeeds when the file is there, a copy when its source is there.
/// Creating directories, writing a file and emitting a record succeed.
/// Repositories are no part of this model: actions on them fail.
pub open spec fn answer(world: World, action: ActionView) -> Result<(), Seq<char>> {
    match action {
        ActionView::CheckFile { path } => if world.files.contains_key(path) {
            Ok(())
        } else {
            Err(Seq::empty())
        },
        ActionView::CopyFile { source, dest } => if world.files.contains_key(source) {
            Ok(())
        } else {
            Err(Seq::empty())
        },
        ActionView::CreateParentDirs { path } => Ok(()),
        ActionView::WriteFile { path, contents } => Ok(()),
        ActionView::Log { record } => Ok(()),
        _ => Err(Seq::empty()),
    }
}

/// The world after an action.
pub open spec fn effect(world: World, action: ActionView) -> World {
    match action {
        ActionView::CopyFile { source, dest } => if world.files.contains_key(source) {
            World { files: world.files.insert(dest, world.files[source]), ..world }
        } else {
            world
        },
        ActionView::CreateParentDirs { path } => World { prepared: world.prepared.insert(path), ..world },
        ActionView::WriteFile { path, contents } => World {
            files: world.files.insert(path, vstd::utf8::encode_utf8(contents)),
            ..world
        },
        ActionView::Log { record } => World { log: world.log.push(record), ..world },
        _ => world,
    }
}

/// How many actions a copy may still ask for at `step`.
pub open spec fn steps_left(step: StepView<CopyStage, u8>) -> nat {
    match step {
        StepView::Finish { result } => 0,
        StepView::Perform { stage: CopyStage::Report, action } => 1,
        StepView::Perform { stage: CopyStage::Transfer, action } => 2,
        StepView::Perform { stage: CopyStage::Prepare, action } => 3,
        StepView::Perform { stage: CopyStage::Check, action } => 4,
    }
}

/// Runs one copy from `step` to its end: the world after it, and its outcome.
pub open spec fn copy_run_from(task: TaskView, dry_run: bool, step: StepView<CopyStage, u8>, world: World) -> (
    World,
    Result<u8, ErrorView>,
)
    decreases steps_left(step),
{
    match step {
        StepView::Finish { result } => (world, result),
        StepView::Perform { stage, action } => copy_run_from(
            task,
            dry_run,
            copy_next(task, dry_run, stage, answer(world, action)),
            effect(world, action),
        ),
    }
}

/// Runs one copy from its first step to its end.
pub open spec fn copy_run(task: TaskView, dry_run: bool, world: World) -> (World, Result<u8, ErrorView>) {
    copy_run_from(task, dry_run, copy_begin(task), world)
}

/// Runs the copies of a batch one after the other: the world after the last,
/// and the outcome of each.
pub open spec fn batch_run(batch: BatchView, world: World) -> (World, Seq<Result<u8, ErrorView>>)
    decreases batch.tasks.len(),
{
    if batch.tasks.len() == 0 {
        (world, Seq::empty())
    } else {
        let before = batch_run(BatchView { tasks: batch.tasks.drop_last(), dry_run: batch.dry_run }, world);
        let last = copy_run(batch.tasks.last(), batch.dry_run, before.0);
        (last.0, before.1.push(last.1))
    }
}

/// Runs a batch and gathers its outcomes: the world after it, and the outcome
/// of the batch.
pub open spec fn batch_outcome(batch: BatchView, world: World) -> (World, Result<Seq<u8>, ErrorView>) {
    let done = batch_run(batch, world);
    (done.0, combined(done.1))
}

/// Runs a save from its batch to its end.
pub open spec fn save_run(
    names: Seq<Seq<char>>,
    destination_dir: Seq<char>,
    dry_run: bool,
    home_dir: Seq<char>,
    world: World,
) -> (World, Result<Seq<u8>, ErrorView>) {
    let copied = batch_outcome(batch_between(names, home_dir, destination_dir, dry_run), world);
    let closing = save_closing(names, destination_dir, dry_run, copied.1);
    if closing is Perform {
        let last = save_next(copied.1, closing->stage, answer(copied.0, closing->action));
        (effect(copied.0, closing->action), last->result)
    } else {
        (copied.0, closing->result)
    }
}

/// Runs the batch that installs the listed files from `dotfiles_dir`.
pub open spec fn apply_run(
    names: Seq<Seq<char>>,
    dotfiles_dir: Seq<char>,
    dry_run: bool,
    home_dir: Seq<char>,
    world: World,
) -> (World, Result<Seq<u8>, ErrorView>) {
    batch_outcome(batch_between(names, dotfiles_dir, home_dir, dry_run), world)
}

/// The world after one undisturbed copy, and its outcome, in closed form.
pub open spec fn copied(task: TaskView, dry_run: bool, world: World) -> (World, Result<u8, ErrorView>) {
    if !world.files.contains_key(task.source) {
        (world, Err(not_found(task.source)))
    } else {
        (
            World {
                files: if dry_run || task.source == task.dest {
                    world.files
                } else {
                    world.files.insert(task.dest, world.files[task.source])
                },
                prepared: if dry_run {
                    world.prepared
                } else {
                    world.prepared.insert(task.dest)
                },
                log: world.log.push(copy_record(task, dry_run)),
            },
            Ok(0u8),
        )
    }
}

/// A copy fails with `NotFound` when its source is missing and changes
/// nothing then; else it succeeds and emits its record. A real run has then
/// created the directories above the destination and left the bytes of the
/// source there, without touching a file that is its own destination; a dry
/// run has changed neither file nor directory.
pub proof fn lemma_copy_run(task: TaskView, dry_run: bool, world: World)
    ensures
        copy_run(task, dry_run, world) == copied(task, dry_run, world),
{
    reveal_with_fuel(copy_run_from, 5);
}

/// A copy of a file onto itself changes no file.
pub proof fn lemma_copy_onto_itself(task: TaskView, dry_run: bool, world: World)
    requires
        task.source == task.dest,
    ensures
        copy_run(task, dry_run, world).0.files == world.files,
{
    lemma_copy_run(task, dry_run, world);
}

/// A batch without copies succeeds with no code and changes nothing.
pub proof fn lemma_empty_batch(dry_run: bool, world: World)
    ensures
        batch_outcome(BatchView { tasks: Seq::empty(), dry_run }, world) == (
            world,
            Ok::<Seq<u8>, ErrorView>(Seq::empty()),
        ),
{
    let results = Seq::<Result<u8, ErrorView>>::empty();
    lemma_combined_of_successes(results);
    assert(Seq::new(results.len(), |i: int| results[i]->Ok_0) =~= Seq::<u8>::empty());
}

/// No copy of the batch disturbs `path`: one that writes there reads from
/// there too, and so puts back what it found.
pub open spec fn undisturbed(tasks: Seq<TaskView>, path: Seq<char>) -> bool {
    forall|j: int| 0 <= j < tasks.len() && (#[trigger] tasks[j]).dest == path ==> tasks[j].source == path
}

/// Every copy of the batch that writes to the destination of `task` reads
/// from the source of `task`.
pub open spec fn agreed(tasks: Seq<TaskView>, task: TaskView) -> bool {
    forall|j: int| 0 <= j < tasks.len() && (#[trigger] tasks[j]).dest == task.dest ==> tasks[j].source == task.source
}

/// Every source of the batch is a file of the world.
pub open spec fn all_present(tasks: Seq<TaskView>, world: World) -> bool {
    forall|j: int| 0 <= j < tasks.len() ==> world.files.contains_key((#[trigger] tasks[j]).source)
}

/// No source of the batch is a file of the world.
pub open spec fn none_present(tasks: Seq<TaskView>, world: World) -> bool {
    forall|j: int| 0 <= j < tasks.len() ==> !world.files.contains_key((#[trigger] tasks[j]).source)
}

/// Every copy of the batch whose source is there has been made: the
/// directories above its destination were created, and the destination holds
/// the bytes of the source.
pub open spec fn settled(tasks: Seq<TaskView>, world: World) -> bool {
    forall|j: int|
        0 <= j < tasks.len() && world.files.contains_key((#[trigger] tasks[j]).source) ==> {
            &&& world.files.contains_key(tasks[j].dest)
            &&& world.files[tasks[j].dest] == world.files[tasks[j].source]
            &&& world.prepared.contains(tasks[j].dest)
        }
}

/// What holds of all the copies of a batch holds of all but the last.
pub proof fn lemma_all_but_last(tasks: Seq<TaskView>, path: Seq<char>, task: TaskView, world: World)
    requires
        tasks.len() > 0,
    ensures
        undisturbed(tasks, path) ==> undisturbed(tasks.drop_last(), path),
        agreed(tasks, task) ==> agreed(tasks.drop_last(), task),
        all_present(tasks, world) ==> all_present(tasks.drop_last(), world),
        none_present(tasks, world) ==> none_present(tasks.drop_last(), world),
        settled(tasks, world) ==> settled(tasks.drop_last(), world),
{
    let shorter = tasks.drop_last();
    assert forall|j: int| 0 <= j < shorter.len() implies #[trigger] shorter[j] == tasks[j] by {}
}

/// Among the tasks between two directories, those that write to one
/// destination read from one source.
pub proof fn lemma_tasks_between_agreed(
    names: Seq<Seq<char>>,
    source_base: Seq<char>,
    dest_base: Seq<char>,
    i: int,
)
    requires
        0 <= i < names.len(),
    ensures
        agreed(tasks_between(names, source_base, dest_base), task_between(source_base, dest_base, names[i])),
{
    let tasks = tasks_between(names, source_base, dest_base);
    let task = task_between(source_base, dest_base, names[i]);
    assert forall|j: int| 0 <= j < tasks.len() && (#[trigger] tasks[j]).dest == task.dest implies tasks[j].source
        == task.source by {
        lemma_joined_injective(dest_base, names[j], names[i]);
    }
}

/// A batch gives one outcome for each of its copies: success with code 0, or
/// `NotFound` for the source of the copy.
pub proof fn lemma_batch_run_outcomes(batch: BatchView, world: World)
    ensures
        batch_run(batch, world).1.len() == batch.tasks.len(),
        forall|j: int|
            0 <= j < batch.tasks.len() ==> {
                ||| (#[trigger] batch_run(batch, world).1[j]) == Ok::<u8, ErrorView>(0u8)
                ||| batch_run(batch, world).1[j] == Err::<u8, ErrorView>(not_found(batch.tasks[j].source))
            },
    decreases batch.tasks.len(),
{
    if batch.tasks.len() > 0 {
        let prefix = BatchView { tasks: batch.tasks.drop_last(), dry_run: batch.dry_run };
        lemma_batch_run_outcomes(prefix, world);
        lemma_copy_run(batch.tasks.last(), batch.dry_run, batch_run(prefix, world).0);
        assert forall|j: int| 0 <= j < batch.tasks.len() implies {
            ||| (#[trigger] batch_run(batch, world).1[j]) == Ok::<u8, ErrorView>(0u8)
            ||| batch_run(batch, world).1[j] == Err::<u8, ErrorView>(not_found(batch.tasks[j].source))
        } by {
            if j < batch.tasks.len() - 1 {
                assert(batch_run(batch, world).1[j] == batch_run(prefix, world).1[j]);
            }
        }
    }
}

/// A batch removes no file, changes neither file nor directory in a dry
/// run, and leaves an undisturbed path as it was.
pub proof fn lemma_batch_run_frame(batch: BatchView, world: World, path: Seq<char>)
    ensures
        world.files.contains_key(path) ==> batch_run(batch, world).0.files.contains_key(path),
        world.prepared.contains(path) ==> batch_run(batch, world).0.prepared.contains(path),
        batch.dry_run ==> batch_run(batch, world).0.files == world.files,
        batch.dry_run ==> batch_run(batch, world).0.prepared == world.prepared,
        undisturbed(batch.tasks, path) ==> {
            &&& batch_run(batch, world).0.files.contains_key(path) == world.files.contains_key(path)
            &&& batch_run(batch, world).0.files[path] == world.files[path]
        },
    decreases batch.tasks.len(),
{
    if batch.tasks.len() > 0 {
        let prefix = BatchView { tasks: batch.tasks.drop_last(), dry_run: batch.dry_run };
        let before = batch_run(prefix, world);
        lemma_all_but_last(batch.tasks, path, batch.tasks.last(), world);
        lemma_batch_run_frame(prefix, world, path);
        lemma_copy_run(batch.tasks.last(), batch.dry_run, before.0);
        if undisturbed(batch.tasks, path) {
            assert(batch.tasks[batch.tasks.len() - 1].dest == path ==> batch.tasks[batch.tasks.len() - 1].source
                == path);
            assert(batch_run(batch, world).0.files[path] == world.files[path]);
            assert(batch_run(batch, world).0.files.contains_key(path) == world.files.contains_key(path));
        }
    }
}

/// A copy of a batch whose source is undisturbed meets its source as it was
/// before the batch: it fails with `NotFound` exactly when the source was
/// missing then. In a real run that found the source, the directories above
/// the destination have been created; and when all that is written to the
/// destination is read from the source, the bytes that the source held
/// before the batch are at the destination after it.
pub proof fn lemma_batch_run_copy(batch: BatchView, world: World, i: int)
    requires
        0 <= i < batch.tasks.len(),
        undisturbed(batch.tasks, batch.tasks[i].source),
    ensures
        batch_run(batch, world).1.len() == batch.tasks.len(),
        batch_run(batch, world).1[i] == copied(batch.tasks[i], batch.dry_run, world).1,
        !batch.dry_run && world.files.contains_key(batch.tasks[i].source) ==> batch_run(
            batch,
            world,
        ).0.prepared.contains(batch.tasks[i].dest),
        !batch.dry_run && world.files.contains_key(batch.tasks[i].source) && agreed(batch.tasks, batch.tasks[i])
            ==> {
            &&& batch_run(batch, world).0.files.contains_key(batch.tasks[i].dest)
            &&& batch_run(batch, world).0.files[batch.tasks[i].dest] == world.files[batch.tasks[i].source]
        },
    decreases batch.tasks.len(),
{
    let n = batch.tasks.len() as int;
    let task = batch.tasks[i];
    let prefix = BatchView { tasks: batch.tasks.drop_last(), dry_run: batch.dry_run };
    let before = batch_run(prefix, world);
    let last = batch.tasks[n - 1];
    lemma_batch_run_outcomes(batch, world);
    lemma_batch_run_outcomes(prefix, world);
    lemma_copy_run(last, batch.dry_run, before.0);
    lemma_all_but_last(batch.tasks, task.source, task, world);
    lemma_batch_run_frame(prefix, world, task.source);
    if i < n - 1 {
        assert(prefix.tasks[i] == batch.tasks[i]);
        lemma_batch_run_copy(prefix, world, i);
        if agreed(batch.tasks, task) {
            assert(batch.tasks[n - 1].dest == task.dest ==> batch.tasks[n - 1].source == task.source);
        }
    }
}

/// A batch of which no source is there changes nothing, and each of its
/// copies fails with `NotFound` for its source.
pub proof fn lemma_batch_of_missing_files(batch: BatchView, world: World)
    requires
        none_present(batch.tasks, world),
    ensures
        batch_run(batch, world).0 == world,
        batch_run(batch, world).1 == Seq::new(
            batch.tasks.len(),
            |j: int| Err::<u8, ErrorView>(not_found(batch.tasks[j].source)),
        ),
    decreases batch.tasks.len(),
{
    let outcomes = Seq::new(batch.tasks.len(), |j: int| Err::<u8, ErrorView>(not_found(batch.tasks[j].source)));
    if batch.tasks.len() == 0 {
        assert(batch_run(batch, world).1 =~= outcomes);
    } else {
        let prefix = BatchView { tasks: batch.tasks.drop_last(), dry_run: batch.dry_run };
        lemma_all_but_last(batch.tasks, Seq::empty(), batch.tasks.last(), world);
        lemma_batch_of_missing_files(prefix, world);
        lemma_copy_run(batch.tasks.last(), batch.dry_run, world);
        assert(!world.files.contains_key(batch.tasks[batch.tasks.len() - 1].source));
        assert(batch_run(batch, world).1 =~= outcomes);
    }
}

/// A dry batch whose sources are all there changes neither file nor
/// directory and emits one record for each of its copies, in their order.
pub proof fn lemma_dry_batch_run(batch: BatchView, world: World)
    requires
        batch.dry_run,
        all_present(batch.tasks, world),
    ensures
        batch_run(batch, world).0.files == world.files,
        batch_run(batch, world).0.prepared == world.prepared,
        batch_run(batch, world).0.log == world.log + Seq::new(
            batch.tasks.len(),
            |j: int| copy_record(batch.tasks[j], true),
        ),
        batch_run(batch, world).1 == Seq::new(batch.tasks.len(), |j: int| Ok::<u8, ErrorView>(0u8)),
    decreases batch.tasks.len(),
{
    let records = Seq::new(batch.tasks.len(), |j: int| copy_record(batch.tasks[j], true));
    let outcomes = Seq::new(batch.tasks.len(), |j: int| Ok::<u8, ErrorView>(0u8));
    if batch.tasks.len() == 0 {
        assert(world.log + records =~= world.log);
        assert(batch_run(batch, world).1 =~= outcomes);
    } else {
        let prefix = BatchView { tasks: batch.tasks.drop_last(), dry_run: true };
        let before = batch_run(prefix, world);
        let last = batch.tasks.last();
        lemma_all_but_last(batch.tasks, Seq::empty(), last, world);
        lemma_dry_batch_run(prefix, world);
        lemma_copy_run(last, true, before.0);
        assert(world.files.contains_key(batch.tasks[batch.tasks.len() - 1].source));
        let shorter = Seq::new(prefix.tasks.len(), |j: int| copy_record(prefix.tasks[j], true));
        assert(world.log + records =~= (world.log + shorter).push(copy_record(last, true)));
        assert(batch_run(batch, world).1 =~= outcomes);
    }
}

/// A batch whose copies have all been made changes nothing on disk, and each
/// of its copies ends as it would alone.
pub proof fn lemma_settled_batch_run(batch: BatchView, world: World)
    requires
        settled(batch.tasks, world),
    ensures
        batch_run(batch, world).0.files == world.files,
        batch_run(batch, world).0.prepared == world.prepared,
        batch_run(batch, world).1 == Seq::new(
            batch.tasks.len(),
            |j: int| copied(batch.tasks[j], batch.dry_run, world).1,
        ),
    decreases batch.tasks.len(),
{
    let outcomes = Seq::new(batch.tasks.len(), |j: int| copied(batch.tasks[j], batch.dry_run, world).1);
    if batch.tasks.len() == 0 {
        assert(batch_run(batch, world).1 =~= outcomes);
    } else {
        let prefix = BatchView { tasks: batch.tasks.drop_last(), dry_run: batch.dry_run };
        let before = batch_run(prefix, world);
        let last = batch.tasks[batch.tasks.len() - 1];
        lemma_all_but_last(batch.tasks, Seq::empty(), last, world);
        lemma_settled_batch_run(prefix, world);
        lemma_copy_run(last, batch.dry_run, before.0);
        if world.files.contains_key(last.source) {
            assert(world.files.insert(last.dest, world.files[last.source]) =~= world.files);
            assert(world.prepared.insert(last.dest) =~= world.prepared);
        }
        assert(batch_run(batch, world).1 =~= outcomes);
    }
}

/// If some copy failed, there is a first copy that failed, and it is not
/// behind that one.
pub proof fn lemma_first_failure_exists(results: Seq<Result<u8, ErrorView>>, i: int) -> (k: int)
    requires
        0 <= i < results.len(),
        results[i] is Err,
    ensures
        is_first_failure(results, k),
        k <= i,
    decreases i,
{
    if forall|j: int| 0 <= j < i ==> (#[trigger] results[j]) is Ok {
        i
    } else {
        let j = choose|j: int| 0 <= j < i && !((#[trigger] results[j]) is Ok);
        lemma_first_failure_exists(results, j)
    }
}

/// The world after a save is the world after its batch, but for the readme,
/// which a real run writes once every copy has succeeded, unless the
/// manifest lists a file of its name; the outcome of the save is the outcome
/// of its batch.
proof fn lemma_save_run(
    names: Seq<Seq<char>>,
    destination_dir: Seq<char>,
    dry_run: bool,
    home_dir: Seq<char>,
    world: World,
)
    ensures
        ({
            let copied = batch_outcome(batch_between(names, home_dir, destination_dir, dry_run), world);
            let saved = save_run(names, destination_dir, dry_run, home_dir, world);
            &&& saved.1 == copied.1
            &&& saved.0.log == copied.0.log
            &&& saved.0.prepared == copied.0.prepared
            &&& dry_run || copied.1 is Err || lists_readme(names) ==> saved.0 == copied.0
            &&& !dry_run && copied.1 is Ok && !lists_readme(names) ==> saved.0.files
                == copied.0.files.insert(readme_path(destination_dir), vstd::utf8::encode_utf8(README_TEXT@))
        }),
{
}

/// After a save, every listed file that was under the home directory has a
/// copy with the same bytes at its place under the destination, provided
/// that no other listed file is saved onto the file. This holds of a listed
/// file of the name of the readme too: the template is not written over it.
pub proof fn lemma_save_copies_present_files(
    names: Seq<Seq<char>>,
    destination_dir: Seq<char>,
    home_dir: Seq<char>,
    world: World,
    i: int,
)
    requires
        0 <= i < names.len(),
        world.files.contains_key(joined(home_dir, names[i])),
        undisturbed(tasks_between(names, home_dir, destination_dir), joined(home_dir, names[i])),
    ensures
        save_run(names, destination_dir, false, home_dir, world).0.files.contains_key(
            joined(destination_dir, names[i]),
        ),
        save_run(names, destination_dir, false, home_dir, world).0.files[joined(destination_dir, names[i])]
            == world.files[joined(home_dir, names[i])],
{
    lemma_save_run(names, destination_dir, false, home_dir, world);
    lemma_tasks_between_agreed(names, home_dir, destination_dir, i);
    lemma_batch_run_copy(batch_between(names, home_dir, destination_dir, false), world, i);
    if !lists_readme(names) {
        lemma_lists_readme(names, home_dir, destination_dir);
        assert(tasks_between(names, home_dir, destination_dir)[i].dest != readme_path(destination_dir));
    }
}

/// A save succeeds, with code 0 for each entry of the manifest, when every
/// listed file is under the home directory and no listed file is saved onto
/// another. A real run has then written the template readme, unless the
/// manifest lists a file of its name.
pub proof fn lemma_save_succeeds_when_all_present(
    names: Seq<Seq<char>>,
    destination_dir: Seq<char>,
    dry_run: bool,
    home_dir: Seq<char>,
    world: World,
)
    requires
        forall|j: int|
            0 <= j < names.len() ==> world.files.contains_key(#[trigger] joined(home_dir, names[j])) && undisturbed(
                tasks_between(names, home_dir, destination_dir),
                joined(home_dir, names[j]),
            ),
    ensures
        save_run(names, destination_dir, dry_run, home_dir, world).1 == Ok::<Seq<u8>, ErrorView>(
            Seq::new(names.len(), |j: int| 0u8),
        ),
        !dry_run && !lists_readme(names) ==> {
            let saved = save_run(names, destination_dir, false, home_dir, world).0;
            &&& saved.files.contains_key(readme_path(destination_dir))
            &&& saved.files[readme_path(destination_dir)] == vstd::utf8::encode_utf8(README_TEXT@)
        },
{
    let batch = batch_between(names, home_dir, destination_dir, dry_run);
    let results = batch_run(batch, world).1;
    lemma_save_run(names, destination_dir, dry_run, home_dir, world);
    lemma_batch_run_outcomes(batch, world);
    assert forall|j: int| 0 <= j < results.len() implies (#[trigger] results[j]) == Ok::<u8, ErrorView>(0u8) by {
        assert(world.files.contains_key(joined(home_dir, names[j])));
        lemma_batch_run_copy(batch, world, j);
    }
    lemma_combined_of_successes(results);
    assert(Seq::new(results.len(), |i: int| results[i]->Ok_0) =~= Seq::new(names.len(), |j: int| 0u8));
}

/// A save fails with `NotFound` when a listed file is missing from the home
/// directory and no other listed file is saved onto its place: the entry is
/// not skipped. When it is the first such entry, and no listed file is saved
/// onto an entry before it, the error names the missing file.
pub proof fn lemma_save_reports_missing_file(
    names: Seq<Seq<char>>,
    destination_dir: Seq<char>,
    dry_run: bool,
    home_dir: Seq<char>,
    world: World,
    i: int,
)
    requires
        0 <= i < names.len(),
        !world.files.contains_key(joined(home_dir, names[i])),
        undisturbed(tasks_between(names, home_dir, destination_dir), joined(home_dir, names[i])),
    ensures
        save_run(names, destination_dir, dry_run, home_dir, world).1 is Err,
        save_run(names, destination_dir, dry_run, home_dir, world).1->Err_0.kind == ErrorKind::NotFound,
        (forall|j: int|
            0 <= j < i ==> world.files.contains_key(#[trigger] joined(home_dir, names[j])) && undisturbed(
                tasks_between(names, home_dir, destination_dir),
                joined(home_dir, names[j]),
            )) ==> save_run(names, destination_dir, dry_run, home_dir, world).1 == Err::<Seq<u8>, ErrorView>(
            not_found(joined(home_dir, names[i])),
        ),
{
    let batch = batch_between(names, home_dir, destination_dir, dry_run);
    let results = batch_run(batch, world).1;
    lemma_save_run(names, destination_dir, dry_run, home_dir, world);
    lemma_batch_run_copy(batch, world, i);
    lemma_batch_run_outcomes(batch, world);
    let k = lemma_first_failure_exists(results, i);
    lemma_combined_of_first_failure(results, k);
    if forall|j: int|
        0 <= j < i ==> world.files.contains_key(#[trigger] joined(home_dir, names[j])) && undisturbed(
            tasks_between(names, home_dir, destination_dir),
            joined(home_dir, names[j]),
        ) {
        assert forall|j: int| 0 <= j < i implies (#[trigger] results[j]) is Ok by {
            assert(world.files.contains_key(joined(home_dir, names[j])));
            lemma_batch_run_copy(batch, world, j);
        }
        assert(is_first_failure(results, i));
        lemma_first_failure_unique(results, k, i);
    }
}

/// A save of which no listed file is under the home directory fails, names
/// the first entry of the manifest, and leaves the world as it was: no file
/// is created under the destination, and no record is emitted.
pub proof fn lemma_save_of_missing_files_creates_nothing(
    names: Seq<Seq<char>>,
    destination_dir: Seq<char>,
    dry_run: bool,
    home_dir: Seq<char>,
    world: World,
)
    requires
        names.len() > 0,
        forall|j: int| 0 <= j < names.len() ==> !world.files.contains_key(#[trigger] joined(home_dir, names[j])),
    ensures
        save_run(names, destination_dir, dry_run, home_dir, world) == (
            world,
            Err::<Seq<u8>, ErrorView>(not_found(joined(home_dir, names[0]))),
        ),
{
    let batch = batch_between(names, home_dir, destination_dir, dry_run);
    lemma_save_run(names, destination_dir, dry_run, home_dir, world);
    lemma_batch_of_missing_files(batch, world);
    let results = batch_run(batch, world).1;
    assert(results[0] == Err::<u8, ErrorView>(not_found(batch.tasks[0].source)));
    lemma_combined_of_first_failure(results, 0);
}

/// Saving into a folder and then installing from that folder into another
/// home directory puts there, for every listed file that was under the first
/// home directory, a file with the same bytes, and leaves its copy in the
/// folder as the save made it, provided that in neither run another listed
/// file is copied onto the file that is read.
pub proof fn lemma_save_then_apply_restores(
    names: Seq<Seq<char>>,
    home_dir: Seq<char>,
    destination_dir: Seq<char>,
    fresh_home: Seq<char>,
    world: World,
    i: int,
)
    requires
        0 <= i < names.len(),
        world.files.contains_key(joined(home_dir, names[i])),
        undisturbed(tasks_between(names, home_dir, destination_dir), joined(home_dir, names[i])),
        undisturbed(tasks_between(names, destination_dir, fresh_home), joined(destination_dir, names[i])),
    ensures
        ({
            let saved = save_run(names, destination_dir, false, home_dir, world).0;
            let restored = apply_run(names, destination_dir, false, fresh_home, saved).0;
            &&& restored.files.contains_key(joined(fresh_home, names[i]))
            &&& restored.files[joined(fresh_home, names[i])] == world.files[joined(home_dir, names[i])]
            &&& restored.files.contains_key(joined(destination_dir, names[i]))
            &&& restored.files[joined(destination_dir, names[i])] == world.files[joined(home_dir, names[i])]
        }),
{
    lemma_save_copies_present_files(names, destination_dir, home_dir, world, i);
    let saved = save_run(names, destination_dir, false, home_dir, world).0;
    let batch = batch_between(names, destination_dir, fresh_home, false);
    lemma_tasks_between_agreed(names, destination_dir, fresh_home, i);
    lemma_batch_run_copy(batch, saved, i);
    lemma_batch_run_frame(batch, saved, joined(destination_dir, names[i]));
}

/// A dry run changes nothing on disk, whether it saves or installs: the
/// files are as they were, and no directory was created.
pub proof fn lemma_dry_run_changes_nothing_on_disk(
    names: Seq<Seq<char>>,
    source_dir: Seq<char>,
    dest_dir: Seq<char>,
    world: World,
)
    ensures
        save_run(names, dest_dir, true, source_dir, world).0.files == world.files,
        save_run(names, dest_dir, true, source_dir, world).0.prepared == world.prepared,
        apply_run(names, source_dir, true, dest_dir, world).0.files == world.files,
        apply_run(names, source_dir, true, dest_dir, world).0.prepared == world.prepared,
{
    lemma_save_run(names, dest_dir, true, source_dir, world);
    lemma_batch_run_frame(batch_between(names, source_dir, dest_dir, true), world, Seq::empty());
}

/// A dry save whose listed files are all under the home directory succeeds,
/// changes nothing on disk, and emits one record for each entry of the
/// manifest, which names the copy that a real run would have made.
pub proof fn lemma_dry_run_reports_every_copy(
    names: Seq<Seq<char>>,
    destination_dir: Seq<char>,
    home_dir: Seq<char>,
    world: World,
)
    requires
        forall|j: int| 0 <= j < names.len() ==> world.files.contains_key(#[trigger] joined(home_dir, names[j])),
    ensures
        save_run(names, destination_dir, true, home_dir, world).0 == (World {
            log: world.log + Seq::new(
                names.len(),
                |j: int| copy_record(task_between(home_dir, destination_dir, names[j]), true),
            ),
            ..world
        }),
        save_run(names, destination_dir, true, home_dir, world).1 == Ok::<Seq<u8>, ErrorView>(
            Seq::new(names.len(), |j: int| 0u8),
        ),
{
    let batch = batch_between(names, home_dir, destination_dir, true);
    lemma_save_run(names, destination_dir, true, home_dir, world);
    assert forall|j: int| 0 <= j < batch.tasks.len() implies world.files.contains_key(
        (#[trigger] batch.tasks[j]).source,
    ) by {
        assert(world.files.contains_key(joined(home_dir, names[j])));
    }
    lemma_dry_batch_run(batch, world);
    let results = batch_run(batch, world).1;
    lemma_combined_of_successes(results);
    assert(Seq::new(batch.tasks.len(), |j: int| copy_record(batch.tasks[j], true)) =~= Seq::new(
        names.len(),
        |j: int| copy_record(task_between(home_dir, destination_dir, names[j]), true),
    ));
    assert(Seq::new(results.len(), |i: int| results[i]->Ok_0) =~= Seq::new(names.len(), |j: int| 0u8));
}

/// Installing a second time changes nothing on disk and ends as the first
/// time did, provided that no listed file is installed onto the place that a
/// listed file is read from.
pub proof fn lemma_apply_again_changes_nothing(
    names: Seq<Seq<char>>,
    dotfiles_dir: Seq<char>,
    home_dir: Seq<char>,
    world: World,
)
    requires
        forall|j: int|
            0 <= j < names.len() ==> undisturbed(
                tasks_between(names, dotfiles_dir, home_dir),
                #[trigger] joined(dotfiles_dir, names[j]),
            ),
    ensures
        ({
            let first = apply_run(names, dotfiles_dir, false, home_dir, world);
            let second = apply_run(names, dotfiles_dir, false, home_dir, first.0);
            &&& second.1 == first.1
            &&& second.0.files == first.0.files
            &&& second.0.prepared == first.0.prepared
        }),
{
    let batch = batch_between(names, dotfiles_dir, home_dir, false);
    let first = batch_run(batch, world);
    assert forall|j: int| 0 <= j < batch.tasks.len() implies {
        &&& first.0.files.contains_key(batch.tasks[j].source) == world.files.contains_key(batch.tasks[j].source)
        &&& #[trigger] first.1[j] == copied(batch.tasks[j], false, first.0).1
        &&& first.0.files.contains_key(batch.tasks[j].source) ==> {
            &&& first.0.files.contains_key(batch.tasks[j].dest)
            &&& first.0.files[batch.tasks[j].dest] == first.0.files[batch.tasks[j].source]
            &&& first.0.prepared.contains(batch.tasks[j].dest)
        }
    } by {
        assert(undisturbed(batch.tasks, joined(dotfiles_dir, names[j])));
        lemma_batch_run_frame(batch, world, batch.tasks[j].source);
        lemma_tasks_between_agreed(names, dotfiles_dir, home_dir, j);
        lemma_batch_run_copy(batch, world, j);
    }
    assert(settled(batch.tasks, first.0)) by {
        assert forall|j: int|
            0 <= j < batch.tasks.len() && first.0.files.contains_key((#[trigger] batch.tasks[j]).source) implies {
            &&& first.0.files.contains_key(batch.tasks[j].dest)
            &&& first.0.files[batch.tasks[j].dest] == first.0.files[batch.tasks[j].source]
            &&& first.0.prepared.contains(batch.tasks[j].dest)
        } by {
            assert(first.1[j] == copied(batch.tasks[j], false, first.0).1);
        }
    }
    lemma_settled_batch_run(batch, first.0);
    lemma_batch_run_outcomes(batch, world);
    assert(batch_run(batch, first.0).1 =~= first.1);
}

} // verus!
