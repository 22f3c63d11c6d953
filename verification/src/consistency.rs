//! What a creation does to the store and the disk, whatever fails.
//!
//! The store and the permanent directory are not part of this crate. They
//! are described here by a model: the committed rows, the rows as the open
//! transaction sees them, and the names of the files in the permanent
//! directory. `effect` says what each stage does to the model when the
//! caller carries it out, and `run` follows a creation through any
//! sequence of reported outcomes. The laws at the end hold of every such
//! sequence.

use vstd::prelude::*;
use crate::create::{first_stage, next_stage, NewPostView, Outcome, Stage};
use crate::error::ApiError;
use crate::upload::{extension, extension_accepted, violation};

verus! {

/// The store and the permanent directory.
pub struct World {
    /// The rows that every reader sees.
    pub rows: Seq<NewPostView>,
    /// The rows as the open transaction sees them; `None` where none is open.
    pub pending: Option<Seq<NewPostView>>,
    /// The names of the files in the permanent directory.
    pub files: Set<Seq<char>>,
}

/// What one creation is to store.
pub struct Plan {
    /// The row to insert.
    pub record: NewPostView,
    /// The name of the permanent file.
    pub stored_name: Seq<char>,
}

/// `record` with the image `name`.
pub open spec fn with_image(record: NewPostView, name: Seq<char>) -> NewPostView {
    NewPostView { image: name, ..record }
}

/// The row that a completed creation leaves in the store.
pub open spec fn stored_row(plan: Plan) -> NewPostView {
    with_image(plan.record, plan.stored_name)
}

/// Whether a row of `rows` has the key `uuid`.
pub open spec fn holds_key(rows: Seq<NewPostView>, uuid: u128) -> bool {
    exists|i: int| 0 <= i < rows.len() && rows[i].uuid == uuid
}

/// The world after the caller has tried what `stage` asks for, with
/// success (`done`) or without.
///
/// A step that fails changes nothing, with one exception: after a rollback,
/// done or failed, no transaction is open. Readers see a change only when a
/// commit is done. The only file that is ever put in place or removed is the
/// one with the creation's own name.
pub open spec fn effect(plan: Plan, world: World, stage: Stage, done: bool) -> World {
    match stage {
        Stage::Begin => if done {
            World { pending: Some(world.rows), ..world }
        } else {
            world
        },
        Stage::Insert => match world.pending {
            Some(rows) if done => World { pending: Some(rows.push(plan.record)), ..world },
            _ => world,
        },
        Stage::Place => if done {
            World { files: world.files.insert(plan.stored_name), ..world }
        } else {
            world
        },
        Stage::Update => match world.pending {
            Some(rows) if done && rows.len() > 0 => World {
                pending: Some(rows.drop_last().push(with_image(rows.last(), plan.stored_name))),
                ..world
            },
            _ => world,
        },
        Stage::Commit => match world.pending {
            Some(rows) if done => World { rows, pending: None, ..world },
            _ => world,
        },
        Stage::Rollback { .. } => World { pending: None, ..world },
        Stage::RemovePlaced { .. } => if done {
            World { files: world.files.remove(plan.stored_name), ..world }
        } else {
            world
        },
        Stage::Discard { .. } => world,
        Stage::Finished { .. } => world,
    }
}

/// The world and the stage after the caller has reported `outcomes`, one
/// for each stage it was asked to carry out, starting at `stage`.
pub open spec fn run(plan: Plan, world: World, stage: Stage, outcomes: Seq<Outcome>) -> (
    World,
    Stage,
)
    decreases outcomes.len(),
{
    if outcomes.len() == 0 {
        (world, stage)
    } else {
        run(
            plan,
            effect(plan, world, stage, outcomes[0] is Done),
            next_stage(stage, outcomes[0]),
            outcomes.drop_first(),
        )
    }
}

/// Whether the creation has succeeded: the commit is done.
pub open spec fn succeeded(stage: Stage) -> bool {
    stage matches Stage::Discard { result: Ok(_) } || stage matches Stage::Finished {
        result: Ok(_),
    }
}

/// Whether the creation has failed: all that is left is to clean up and to
/// report an error.
pub open spec fn failed(stage: Stage) -> bool {
    ||| stage is Rollback
    ||| stage is RemovePlaced
    ||| stage matches Stage::Discard { result: Err(_) }
    ||| stage matches Stage::Finished { result: Err(_) }
}

/// What holds of the world at each stage of a creation that started in the
/// world `before`.
pub open spec fn fits(plan: Plan, before: World, world: World, stage: Stage) -> bool {
    match stage {
        Stage::Begin => world.rows == before.rows && world.pending is None,
        Stage::Insert => world.rows == before.rows && world.pending == Some(before.rows),
        Stage::Place => world.rows == before.rows && world.pending == Some(
            before.rows.push(plan.record),
        ),
        Stage::Update => {
            &&& world.rows == before.rows
            &&& world.pending == Some(before.rows.push(plan.record))
            &&& world.files.contains(plan.stored_name)
        },
        Stage::Commit => {
            &&& world.rows == before.rows
            &&& world.pending == Some(before.rows.push(stored_row(plan)))
            &&& world.files.contains(plan.stored_name)
        },
        Stage::Rollback { .. } => world.rows == before.rows,
        Stage::RemovePlaced { .. } => world.rows == before.rows && world.pending is None,
        Stage::Discard { result } | Stage::Finished { result } => match result {
            Ok(_) => {
                &&& world.rows == before.rows.push(stored_row(plan))
                &&& world.pending is None
                &&& world.files.contains(plan.stored_name)
            },
            Err(_) => world.rows == before.rows && world.pending is None,
        },
    }
}

/// One step keeps the world fitting the stage, and a failed creation failed.
proof fn lemma_step_fits(plan: Plan, before: World, world: World, stage: Stage, outcome: Outcome)
    requires
        fits(plan, before, world, stage),
    ensures
        fits(
            plan,
            before,
            effect(plan, world, stage, outcome is Done),
            next_stage(stage, outcome),
        ),
        failed(stage) ==> failed(next_stage(stage, outcome)),
        succeeded(stage) ==> succeeded(next_stage(stage, outcome)),
{
    if stage is Update && outcome is Done {
        let rows = before.rows.push(plan.record);
        assert(rows.drop_last() =~= before.rows);
        assert(rows.last() == plan.record);
    }
}

/// Every run keeps the world fitting the stage.
proof fn lemma_run_fits(
    plan: Plan,
    before: World,
    world: World,
    stage: Stage,
    outcomes: Seq<Outcome>,
)
    requires
        fits(plan, before, world, stage),
    ensures
        fits(plan, before, run(plan, world, stage, outcomes).0, run(plan, world, stage, outcomes).1),
        failed(stage) ==> failed(run(plan, world, stage, outcomes).1),
        succeeded(stage) ==> succeeded(run(plan, world, stage, outcomes).1),
    decreases outcomes.len(),
{
    if outcomes.len() > 0 {
        lemma_step_fits(plan, before, world, stage, outcomes[0]);
        lemma_run_fits(
            plan,
            before,
            effect(plan, world, stage, outcomes[0] is Done),
            next_stage(stage, outcomes[0]),
            outcomes.drop_first(),
        );
    }
}

/// The largest number of reports after which a creation at `stage` is
/// finished.
pub open spec fn steps_left(stage: Stage) -> nat {
    match stage {
        Stage::Begin => 8,
        Stage::Insert => 7,
        Stage::Place => 6,
        Stage::Update => 5,
        Stage::Commit => 4,
        Stage::Rollback { .. } => 3,
        Stage::RemovePlaced { .. } => 2,
        Stage::Discard { .. } => 1,
        Stage::Finished { .. } => 0,
    }
}

/// Every creation comes to its end. Whatever the caller reports, and also
/// where it gives a step up and reports it as failed, the creation is
/// finished after at most eight reports from its start, and after as many
/// as `steps_left` tells from any later stage; it then stays finished.
pub proof fn law_creation_finishes(plan: Plan, world: World, stage: Stage, outcomes: Seq<Outcome>)
    requires
        outcomes.len() >= steps_left(stage),
    ensures
        run(plan, world, stage, outcomes).1 is Finished,
    decreases outcomes.len(),
{
    if outcomes.len() > 0 {
        let next = next_stage(stage, outcomes[0]);
        assert(steps_left(next) == 0 || steps_left(next) < steps_left(stage));
        law_creation_finishes(
            plan,
            effect(plan, world, stage, outcomes[0] is Done),
            next,
            outcomes.drop_first(),
        );
    }
}

/// A creation is all or nothing. Start it in a world without an open
/// transaction and let any of its steps fail or succeed: at every moment
/// readers see either the rows they saw before, or those rows and the new
/// post with the name of a file that is in place. They see the new post
/// exactly when the creation has succeeded, and once the creation has
/// succeeded or failed beyond the rollback no transaction is left open.
pub proof fn law_creation_is_all_or_nothing(plan: Plan, before: World, outcomes: Seq<Outcome>)
    requires
        before.pending is None,
    ensures
        ({
            let (world, stage) = run(plan, before, Stage::Begin, outcomes);
            &&& succeeded(stage) ==> world.rows == before.rows.push(stored_row(plan))
                && world.files.contains(plan.stored_name)
            &&& !succeeded(stage) ==> world.rows == before.rows
            &&& stage is Discard || stage is Finished ==> world.pending is None
        }),
{
    lemma_run_fits(plan, before, before, Stage::Begin, outcomes);
}

/// Whether every row of `rows` shows no image or one that is among `files`.
pub open spec fn images_exist(rows: Seq<NewPostView>, files: Set<Seq<char>>) -> bool {
    forall|i: int|
        0 <= i < rows.len() ==> (#[trigger] rows[i]).image.len() == 0 || files.contains(
            rows[i].image,
        )
}

/// Whether a row of `rows` shows the image `name`.
pub open spec fn shows_image(rows: Seq<NewPostView>, name: Seq<char>) -> bool {
    exists|i: int| 0 <= i < rows.len() && (#[trigger] rows[i]).image == name
}

/// Whether `after` holds the files of `before`, but for the file `name`.
pub open spec fn same_but(before: Set<Seq<char>>, after: Set<Seq<char>>, name: Seq<char>) -> bool {
    forall|other: Seq<char>| other != name ==> before.contains(other) == #[trigger] after.contains(other)
}

/// No run touches a file but the creation's own.
proof fn lemma_run_keeps_other_files(plan: Plan, world: World, stage: Stage, outcomes: Seq<Outcome>)
    ensures
        same_but(world.files, run(plan, world, stage, outcomes).0.files, plan.stored_name),
    decreases outcomes.len(),
{
    if outcomes.len() > 0 {
        let next = effect(plan, world, stage, outcomes[0] is Done);
        assert(same_but(world.files, next.files, plan.stored_name));
        lemma_run_keeps_other_files(
            plan,
            next,
            next_stage(stage, outcomes[0]),
            outcomes.drop_first(),
        );
    }
}

/// No post is ever seen with an image that is not there. Start a creation
/// in a world without an open transaction, in which every row shows no
/// image or one that is a file, and in which the creation's name is neither
/// a file nor the image of a row. Then at every moment, whatever fails:
/// every row that readers see shows no image or one that is a file; no file
/// but the creation's own is added or removed; and once the creation has
/// succeeded, its file is there, newly made.
pub proof fn law_every_image_names_a_file(plan: Plan, before: World, outcomes: Seq<Outcome>)
    requires
        before.pending is None,
        images_exist(before.rows, before.files),
        !before.files.contains(plan.stored_name),
        !shows_image(before.rows, plan.stored_name),
    ensures
        ({
            let (world, stage) = run(plan, before, Stage::Begin, outcomes);
            &&& images_exist(world.rows, world.files)
            &&& same_but(before.files, world.files, plan.stored_name)
            &&& succeeded(stage) ==> world.files.contains(plan.stored_name)
        }),
{
    let (world, stage) = run(plan, before, Stage::Begin, outcomes);
    law_creation_is_all_or_nothing(plan, before, outcomes);
    lemma_run_keeps_other_files(plan, before, Stage::Begin, outcomes);
    assert forall|i: int| 0 <= i < world.rows.len() implies (#[trigger] world.rows[i]).image.len()
        == 0 || world.files.contains(world.rows[i].image) by {
        if i < before.rows.len() {
            assert(world.rows[i] == before.rows[i]);
            assert(before.rows[i].image != plan.stored_name);
            if before.rows[i].image.len() != 0 {
                assert(before.files.contains(before.rows[i].image));
                assert(world.files.contains(before.rows[i].image));
            }
        } else {
            assert(world.rows[i] == stored_row(plan));
        }
    }
}

/// Whether the caller's reports can be true of a directory in which no file
/// is ever replaced: wherever the creation's name was taken when the file
/// was to be put in place, that step is reported as failed.
pub open spec fn faithful(plan: Plan, world: World, stage: Stage, outcomes: Seq<Outcome>) -> bool
    decreases outcomes.len(),
{
    if outcomes.len() == 0 {
        true
    } else {
        &&& stage is Place && world.files.contains(plan.stored_name) ==> outcomes[0] is Failed
        &&& faithful(
            plan,
            effect(plan, world, stage, outcomes[0] is Done),
            next_stage(stage, outcomes[0]),
            outcomes.drop_first(),
        )
    }
}

/// Whether `stage` can be reached without a file having been put in place.
pub open spec fn nothing_placed(stage: Stage) -> bool {
    ||| stage is Begin
    ||| stage is Insert
    ||| stage is Place
    ||| stage matches Stage::Rollback { placed: false, .. }
    ||| stage matches Stage::Discard { result: Err(_) }
    ||| stage matches Stage::Finished { result: Err(_) }
}

/// Where the name is taken, a creation changes neither the files nor the
/// rows that readers see.
proof fn lemma_taken_name_changes_nothing(
    plan: Plan,
    before: World,
    world: World,
    stage: Stage,
    outcomes: Seq<Outcome>,
)
    requires
        before.files.contains(plan.stored_name),
        world.files == before.files,
        world.rows == before.rows,
        nothing_placed(stage),
        faithful(plan, world, stage, outcomes),
    ensures
        run(plan, world, stage, outcomes).0.files == before.files,
        run(plan, world, stage, outcomes).0.rows == before.rows,
        nothing_placed(run(plan, world, stage, outcomes).1),
    decreases outcomes.len(),
{
    if outcomes.len() > 0 {
        lemma_taken_name_changes_nothing(
            plan,
            before,
            effect(plan, world, stage, outcomes[0] is Done),
            next_stage(stage, outcomes[0]),
            outcomes.drop_first(),
        );
    }
}

/// No file is ever replaced, and none but the creation's own is removed.
/// Start a creation in a world without an open transaction, in which every
/// row shows no image or one that is a file, and let the caller report
/// faithfully. Then at every moment, whatever fails, every row that readers
/// see shows no image or one that is a file, and every file but the
/// creation's own is as it was. Where the creation's name was taken from
/// the start, the creation fails, and the files and the rows that readers
/// see are all as they were.
pub proof fn law_no_file_is_replaced(plan: Plan, before: World, outcomes: Seq<Outcome>)
    requires
        before.pending is None,
        images_exist(before.rows, before.files),
        plan.stored_name.len() > 0,
        faithful(plan, before, Stage::Begin, outcomes),
    ensures
        ({
            let (world, stage) = run(plan, before, Stage::Begin, outcomes);
            &&& images_exist(world.rows, world.files)
            &&& same_but(before.files, world.files, plan.stored_name)
            &&& before.files.contains(plan.stored_name) ==> world.files == before.files
                && world.rows == before.rows && !succeeded(stage)
        }),
{
    if before.files.contains(plan.stored_name) {
        lemma_taken_name_changes_nothing(plan, before, before, Stage::Begin, outcomes);
        lemma_run_keeps_other_files(plan, before, Stage::Begin, outcomes);
    } else {
        assert(!shows_image(before.rows, plan.stored_name)) by {
            if shows_image(before.rows, plan.stored_name) {
                let i = choose|i: int|
                    0 <= i < before.rows.len() && (#[trigger] before.rows[i]).image
                        == plan.stored_name;
                assert(before.files.contains(before.rows[i].image));
            }
        }
        law_every_image_names_a_file(plan, before, outcomes);
    }
}

/// An upload that breaks a rule never reaches the store: whatever the
/// caller reports, the world stays as it was, and the creation ends with
/// the error of the rule that was broken.
pub proof fn law_refused_upload_writes_nothing(
    plan: Plan,
    before: World,
    error: ApiError,
    outcomes: Seq<Outcome>,
)
    ensures
        ({
            let (world, stage) = run(plan, before, first_stage(Some(error)), outcomes);
            &&& world == before
            &&& stage == if outcomes.len() == 0 {
                Stage::Discard { result: Err(error) }
            } else {
                Stage::Finished { result: Err(error) }
            }
        }),
    decreases outcomes.len(),
{
    if outcomes.len() > 0 {
        lemma_finished_stays(plan, before, Err(error), outcomes.drop_first());
    }
}

/// A finished creation stays finished and changes nothing.
proof fn lemma_finished_stays(
    plan: Plan,
    world: World,
    result: Result<(), ApiError>,
    outcomes: Seq<Outcome>,
)
    ensures
        run(plan, world, Stage::Finished { result }, outcomes) == (
            world,
            Stage::Finished { result },
        ),
    decreases outcomes.len(),
{
    if outcomes.len() > 0 {
        lemma_finished_stays(plan, world, result, outcomes.drop_first());
    }
}

/// A creation for a file whose extension is not accepted is refused as an
/// unsupported media type, whatever the file's size, and writes nothing:
/// whatever the caller reports, the world stays as it was.
pub proof fn law_unsupported_upload_writes_nothing(
    name: Seq<char>,
    size: usize,
    max_bytes: u64,
    plan: Plan,
    before: World,
    outcomes: Seq<Outcome>,
)
    requires
        !extension_accepted(extension(name)),
    ensures
        violation(name, size, max_bytes) == Some(ApiError::UnsupportedMediaType),
        ({
            let (world, stage) = run(
                plan,
                before,
                first_stage(violation(name, size, max_bytes)),
                outcomes,
            );
            &&& world == before
            &&& stage matches Stage::Discard { result } ==> result == Err::<(), ApiError>(
                ApiError::UnsupportedMediaType,
            )
            &&& stage matches Stage::Finished { result } ==> result == Err::<(), ApiError>(
                ApiError::UnsupportedMediaType,
            )
            &&& stage is Discard || stage is Finished
        }),
{
    law_refused_upload_writes_nothing(plan, before, ApiError::UnsupportedMediaType, outcomes);
}

/// A creation for a file with an accepted extension that is empty is
/// refused as empty, and one for a file above the limit as too large. Both
/// write nothing: whatever the caller reports, the world stays as it was.
/// A file of a size from one byte up to the limit is not refused.
pub proof fn law_empty_or_oversized_upload_writes_nothing(
    name: Seq<char>,
    size: usize,
    max_bytes: u64,
    plan: Plan,
    before: World,
    outcomes: Seq<Outcome>,
)
    requires
        extension_accepted(extension(name)),
    ensures
        size == 0 ==> violation(name, size, max_bytes) == Some(ApiError::EmptyPayload),
        size > max_bytes ==> violation(name, size, max_bytes) == Some(ApiError::PayloadTooLarge),
        0 < size <= max_bytes ==> violation(name, size, max_bytes) is None,
        size == 0 || size > max_bytes ==> ({
            let (world, stage) = run(
                plan,
                before,
                first_stage(violation(name, size, max_bytes)),
                outcomes,
            );
            &&& world == before
            &&& stage matches Stage::Discard { result } ==> result == Err::<(), ApiError>(
                violation(name, size, max_bytes)->0,
            )
            &&& stage matches Stage::Finished { result } ==> result == Err::<(), ApiError>(
                violation(name, size, max_bytes)->0,
            )
            &&& stage is Discard || stage is Finished
        }),
{
    if size == 0 || size > max_bytes {
        law_refused_upload_writes_nothing(
            plan,
            before,
            violation(name, size, max_bytes)->0,
            outcomes,
        );
    }
}

/// If the file cannot be put in place after the row was inserted, the row
/// is gone when the request ends: readers see the rows they saw before, so
/// a key that was free before the request is still free, and the request
/// ends in a storage error.
pub proof fn law_failed_placement_leaves_no_record(
    plan: Plan,
    before: World,
    cause: String,
    rest: Seq<Outcome>,
)
    requires
        before.pending is None,
        !holds_key(before.rows, plan.record.uuid),
    ensures
        ({
            let outcomes = seq![Outcome::Done, Outcome::Done, Outcome::Failed(cause)] + rest;
            let (world, stage) = run(plan, before, Stage::Begin, outcomes);
            &&& world.rows == before.rows
            &&& !holds_key(world.rows, plan.record.uuid)
            &&& failed(stage)
            &&& rest.len() >= 2 ==> stage matches Stage::Finished {
                result: Err(ApiError::StorageError { .. }),
            }
        }),
{
    let outcomes = seq![Outcome::Done, Outcome::Done, Outcome::Failed(cause)] + rest;
    let first = effect(plan, before, Stage::Begin, true);
    let second = effect(plan, first, Stage::Insert, true);
    let third = effect(plan, second, Stage::Place, false);
    let stage = next_stage(Stage::Place, Outcome::Failed(cause));
    let tail1 = outcomes.drop_first();
    let tail2 = tail1.drop_first();
    assert(tail2.drop_first() =~= rest);
    assert(run(plan, before, Stage::Begin, outcomes) == run(plan, first, Stage::Insert, tail1));
    assert(run(plan, first, Stage::Insert, tail1) == run(plan, second, Stage::Place, tail2));
    assert(run(plan, second, Stage::Place, tail2) == run(plan, third, stage, rest));
    lemma_step_fits(plan, before, before, Stage::Begin, Outcome::Done);
    lemma_step_fits(plan, before, first, Stage::Insert, Outcome::Done);
    lemma_step_fits(plan, before, second, Stage::Place, Outcome::Failed(cause));
    lemma_run_fits(plan, before, third, stage, rest);
    if rest.len() >= 2 {
        lemma_cleanup_ends(plan, third, stage, rest);
    }
}

/// A creation that rolls back without a file to remove is finished after
/// two more reports, with a storage error if it rolled back for one.
proof fn lemma_cleanup_ends(plan: Plan, world: World, stage: Stage, rest: Seq<Outcome>)
    requires
        stage matches Stage::Rollback { error: ApiError::StorageError { .. }, placed: false },
        rest.len() >= 2,
    ensures
        run(plan, world, stage, rest).1 matches Stage::Finished {
            result: Err(ApiError::StorageError { .. }),
        },
{
    let world1 = effect(plan, world, stage, rest[0] is Done);
    let stage1 = next_stage(stage, rest[0]);
    let rest1 = rest.drop_first();
    let world2 = effect(plan, world1, stage1, rest1[0] is Done);
    let stage2 = next_stage(stage1, rest1[0]);
    assert(run(plan, world, stage, rest) == run(plan, world1, stage1, rest1));
    assert(run(plan, world1, stage1, rest1) == run(plan, world2, stage2, rest1.drop_first()));
    assert(stage2 matches Stage::Finished { result: Err(ApiError::StorageError { .. }) });
    let result = stage2->Finished_result;
    lemma_finished_stays(plan, world2, result, rest1.drop_first());
}

} // verus!
