//! Creating a post together with its image.
//!
//! A post is a row in the database and a file on disk, and either both
//! exist or neither. The work is done in a fixed order: open a
//! transaction, insert the row, copy the file to its permanent place, write
//! the file's name into the row, commit. Whatever fails, the transaction is
//! rolled back before the failure is reported, and the staged file is
//! deleted at the end of every request.
//!
//! This module decides; it does not act. A `Creation` names the next thing
//! to do in its `stage`. The caller does it, reports the `Outcome`, and gets
//! the next stage from `advance`, until the stage is `Finished`.

use vstd::prelude::*;
use vstd::string::*;
use crate::clock::{current_timestamp, fresh_uuid};
use crate::error::{ApiError, ApiResponse, StorageStep};
use crate::token::Claims;
use crate::upload::{stored_name, violation, StagedUpload};

verus! {

/// The form a client sends to create a post.
#[derive(Debug, Clone, PartialEq, Eq)]
pub struct CreatePost {
    pub title: String,
    pub text: String,
    pub file: StagedUpload,
}

/// The row that is inserted for a new post. The store adds the row's own
/// number.
#[derive(Debug, Clone, PartialEq, Eq)]
pub struct NewPost {
    pub title: String,
    pub text: String,
    /// The post's public key, 128 random bits.
    pub uuid: u128,
    /// The author: the key of the user the request was made by.
    pub user_id: i32,
    /// The name of the post's image file; empty until the file is in place.
    pub image: String,
    /// The second at which the request was taken up.
    pub created_at: i64,
}

/// `NewPost` as a mathematical value.
pub struct NewPostView {
    pub title: Seq<char>,
    pub text: Seq<char>,
    pub uuid: u128,
    pub user_id: i32,
    pub image: Seq<char>,
    pub created_at: i64,
}

impl View for NewPost {
    type V = NewPostView;

    open spec fn view(&self) -> NewPostView {
        NewPostView {
            title: self.title@,
            text: self.text@,
            uuid: self.uuid,
            user_id: self.user_id,
            image: self.image@,
            created_at: self.created_at,
        }
    }
}

/// How the caller fared with what a stage asked for.
#[derive(Debug, Clone, PartialEq, Eq)]
pub enum Outcome {
    /// It was done.
    Done,
    /// It failed, for the reason given. A step that the caller gave up,
    /// because the client left or the time ran out, is reported as failed
    /// too, so that what was begun is undone.
    Failed(String),
}

/// Where the creation of a post stands: what the caller is to do next.
#[derive(Debug, PartialEq, Eq)]
pub enum Stage {
    /// Open a transaction.
    Begin,
    /// Insert the record, inside the transaction.
    Insert,
    /// Copy the staged file to the permanent directory, under the stored
    /// name. No file is ever replaced: where the name is taken, the step
    /// has failed.
    Place,
    /// Write the stored name into the inserted row, inside the transaction.
    Update,
    /// Commit the transaction.
    Commit,
    /// Roll the transaction back. `error` is what went wrong; `placed` tells
    /// whether the permanent file is to be deleted afterwards.
    Rollback { error: ApiError, placed: bool },
    /// Delete the permanent file that this creation has put in place, as
    /// far as that is possible.
    RemovePlaced { error: ApiError },
    /// Delete the staged file, as far as that is possible.
    Discard { result: Result<(), ApiError> },
    /// Answer the client with `result`. Nothing is left to do.
    Finished { result: Result<(), ApiError> },
}

/// The creation of one post: what is to be stored, and how far it has come.
#[derive(Debug, PartialEq, Eq)]
pub struct Creation {
    /// The row to insert.
    pub record: NewPost,
    /// Where the staged file lies.
    pub temp_path: String,
    /// The name of the permanent file, which is also written into the row.
    /// It holds the post's key, so no other creation has the same.
    pub stored_name: String,
    /// What is to be done next.
    pub stage: Stage,
}

/// The stage a creation starts in: an upload that breaks a rule is refused
/// before the store is touched, and only its staged file is deleted.
pub open spec fn first_stage(broken: Option<ApiError>) -> Stage {
    match broken {
        Some(error) => Stage::Discard { result: Err(error) },
        None => Stage::Begin,
    }
}

/// The failure of `step` for the reason `cause`.
pub open spec fn failure(step: StorageStep, cause: String) -> ApiError {
    ApiError::StorageError { step, cause }
}

/// The stage that follows `stage` once the caller reports `outcome`.
///
/// Each step of the work leads to the next when it was done. A failure to
/// open the transaction ends the work; every later failure leads to a
/// rollback first. A failed commit is followed by a rollback and by the
/// removal of the permanent file. A failed rollback takes the place of the
/// failure that led to it. How the two deletions fare changes nothing.
pub open spec fn next_stage(stage: Stage, outcome: Outcome) -> Stage {
    match stage {
        Stage::Begin => match outcome {
            Outcome::Done => Stage::Insert,
            Outcome::Failed(cause) => Stage::Discard {
                result: Err(failure(StorageStep::Begin, cause)),
            },
        },
        Stage::Insert => match outcome {
            Outcome::Done => Stage::Place,
            Outcome::Failed(cause) => Stage::Rollback {
                error: failure(StorageStep::Insert, cause),
                placed: false,
            },
        },
        Stage::Place => match outcome {
            Outcome::Done => Stage::Update,
            Outcome::Failed(cause) => Stage::Rollback {
                error: failure(StorageStep::Place, cause),
                placed: false,
            },
        },
        Stage::Update => match outcome {
            Outcome::Done => Stage::Commit,
            Outcome::Failed(cause) => Stage::Rollback {
                error: failure(StorageStep::Update, cause),
                placed: false,
            },
        },
        Stage::Commit => match outcome {
            Outcome::Done => Stage::Discard { result: Ok(()) },
            Outcome::Failed(cause) => Stage::Rollback {
                error: failure(StorageStep::Commit, cause),
                placed: true,
            },
        },
        Stage::Rollback { error, placed } => {
            let reported = match outcome {
                Outcome::Done => error,
                Outcome::Failed(cause) => failure(StorageStep::Rollback, cause),
            };
            if placed {
                Stage::RemovePlaced { error: reported }
            } else {
                Stage::Discard { result: Err(reported) }
            }
        },
        Stage::RemovePlaced { error } => Stage::Discard { result: Err(error) },
        Stage::Discard { result } => Stage::Finished { result },
        Stage::Finished { result } => Stage::Finished { result },
    }
}

/// Whether `creation` is the creation that starts for the form
/// `post_model`, sent by `claim`, under the limit `max_file_size`, with the
/// key `uuid`, at the second `now`.
pub open spec fn starts(
    creation: Creation,
    claim: Claims,
    post_model: CreatePost,
    max_file_size: u64,
    uuid: u128,
    now: i64,
) -> bool {
    &&& creation.record@ == NewPostView {
        title: post_model.title@,
        text: post_model.text@,
        uuid,
        user_id: claim.id,
        image: Seq::<char>::empty(),
        created_at: now,
    }
    &&& creation.temp_path == post_model.file.temp_path
    &&& creation.stored_name@ == stored_name(now, uuid, post_model.file.name())
    &&& creation.stage == first_stage(
        violation(post_model.file.name(), post_model.file.size, max_file_size),
    )
}

/// Starts the creation of a post with the key `uuid` at the second `now`.
pub fn create_post_at(
    claim: &Claims,
    post_model: &CreatePost,
    max_file_size: u64,
    uuid: u128,
    now: i64,
) -> (creation: Creation)
    ensures
        starts(creation, *claim, *post_model, max_file_size, uuid, now),
{
    let stage = match post_model.file.validate(max_file_size) {
        Ok(_) => Stage::Begin,
        Err(error) => Stage::Discard { result: Err(error) },
    };
    Creation {
        record: NewPost {
            title: post_model.title.clone(),
            text: post_model.text.clone(),
            uuid,
            user_id: claim.id,
            image: String::new(),
            created_at: now,
        },
        temp_path: post_model.file.temp_path.clone(),
        stored_name: post_model.file.permanent_name(now, uuid),
        stage,
    }
}

/// Starts the creation of a post for the caller `claim`, with a fresh
/// random key, at the moment of the call.
pub fn create_post(claim: &Claims, post_model: &CreatePost, max_file_size: u64) -> (creation:
    Creation)
    ensures
        exists|uuid: u128, now: i64| #[trigger]
            starts(creation, *claim, *post_model, max_file_size, uuid, now),
{
    let uuid = fresh_uuid();
    let now = current_timestamp();
    create_post_at(claim, post_model, max_file_size, uuid, now)
}

impl Stage {
    /// Whether nothing is left to do but to answer.
    pub fn is_finished(&self) -> (finished: bool)
        ensures
            finished == (*self is Finished),
    {
        match self {
            Stage::Finished { .. } => true,
            _ => false,
        }
    }

    /// The stage that follows this one once `outcome` is reported.
    pub fn after(self, outcome: Outcome) -> (next: Stage)
        ensures
            next == next_stage(self, outcome),
    {
        match self {
            Stage::Begin => match outcome {
                Outcome::Done => Stage::Insert,
                Outcome::Failed(cause) => Stage::Discard {
                    result: Err(ApiError::StorageError { step: StorageStep::Begin, cause }),
                },
            },
            Stage::Insert => match outcome {
                Outcome::Done => Stage::Place,
                Outcome::Failed(cause) => Stage::Rollback {
                    error: ApiError::StorageError { step: StorageStep::Insert, cause },
                    placed: false,
                },
            },
            Stage::Place => match outcome {
                Outcome::Done => Stage::Update,
                Outcome::Failed(cause) => Stage::Rollback {
                    error: ApiError::StorageError { step: StorageStep::Place, cause },
                    placed: false,
                },
            },
            Stage::Update => match outcome {
                Outcome::Done => Stage::Commit,
                Outcome::Failed(cause) => Stage::Rollback {
                    error: ApiError::StorageError { step: StorageStep::Update, cause },
                    placed: false,
                },
            },
            Stage::Commit => match outcome {
                Outcome::Done => Stage::Discard { result: Ok(()) },
                Outcome::Failed(cause) => Stage::Rollback {
                    error: ApiError::StorageError { step: StorageStep::Commit, cause },
                    placed: true,
                },
            },
            Stage::Rollback { error, placed } => {
                let reported = match outcome {
                    Outcome::Done => error,
                    Outcome::Failed(cause) => ApiError::StorageError {
                        step: StorageStep::Rollback,
                        cause,
                    },
                };
                if placed {
                    Stage::RemovePlaced { error: reported }
                } else {
                    Stage::Discard { result: Err(reported) }
                }
            },
            Stage::RemovePlaced { error } => Stage::Discard { result: Err(error) },
            Stage::Discard { result } => Stage::Finished { result },
            Stage::Finished { result } => Stage::Finished { result },
        }
    }
}

impl Creation {
    /// Takes the report on what the current stage asked for, and moves to
    /// the stage that follows. What is to be stored stays as it is.
    pub fn advance(self, outcome: Outcome) -> (next: Creation)
        ensures
            next.stage == next_stage(self.stage, outcome),
            next.record == self.record,
            next.temp_path == self.temp_path,
            next.stored_name == self.stored_name,
    {
        Creation {
            record: self.record,
            temp_path: self.temp_path,
            stored_name: self.stored_name,
            stage: self.stage.after(outcome),
        }
    }

    /// The answer to the client, once the creation is finished: the
    /// acknowledgement where the post was stored, else the error's response.
    pub fn response(&self) -> (answer: Option<ApiResponse>)
        ensures
            match self.stage {
                Stage::Finished { result: Ok(_) } => answer matches Some(response)
                    && response.status_code == 200 && response.success && response.body@
                    == "Post created successfully"@,
                Stage::Finished { result: Err(error) } => answer matches Some(response)
                    && response.status_code == error.status() && !response.success
                    && response.body@ == error.text(),
                _ => answer is None,
            },
    {
        match &self.stage {
            Stage::Finished { result: Ok(_) } => Some(
                ApiResponse::success(String::from_str("Post created successfully")),
            ),
            Stage::Finished { result: Err(error) } => Some(error.to_response()),
            _ => None,
        }
    }
}

} // verus!
