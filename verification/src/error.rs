//! The failures a request can end in, and the response sent for each.

use vstd::prelude::*;
use vstd::string::*;

verus! {

/// The operation on the database or the file system that failed.
#[derive(Debug, Clone, Copy, PartialEq, Eq, Structural)]
pub enum StorageStep {
    /// Opening the transaction.
    Begin,
    /// Inserting the new row.
    Insert,
    /// Copying the staged file to its permanent place.
    Place,
    /// Writing the file's name into the inserted row.
    Update,
    /// Committing the transaction.
    Commit,
    /// Rolling the transaction back.
    Rollback,
}

/// Why a request was refused or could not be completed.
#[derive(Debug, Clone, PartialEq, Eq)]
pub enum ApiError {
    /// No credential, or one that is malformed, forged or expired.
    Unauthenticated,
    /// The uploaded file's name does not end in an accepted extension.
    UnsupportedMediaType,
    /// The uploaded file holds no bytes.
    EmptyPayload,
    /// The uploaded file is larger than the configured limit.
    PayloadTooLarge,
    /// No post has the requested key.
    NotFound,
    /// A protected handler ran on a request that carries no identity.
    BadClaim,
    /// No user has the address and password given.
    UnknownUser,
    /// The caller's own row is gone.
    MissingUser,
    /// The database or the file system failed at `step`; `cause` is what it reported.
    StorageError { step: StorageStep, cause: String },
    /// A handler behind the guard, or signing a token, failed.
    Internal { cause: String },
}

/// What is sent back to the client.
#[derive(Debug, Clone, PartialEq, Eq)]
pub struct ApiResponse {
    pub status_code: u16,
    pub body: String,
    pub message: String,
    pub success: bool,
}

/// The words that introduce the cause of a storage failure at `step`.
pub open spec fn storage_prefix(step: StorageStep) -> Seq<char> {
    match step {
        StorageStep::Begin => "Failed to create transaction: "@,
        StorageStep::Insert => "Failed to create post: "@,
        StorageStep::Place => "internal error: "@,
        StorageStep::Update => "Failed to update post: "@,
        StorageStep::Commit => "Failed to commit transaction: "@,
        StorageStep::Rollback => "Failed to rollback transaction: "@,
    }
}

impl ApiError {
    /// The HTTP status of the error: 401 for a refused credential or an
    /// unknown user, 400 for a refused upload or a missing identity, 404 for
    /// a missing post, 500 for everything that went wrong on the server's side.
    pub open spec fn status(self) -> u16 {
        match self {
            ApiError::Unauthenticated => 401,
            ApiError::UnsupportedMediaType => 400,
            ApiError::EmptyPayload => 400,
            ApiError::PayloadTooLarge => 400,
            ApiError::NotFound => 404,
            ApiError::BadClaim => 400,
            ApiError::UnknownUser => 401,
            ApiError::MissingUser => 401,
            ApiError::StorageError { .. } => 500,
            ApiError::Internal { .. } => 500,
        }
    }

    /// The text that tells the client what was wrong. A refused credential is
    /// never explained further; a storage failure names the step and the cause.
    pub open spec fn text(self) -> Seq<char> {
        match self {
            ApiError::Unauthenticated => "Unauthorized"@,
            ApiError::UnsupportedMediaType => "Invalid file format"@,
            ApiError::EmptyPayload => "File is empty"@,
            ApiError::PayloadTooLarge => "File is too large"@,
            ApiError::NotFound => "post not found"@,
            ApiError::BadClaim => "Bad claim"@,
            ApiError::UnknownUser => "User not found"@,
            ApiError::MissingUser => "user not found"@,
            ApiError::StorageError { step, cause } => storage_prefix(step) + cause@,
            ApiError::Internal { cause } => cause@,
        }
    }

    /// The HTTP status of the error.
    pub fn status_code(&self) -> (code: u16)
        ensures
            code == self.status(),
    {
        match self {
            ApiError::Unauthenticated => 401,
            ApiError::UnsupportedMediaType => 400,
            ApiError::EmptyPayload => 400,
            ApiError::PayloadTooLarge => 400,
            ApiError::NotFound => 404,
            ApiError::BadClaim => 400,
            ApiError::UnknownUser => 401,
            ApiError::MissingUser => 401,
            ApiError::StorageError { .. } => 500,
            ApiError::Internal { .. } => 500,
        }
    }

    /// The text that tells the client what was wrong.
    pub fn message(&self) -> (text: String)
        ensures
            text@ == self.text(),
    {
        match self {
            ApiError::Unauthenticated => String::from_str("Unauthorized"),
            ApiError::UnsupportedMediaType => String::from_str("Invalid file format"),
            ApiError::EmptyPayload => String::from_str("File is empty"),
            ApiError::PayloadTooLarge => String::from_str("File is too large"),
            ApiError::NotFound => String::from_str("post not found"),
            ApiError::BadClaim => String::from_str("Bad claim"),
            ApiError::UnknownUser => String::from_str("User not found"),
            ApiError::MissingUser => String::from_str("user not found"),
            ApiError::StorageError { step, cause } => {
                let prefix = match step {
                    StorageStep::Begin => String::from_str("Failed to create transaction: "),
                    StorageStep::Insert => String::from_str("Failed to create post: "),
                    StorageStep::Place => String::from_str("internal error: "),
                    StorageStep::Update => String::from_str("Failed to update post: "),
                    StorageStep::Commit => String::from_str("Failed to commit transaction: "),
                    StorageStep::Rollback => String::from_str("Failed to rollback transaction: "),
                };
                prefix.concat(cause.as_str())
            },
            ApiError::Internal { cause } => cause.clone(),
        }
    }

    /// The word that marks the response as a failure: `Error`, but for a
    /// refused media type, whose response repeats its text there.
    pub open spec fn mark(self) -> Seq<char> {
        match self {
            ApiError::UnsupportedMediaType => "Invalid file format"@,
            _ => "Error"@,
        }
    }

    /// The response for this error: its status, its text as the body, and the
    /// mark of a failure.
    pub fn to_response(&self) -> (response: ApiResponse)
        ensures
            response.status_code == self.status(),
            response.body@ == self.text(),
            response.message@ == self.mark(),
            !response.success,
    {
        let message = match self {
            ApiError::UnsupportedMediaType => String::from_str("Invalid file format"),
            _ => String::from_str("Error"),
        };
        ApiResponse { status_code: self.status_code(), body: self.message(), message, success: false }
    }
}

impl ApiResponse {
    /// The response for a request that was served: status 200 and `body`.
    pub fn success(body: String) -> (response: ApiResponse)
        ensures
            response.status_code == 200,
            response.body == body,
            response.message@ == "success"@,
            response.success,
    {
        ApiResponse { status_code: 200, body, message: String::from_str("success"), success: true }
    }
}

} // verus!
