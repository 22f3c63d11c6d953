//! Registering users and logging them in.
//!
//! Passwords are never stored: a user's row holds the SHA-256 digest of the
//! password, in hexadecimal, and a login looks for a row with the address
//! and the digest of what was typed. Whoever is found gets a token.

use vstd::prelude::*;
use vstd::string::*;
use crate::clock::current_timestamp;
use crate::error::{ApiError, ApiResponse};
use crate::reader::UserRow;
use crate::token::{encode_token_at, issued, TokenError};
use crate::upload::{decimal, decimal_text};

verus! {

/// The SHA-256 digest of the UTF-8 bytes of `password`, in 64 lower-case
/// hexadecimal digits, as `sha256::digest` gives it.
pub uninterp spec fn sha256_hex(password: Seq<char>) -> Seq<char>;

/// Digests `password` with `sha256::digest`. Believed, not proved: the
/// digest is a function of the password alone.
#[verifier::external_body]
fn password_digest(password: &str) -> (digest: String)
    ensures
        digest@ == sha256_hex(password@),
{
    sha256::digest(password)
}

/// A user's row before the store has numbered it.
#[derive(Debug, Clone, PartialEq, Eq)]
pub struct NewUser {
    pub name: String,
    pub email: String,
    /// The digest of the user's password.
    pub password: String,
}

/// What a login looks for in the store: a user with this address and this
/// digest.
#[derive(Debug, Clone, PartialEq, Eq)]
pub struct Credentials {
    pub email: String,
    /// The digest of the password that was typed.
    pub password: String,
}

/// The body that carries `token` to the client.
pub open spec fn token_body(token: Seq<char>) -> Seq<char> {
    "{'token': '"@ + token + "'}"@
}

/// The body that shows a user's name and address.
pub open spec fn profile_body(name: Seq<char>, email: Seq<char>) -> Seq<char> {
    "{'name':'"@ + name + "','email':'"@ + email + "'}"@
}

/// What a failure to issue a token is called in the response.
pub open spec fn token_failure_text(error: TokenError) -> Seq<char> {
    match error {
        TokenError::InvalidToken => "invalid token"@,
        TokenError::ExpiredToken => "expired token"@,
        TokenError::Signing => "the token could not be signed"@,
        TokenError::Clock => "the clock is out of range"@,
    }
}

/// Whether `answer` is the answer to a login for which issuing the token
/// gave `outcome`: the token in a successful response, or an internal error.
pub open spec fn answers(answer: Result<ApiResponse, ApiError>, outcome: Result<
    String,
    TokenError,
>) -> bool {
    match outcome {
        Ok(token) => answer matches Ok(response) && response.status_code == 200
            && response.success && response.body@ == token_body(token@),
        Err(error) => answer matches Err(ApiError::Internal { cause }) && cause@
            == token_failure_text(error),
    }
}

/// Whether `answer` is the answer to a login at the second `now`: the user
/// that was found gets a token issued at `now` or an internal error, and
/// where nobody was found the login is refused.
pub open spec fn logged_in(
    answer: Result<ApiResponse, ApiError>,
    found: Option<UserRow>,
    secret: Seq<char>,
    now: i64,
) -> bool {
    match found {
        Some(user) => exists|outcome: Result<String, TokenError>|
            issued(outcome, user.email@, user.id, secret, now) && #[trigger] answers(
                answer,
                outcome,
            ),
        None => answer == Err::<ApiResponse, ApiError>(ApiError::UnknownUser),
    }
}

/// The row to insert for a user who registers with `password`.
pub fn register(username: String, password: &str, email: String) -> (user: NewUser)
    ensures
        user.name == username,
        user.email == email,
        user.password@ == sha256_hex(password@),
{
    NewUser { name: username, email, password: password_digest(password) }
}

/// The answer to a registration that the store has numbered `id`: the
/// number, in decimal.
pub fn registered(id: i32) -> (response: ApiResponse)
    ensures
        response.status_code == 200,
        response.success,
        response.body@ == decimal(id as int),
{
    ApiResponse::success(decimal_text(id as i64))
}

/// What to look for in the store when a user logs in with `password`.
pub fn credentials(email: String, password: &str) -> (wanted: Credentials)
    ensures
        wanted.email == email,
        wanted.password@ == sha256_hex(password@),
{
    Credentials { email, password: password_digest(password) }
}

/// The answer to a login once the token was issued, or could not be.
pub fn token_response(outcome: Result<String, TokenError>) -> (answer: Result<
    ApiResponse,
    ApiError,
>)
    ensures
        answers(answer, outcome),
{
    match outcome {
        Ok(token) => {
            let body = String::from_str("{'token': '").concat(token.as_str()).concat("'}");
            Ok(ApiResponse::success(body))
        },
        Err(error) => {
            let cause = match error {
                TokenError::InvalidToken => String::from_str("invalid token"),
                TokenError::ExpiredToken => String::from_str("expired token"),
                TokenError::Signing => String::from_str("the token could not be signed"),
                TokenError::Clock => String::from_str("the clock is out of range"),
            };
            Err(ApiError::Internal { cause })
        },
    }
}

/// Answers a login at the second `now`. `found` is the user with the
/// address and digest that were looked for, if there is one: that user gets
/// a token, and nobody else does.
pub fn login_at(found: Option<UserRow>, secret: &str, now: i64) -> (answer: Result<
    ApiResponse,
    ApiError,
>)
    ensures
        logged_in(answer, found, secret@, now),
{
    match found {
        Some(user) => {
            let outcome = encode_token_at(user.email, user.id, secret, now);
            let ghost issued_outcome = outcome;
            let answer = token_response(outcome);
            assert(answers(answer, issued_outcome));
            answer
        },
        None => Err(ApiError::UnknownUser),
    }
}

/// Answers a login at the moment of the call.
pub fn login(found: Option<UserRow>, secret: &str) -> (answer: Result<ApiResponse, ApiError>)
    ensures
        exists|now: i64| logged_in(answer, found, secret@, now),
{
    let now = current_timestamp();
    let answer = login_at(found, secret, now);
    assert(logged_in(answer, found, secret@, now));
    answer
}

/// Shows the caller's own name and address. `found` is the caller's row,
/// if the store still holds it.
pub fn user(found: Option<UserRow>) -> (answer: Result<ApiResponse, ApiError>)
    ensures
        match found {
            Some(row) => answer matches Ok(response) && response.status_code == 200
                && response.success && response.body@ == profile_body(row.name@, row.email@),
            None => answer == Err::<ApiResponse, ApiError>(ApiError::MissingUser),
        },
{
    match found {
        Some(row) => {
            let body = String::from_str("{'name':'").concat(row.name.as_str()).concat(
                "','email':'",
            ).concat(row.email.as_str()).concat("'}");
            Ok(ApiResponse::success(body))
        },
        None => Err(ApiError::MissingUser),
    }
}

/// Gives the caller the new name `name`: the row to write back, which
/// differs from the caller's row in the name only.
pub fn update_user(found: Option<UserRow>, name: String) -> (changed: Result<UserRow, ApiError>)
    ensures
        match found {
            Some(row) => changed == Ok::<UserRow, ApiError>(UserRow { name, ..row }),
            None => changed == Err::<UserRow, ApiError>(ApiError::MissingUser),
        },
{
    match found {
        Some(row) => Ok(
            UserRow { id: row.id, name, email: row.email, password: row.password },
        ),
        None => Err(ApiError::MissingUser),
    }
}

/// The answer to a name change that was written.
pub fn updated() -> (response: ApiResponse)
    ensures
        response.status_code == 200,
        response.success,
        response.body@ == "success"@,
{
    ApiResponse::success(String::from_str("success"))
}

/// The greeting on the home page.
pub fn index() -> (response: ApiResponse)
    ensures
        response.status_code == 200,
        response.success,
        response.body@ == "hello rustacean! \u{1F980}"@,
        response.message@ == "hy"@,
{
    ApiResponse {
        status_code: 200,
        body: String::from_str("hello rustacean! \u{1F980}"),
        message: String::from_str("hy"),
        success: true,
    }
}

} // verus!
