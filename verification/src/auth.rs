//! The guard in front of the protected routes.
//!
//! A request passes the guard once: its `Authorization` header is read, the
//! token in it is decoded, and the identity found is attached to the
//! request's own context, where the handlers behind the guard look for it.
//! Whatever is wrong with the credential, the client learns only that it is
//! not authenticated.

use vstd::prelude::*;
use vstd::string::*;
use crate::clock::current_timestamp;
use crate::error::ApiError;
use crate::token::{
    decode_jwt_at, decoded, issued, issued_claims, token_char, token_text, verified_payload,
    Claims, ClaimsView, TokenError, TOKEN_LIFETIME,
};

verus! {

/// The `Authorization` header of a request, as far as the guard looks at it.
#[derive(Debug, Clone, PartialEq, Eq)]
pub enum AuthHeader {
    /// The request has no such header.
    Missing,
    /// The header's value is not text.
    Malformed,
    /// The header's value.
    Value(String),
}

/// What one request carries from the guard to its handler.
#[derive(Debug, Clone, PartialEq, Eq)]
pub struct RequestContext {
    /// The caller, once the guard has let the request pass.
    pub identity: Option<Claims>,
}

/// The scheme word that may stand in front of a token.
pub open spec fn scheme() -> Seq<char> {
    "Bearer "@
}

/// The token in a header value: the value without the scheme word in front
/// of it, or the whole value where it does not start with that word.
pub open spec fn bearer(value: Seq<char>) -> Seq<char> {
    if value.len() >= 7 && value.subrange(0, 7) == scheme() {
        value.subrange(7, value.len() as int)
    } else {
        value
    }
}

/// What the guard decides on a request that arrives at the time `now`: the
/// identity to attach, or the refusal.
pub open spec fn admitted(header: AuthHeader, secret: Seq<char>, now: i64) -> Result<
    ClaimsView,
    ApiError,
> {
    match header {
        AuthHeader::Missing => Err(ApiError::Unauthenticated),
        AuthHeader::Malformed => Err(ApiError::Unauthenticated),
        AuthHeader::Value(value) => match decoded(bearer(value@), secret, now) {
            Ok(claims) => Ok(claims),
            Err(_) => Err(ApiError::Unauthenticated),
        },
    }
}

/// Whether the guard, deciding at `now`, has left `outcome` and the context
/// `after`: on admission the identity is attached, on refusal the context
/// is as it was.
pub open spec fn guard_passed(
    outcome: Result<(), ApiError>,
    before: RequestContext,
    after: RequestContext,
    header: AuthHeader,
    secret: Seq<char>,
    now: i64,
) -> bool {
    match admitted(header, secret, now) {
        Ok(claims) => outcome is Ok && (after.identity matches Some(found) && found@ == claims),
        Err(error) => outcome == Err::<(), ApiError>(error) && after == before,
    }
}

/// The token in a header value.
pub fn bearer_token(value: &str) -> (token: String)
    ensures
        token@ == bearer(value@),
{
    let length = value.unicode_len();
    if length >= 7 && String::from_str(value.substring_char(0, 7)) == String::from_str("Bearer ") {
        String::from_str(value.substring_char(7, length))
    } else {
        String::from_str(value)
    }
}

/// Decides on a request at the time `now`, and attaches the identity to
/// `context` where the request is admitted.
pub fn check_auth_at(
    header: &AuthHeader,
    secret: &str,
    now: i64,
    context: &mut RequestContext,
) -> (outcome: Result<(), ApiError>)
    ensures
        guard_passed(outcome, *old(context), *final(context), *header, secret@, now),
{
    match header {
        AuthHeader::Missing => Err(ApiError::Unauthenticated),
        AuthHeader::Malformed => Err(ApiError::Unauthenticated),
        AuthHeader::Value(value) => {
            let token = bearer_token(value.as_str());
            match decode_jwt_at(&token, secret, now) {
                Ok(claims) => {
                    context.identity = Some(claims);
                    Ok(())
                },
                Err(_) => Err(ApiError::Unauthenticated),
            }
        },
    }
}

/// Decides on a request at the moment of the call. The handler behind the
/// guard runs only where the outcome is `Ok`.
pub fn check_auth_middleware(header: &AuthHeader, secret: &str, context: &mut RequestContext) -> (outcome:
    Result<(), ApiError>)
    ensures
        exists|now: i64| #[trigger]
            guard_passed(outcome, *old(context), *final(context), *header, secret@, now),
{
    let now = current_timestamp();
    check_auth_at(header, secret, now, context)
}

/// The failure of a handler behind the guard, as the guard reports it: an
/// internal error with the handler's own words. The credential is not
/// looked at again.
pub fn handler_failure(cause: String) -> (error: ApiError)
    ensures
        error == (ApiError::Internal { cause }),
        error.status() == 500,
{
    ApiError::Internal { cause }
}

impl Claims {
    /// A copy of the claims.
    pub fn duplicate(&self) -> (copy: Claims)
        ensures
            copy == *self,
    {
        Claims { exp: self.exp, iat: self.iat, email: self.email.clone(), id: self.id }
    }

    /// The identity that the guard attached to the request, for a handler
    /// behind it. A request that did not pass the guard has none.
    pub fn from_request(context: &RequestContext) -> (found: Result<Claims, ApiError>)
        ensures
            match context.identity {
                Some(claims) => found == Ok::<Claims, ApiError>(claims),
                None => found == Err::<Claims, ApiError>(ApiError::BadClaim),
            },
    {
        match &context.identity {
            Some(claims) => Ok(claims.duplicate()),
            None => Err(ApiError::BadClaim),
        }
    }
}

/// A header made of the scheme word and a token holds that token.
pub proof fn lemma_bearer_of_scheme_and_token(token: Seq<char>)
    ensures
        bearer(scheme() + token) == token,
{
    reveal_strlit("Bearer ");
    let value = scheme() + token;
    assert(value.subrange(0, 7) =~= scheme());
    assert(value.subrange(7, value.len() as int) =~= token);
}

/// A header that is nothing but a token holds that token: no token begins
/// with the scheme word, which ends in a space.
pub proof fn lemma_bearer_of_bare_token(token: Seq<char>)
    requires
        token_text(token),
    ensures
        bearer(token) == token,
{
    reveal_strlit("Bearer ");
    if token.len() >= 7 && token.subrange(0, 7) == scheme() {
        assert(token.subrange(0, 7)[6] == token[6]);
        assert(scheme()[6] == ' ');
        assert(token_char(token[6]));
    }
}

/// A request that presents a token issued by this server, under the same
/// secret and before the token's end, is admitted with the very user key
/// and address the token was issued for. The token may stand in the header
/// alone or behind the scheme word.
pub proof fn law_valid_token_is_admitted(
    token: String,
    email: Seq<char>,
    id: i32,
    secret: Seq<char>,
    issued_at: i64,
    now: i64,
    header: String,
)
    requires
        issued(Ok(token), email, id, secret, issued_at),
        now < issued_at + TOKEN_LIFETIME,
        header@ == token@ || header@ == scheme() + token@,
    ensures
        admitted(AuthHeader::Value(header), secret, now) == Ok::<ClaimsView, ApiError>(
            issued_claims(email, id, issued_at),
        ),
        issued_claims(email, id, issued_at).id == id,
        issued_claims(email, id, issued_at).email == email,
{
    lemma_bearer_of_scheme_and_token(token@);
    lemma_bearer_of_bare_token(token@);
    assert(decoded(token@, secret, now) == Ok::<ClaimsView, TokenError>(
        issued_claims(email, id, issued_at),
    ));
}

/// A request whose token has reached its end is refused as unauthenticated,
/// whatever else the token holds.
pub proof fn law_expired_token_is_refused(header: AuthHeader, secret: Seq<char>, now: i64)
    requires
        header matches AuthHeader::Value(value) && (verified_payload(bearer(value@), secret)
            matches Some(payload) && (payload.exp matches Some(end) && end <= now)),
    ensures
        admitted(header, secret, now) == Err::<ClaimsView, ApiError>(ApiError::Unauthenticated),
{
}

/// The guard never admits a request without a header or with one that is
/// not text, and refuses every request it does not admit as unauthenticated.
pub proof fn law_refusals_are_unauthenticated(header: AuthHeader, secret: Seq<char>, now: i64)
    ensures
        admitted(header, secret, now) is Err ==> admitted(header, secret, now) == Err::<
            ClaimsView,
            ApiError,
        >(ApiError::Unauthenticated),
        header is Missing || header is Malformed ==> admitted(header, secret, now) is Err,
{
}

} // verus!
