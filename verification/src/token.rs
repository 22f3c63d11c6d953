//! Signed, time-bounded identity tokens.
//!
//! A token is a JSON Web Token signed with HMAC-SHA256 under the server's
//! secret. Signing and signature checking are done by the `jsonwebtoken`
//! crate; what a token may claim, how long it lives and when it is refused
//! is decided here.

use vstd::prelude::*;
use crate::clock::current_timestamp;

verus! {

/// How long a token is valid after it was issued, in seconds: 24 hours.
pub const TOKEN_LIFETIME: usize = 86400;

/// The identity a token carries.
#[derive(Debug, Clone, PartialEq, Eq)]
pub struct Claims {
    /// The first second at which the token is no longer accepted.
    pub exp: usize,
    /// The second at which the token was issued.
    pub iat: usize,
    /// The user's e-mail address.
    pub email: String,
    /// The user's key in the store.
    pub id: i32,
}

/// `Claims` as a mathematical value.
pub struct ClaimsView {
    pub exp: usize,
    pub iat: usize,
    pub email: Seq<char>,
    pub id: i32,
}

impl View for Claims {
    type V = ClaimsView;

    open spec fn view(&self) -> ClaimsView {
        ClaimsView { exp: self.exp, iat: self.iat, email: self.email@, id: self.id }
    }
}

/// Why no token was issued, or why one was refused.
#[derive(Debug, Clone, Copy, PartialEq, Eq, Structural)]
pub enum TokenError {
    /// The token is not well formed, is not signed with the server's secret,
    /// or does not carry the four claims in their ranges.
    InvalidToken,
    /// The token's time is over.
    ExpiredToken,
    /// The signing backend failed.
    Signing,
    /// The clock shows a time that no token can be stamped with.
    Clock,
}

/// The four claims as they were found in a token whose signature was
/// accepted: each is absent where the token has no such field or holds a
/// value of another kind there.
pub struct RawClaims {
    pub exp: Option<u64>,
    pub iat: Option<u64>,
    pub email: Option<String>,
    pub id: Option<i64>,
}

/// `RawClaims` as a mathematical value.
pub struct Payload {
    pub exp: Option<u64>,
    pub iat: Option<u64>,
    pub email: Option<Seq<char>>,
    pub id: Option<i64>,
}

impl View for RawClaims {
    type V = Payload;

    open spec fn view(&self) -> Payload {
        Payload {
            exp: self.exp,
            iat: self.iat,
            email: match self.email {
                Some(text) => Some(text@),
                None => None,
            },
            id: self.id,
        }
    }
}

/// The payload in which a token carries `claims`.
pub open spec fn payload_of(claims: ClaimsView) -> Payload {
    Payload {
        exp: Some(claims.exp as u64),
        iat: Some(claims.iat as u64),
        email: Some(claims.email),
        id: Some(claims.id as i64),
    }
}

/// The error of `jsonwebtoken`, `jsonwebtoken::errors::Error`. It is carried
/// from the two calls below to the code that turns it into a `TokenError`;
/// nothing is claimed of what it holds.
#[verifier::external_type_specification]
#[verifier::external_body]
pub struct ExTokenBackendError(jsonwebtoken::errors::Error);

/// Whether `c` can stand in a token: a letter, a digit, a hyphen or an
/// underscore, which are the characters of URL-safe base64, or a full stop.
pub open spec fn token_char(c: char) -> bool {
    ||| 'A' <= c <= 'Z'
    ||| 'a' <= c <= 'z'
    ||| '0' <= c <= '9'
    ||| c == '-'
    ||| c == '_'
    ||| c == '.'
}

/// Whether `token` is made of the characters of a token.
pub open spec fn token_text(token: Seq<char>) -> bool {
    forall|i: int| 0 <= i < token.len() ==> token_char(#[trigger] token[i])
}

/// The token that `jsonwebtoken::encode` makes of the four claims under
/// `secret` with the default header, or `None` where it fails.
pub uninterp spec fn signed_token(
    exp: usize,
    iat: usize,
    email: Seq<char>,
    id: i32,
    secret: Seq<char>,
) -> Option<Seq<char>>;

/// The claims that `jsonwebtoken::decode` reads from `token` once it has
/// accepted its form and its HMAC-SHA256 signature under `secret`, or `None`
/// where it refuses the token.
pub uninterp spec fn verified_payload(token: Seq<char>, secret: Seq<char>) -> Option<Payload>;

/// Signs `claims` with `jsonwebtoken::encode`, under the default header
/// (HS256) and `EncodingKey::from_secret`, the claims written as a JSON
/// object with the fields `exp`, `iat`, `email` and `id`.
///
/// Believed, not proved: the outcome is a function of the claims and the
/// secret alone; a token is three parts in URL-safe base64 without padding,
/// joined by full stops, so it holds no other character; and a token made
/// here is accepted again by `open_token` under the same secret and then
/// shows the claims it was made of (the signature is recomputed from the
/// same bytes with the same key, and the JSON text is read back into the
/// values it was written from).
#[verifier::external_body]
fn sign_claims(claims: &Claims, secret: &str) -> (signed: Result<
    String,
    jsonwebtoken::errors::Error,
>)
    ensures
        match signed {
            Ok(token) => {
                &&& signed_token(claims.exp, claims.iat, claims.email@, claims.id, secret@)
                    == Some(token@)
                &&& token_text(token@)
                &&& verified_payload(token@, secret@) == Some(payload_of(claims@))
            },
            Err(_) => signed_token(claims.exp, claims.iat, claims.email@, claims.id, secret@)
                is None,
        },
{
    let mut fields = serde_json::Map::new();
    fields.insert("exp".to_string(), claims.exp.into());
    fields.insert("iat".to_string(), claims.iat.into());
    fields.insert("email".to_string(), claims.email.clone().into());
    fields.insert("id".to_string(), claims.id.into());
    let key = jsonwebtoken::EncodingKey::from_secret(secret.as_bytes());
    jsonwebtoken::encode(&jsonwebtoken::Header::default(), &fields, &key)
}

/// Checks `token` with `jsonwebtoken::decode` under
/// `DecodingKey::from_secret` and the default validation (HS256, an `exp`
/// claim required) with the crate's own expiry test switched off, so that
/// the call does not read the clock; then reads the four claims with
/// serde_json's `Value::get`, `as_u64`, `as_str` and `as_i64`.
///
/// Believed, not proved: the outcome is a function of the token and the
/// secret alone.
#[verifier::external_body]
fn open_token(token: &str, secret: &str) -> (opened: Result<RawClaims, jsonwebtoken::errors::Error>)
    ensures
        match opened {
            Ok(raw) => verified_payload(token@, secret@) == Some(raw@),
            Err(_) => verified_payload(token@, secret@) is None,
        },
{
    let mut rules = jsonwebtoken::Validation::default();
    rules.validate_exp = false;
    let key = jsonwebtoken::DecodingKey::from_secret(secret.as_bytes());
    let found = jsonwebtoken::decode::<serde_json::Value>(token, &key, &rules)?.claims;
    Ok(RawClaims {
        exp: found.get("exp").and_then(serde_json::Value::as_u64),
        iat: found.get("iat").and_then(serde_json::Value::as_u64),
        email: found.get("email").and_then(serde_json::Value::as_str).map(String::from),
        id: found.get("id").and_then(serde_json::Value::as_i64),
    })
}

/// Whether a token can be stamped at `now`: the time is not before the
/// epoch, and the end of the token's life fits the field that holds it.
pub open spec fn stampable(now: i64) -> bool {
    0 <= now && now + TOKEN_LIFETIME <= usize::MAX
}

/// The claims of a token issued at `now` for the user `id` with `email`.
pub open spec fn issued_claims(email: Seq<char>, id: i32, now: i64) -> ClaimsView {
    ClaimsView { exp: (now + TOKEN_LIFETIME) as usize, iat: now as usize, email, id }
}

/// What becomes of the claims found in a token at the time `now`: they are
/// refused as invalid unless all four are there and in range, refused as
/// expired from the second `exp` on, and accepted otherwise.
pub open spec fn accepted(payload: Payload, now: i64) -> Result<ClaimsView, TokenError> {
    if payload.exp is None || payload.iat is None || payload.email is None || payload.id is None {
        Err(TokenError::InvalidToken)
    } else if payload.exp->0 > usize::MAX || payload.iat->0 > usize::MAX || payload.id->0
        < i32::MIN || payload.id->0 > i32::MAX {
        Err(TokenError::InvalidToken)
    } else if now >= payload.exp->0 {
        Err(TokenError::ExpiredToken)
    } else {
        Ok(
            ClaimsView {
                exp: payload.exp->0 as usize,
                iat: payload.iat->0 as usize,
                email: payload.email->0,
                id: payload.id->0 as i32,
            },
        )
    }
}

/// What decoding `token` under `secret` at the time `now` gives.
pub open spec fn decoded(token: Seq<char>, secret: Seq<char>, now: i64) -> Result<
    ClaimsView,
    TokenError,
> {
    match verified_payload(token, secret) {
        Some(payload) => accepted(payload, now),
        None => Err(TokenError::InvalidToken),
    }
}

/// Whether `outcome` is what `expected` describes.
pub open spec fn shows(outcome: Result<Claims, TokenError>, expected: Result<
    ClaimsView,
    TokenError,
>) -> bool {
    match expected {
        Ok(view) => outcome matches Ok(claims) && claims@ == view,
        Err(error) => outcome == Err::<Claims, TokenError>(error),
    }
}

/// What issuing a token at `now` gives: `token`, when given, is the signed
/// form of the claims issued at `now`, is made of the characters of a token,
/// and is accepted under the same secret until it expires.
pub open spec fn issued(
    outcome: Result<String, TokenError>,
    email: Seq<char>,
    id: i32,
    secret: Seq<char>,
    now: i64,
) -> bool {
    let claims = issued_claims(email, id, now);
    match outcome {
        Ok(token) => {
            &&& stampable(now)
            &&& signed_token(claims.exp, claims.iat, email, id, secret) == Some(token@)
            &&& token_text(token@)
            &&& forall|later: i64|
                later < now + TOKEN_LIFETIME ==> #[trigger] decoded(token@, secret, later) == Ok::<
                    ClaimsView,
                    TokenError,
                >(claims)
        },
        Err(TokenError::Clock) => !stampable(now),
        Err(TokenError::Signing) => stampable(now) && signed_token(
            claims.exp,
            claims.iat,
            email,
            id,
            secret,
        ) is None,
        Err(_) => false,
    }
}

impl Claims {
    /// The claims of a token issued at `now`: valid from `now` for 24 hours.
    /// Refused only where `now` cannot be stamped.
    pub fn issue(email: String, id: i32, now: i64) -> (outcome: Result<Claims, TokenError>)
        ensures
            stampable(now) ==> (outcome matches Ok(claims) && claims@ == issued_claims(
                email@,
                id,
                now,
            )),
            !stampable(now) ==> outcome == Err::<Claims, TokenError>(TokenError::Clock),
    {
        if now < 0 {
            return Err(TokenError::Clock);
        }
        let seconds: u64 = now as u64;
        let limit: u64 = usize::MAX as u64 - TOKEN_LIFETIME as u64;
        if seconds > limit {
            return Err(TokenError::Clock);
        }
        let iat: usize = seconds as usize;
        Ok(Claims { exp: iat + TOKEN_LIFETIME, iat, email, id })
    }
}

/// Reads the claims found in a token at the time `now`.
pub fn claims_from_payload(raw: RawClaims, now: i64) -> (outcome: Result<Claims, TokenError>)
    ensures
        shows(outcome, accepted(raw@, now)),
{
    let (exp, iat, email, id) = match (raw.exp, raw.iat, raw.email, raw.id) {
        (Some(exp), Some(iat), Some(email), Some(id)) => (exp, iat, email, id),
        _ => { return Err(TokenError::InvalidToken); },
    };
    if exp > usize::MAX as u64 || iat > usize::MAX as u64 || id < i32::MIN as i64 || id
        > i32::MAX as i64 {
        return Err(TokenError::InvalidToken);
    }
    if now >= 0 && now as u64 >= exp {
        return Err(TokenError::ExpiredToken);
    }
    Ok(Claims { exp: exp as usize, iat: iat as usize, email, id: id as i32 })
}

/// Issues a token for the user `id` with `email` at the time `now`, signed
/// under `secret`.
pub fn encode_token_at(email: String, id: i32, secret: &str, now: i64) -> (outcome: Result<
    String,
    TokenError,
>)
    ensures
        issued(outcome, email@, id, secret@, now),
{
    let claims = match Claims::issue(email, id, now) {
        Ok(claims) => claims,
        Err(error) => { return Err(error); },
    };
    match sign_claims(&claims, secret) {
        Ok(token) => {
            assert forall|later: i64| later < now + TOKEN_LIFETIME implies #[trigger] decoded(
                token@,
                secret@,
                later,
            ) == Ok::<ClaimsView, TokenError>(claims@) by {
                assert(accepted(payload_of(claims@), later) == Ok::<ClaimsView, TokenError>(
                    claims@,
                ));
            }
            Ok(token)
        },
        Err(_) => Err(TokenError::Signing),
    }
}

/// Issues a token for the user `id` with `email`, valid for 24 hours from
/// the moment of the call.
pub fn encode_token(email: String, id: i32, secret: &str) -> (outcome: Result<String, TokenError>)
    ensures
        exists|now: i64| issued(outcome, email@, id, secret@, now),
{
    let now = current_timestamp();
    let outcome = encode_token_at(email, id, secret, now);
    assert(issued(outcome, email@, id, secret@, now));
    outcome
}

/// Decodes `token` at the time `now`: the identity it carries, if its
/// signature matches `secret` and `now` is before its expiry.
pub fn decode_jwt_at(token: &String, secret: &str, now: i64) -> (outcome: Result<
    Claims,
    TokenError,
>)
    ensures
        shows(outcome, decoded(token@, secret@, now)),
{
    match open_token(token.as_str(), secret) {
        Ok(raw) => claims_from_payload(raw, now),
        Err(_) => Err(TokenError::InvalidToken),
    }
}

/// Decodes `token` at the moment of the call.
pub fn decode_jwt(token: &String, secret: &str) -> (outcome: Result<Claims, TokenError>)
    ensures
        exists|now: i64| shows(outcome, #[trigger] decoded(token@, secret@, now)),
{
    let now = current_timestamp();
    decode_jwt_at(token, secret, now)
}

/// Decoding undoes encoding: a token issued for a user, decoded under the
/// same secret at any time before its end, shows the user's key and address
/// as they were given, and the times it was stamped with.
pub proof fn law_decode_undoes_encode(
    token: String,
    email: Seq<char>,
    id: i32,
    secret: Seq<char>,
    issued_at: i64,
    now: i64,
)
    requires
        issued(Ok(token), email, id, secret, issued_at),
        now < issued_at + TOKEN_LIFETIME,
    ensures
        decoded(token@, secret, now) == Ok::<ClaimsView, TokenError>(
            ClaimsView {
                exp: (issued_at + TOKEN_LIFETIME) as usize,
                iat: issued_at as usize,
                email,
                id,
            },
        ),
{
}

/// A token is refused as expired exactly from its end on: claims that are
/// complete and in range are accepted at every time before `exp` and
/// refused as expired at `exp` and at every later time.
pub proof fn law_expiry_is_exact(claims: ClaimsView, now: i64)
    ensures
        now < claims.exp ==> accepted(payload_of(claims), now) == Ok::<ClaimsView, TokenError>(
            claims,
        ),
        now >= claims.exp ==> accepted(payload_of(claims), now) == Err::<ClaimsView, TokenError>(
            TokenError::ExpiredToken,
        ),
{
}

} // verus!
