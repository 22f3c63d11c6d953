//! The two things a request takes from its surroundings: the time and a
//! fresh key for a new post.

use vstd::prelude::*;

verus! {

/// Seconds since the Unix epoch, read with chrono's `Utc::now` and
/// `DateTime::timestamp`. The value depends on the machine's clock, so
/// nothing is claimed of it: callers handle every `i64`. chrono stops the
/// program when the clock stands before 1970.
#[verifier::external_body]
pub(crate) fn current_timestamp() -> (seconds: i64) {
    chrono::Utc::now().timestamp()
}

/// A random key for a new post, made by uuid's `Uuid::new_v4` and handed
/// over as the 128 bits of `Uuid::as_u128`. The value is drawn at random, so
/// nothing is claimed of it.
#[verifier::external_body]
pub(crate) fn fresh_uuid() -> (key: u128) {
    uuid::Uuid::new_v4().as_u128()
}

} // verus!
