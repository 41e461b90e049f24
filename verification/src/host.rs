//! Readings the library takes from the host: wall-clock time and fresh
//! random nonces. Nothing is promised of a clock reading, and nothing can
//! be promised of a random draw beyond its shape.

use vstd::prelude::*;

verus! {

/// Relies on `chrono::Utc::now().timestamp()`: the wall clock in whole
/// seconds since the epoch. The reading depends on the moment of the call,
/// so nothing is stated about its value.
#[verifier::external_body]
pub fn now_unix_ts() -> (r: i64) {
    chrono::Utc::now().timestamp()
}

/// Relies on `chrono::Utc::now().timestamp_millis()`: the wall clock in
/// milliseconds since the epoch. As above, nothing is stated of its value.
#[verifier::external_body]
pub fn now_unix_millis() -> (r: i64) {
    chrono::Utc::now().timestamp_millis()
}

/// Relies on `uuid::Uuid::new_v4()` and its display form: a random
/// version-4 UUID rendered in the hyphenated format, which is 36
/// characters. The value is random, so only its length is stated.
#[verifier::external_body]
pub fn fresh_nonce() -> (r: String)
    ensures
        r@.len() == 36,
{
    uuid::Uuid::new_v4().to_string()
}

} // verus!
