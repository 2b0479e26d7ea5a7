//! Readings of the system clock. Every value here depends on when it is read,
//! so nothing is promised of it; the logic that uses a reading takes it as an
//! argument and is verified for every value.

use vstd::prelude::*;

verus! {

/// Milliseconds since the Unix epoch, as `chrono::Utc::now().timestamp_millis()`
/// reports them. The value depends on the time of the call: no property is claimed.
#[verifier::external_body]
pub(crate) fn current_time_millis() -> (t: i64) {
    chrono::Utc::now().timestamp_millis()
}

/// The current UTC time in RFC 3339 form, as `chrono::Utc::now().to_rfc3339()`
/// formats it. The value depends on the time of the call: no property is claimed.
#[verifier::external_body]
pub(crate) fn current_time_rfc3339() -> (s: String) {
    chrono::Utc::now().to_rfc3339()
}

} // verus!
