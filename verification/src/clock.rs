//! The system clock.

use vstd::prelude::*;

verus! {

/// `chrono::Utc::now` followed by `timestamp_millis`: the system clock's
/// time in milliseconds since the Unix epoch. Nothing is claimed of the
/// value: two calls may give any two numbers. The call panics only where the
/// system clock reads a time before the epoch.
#[verifier::external_body]
pub(crate) fn now_millis() -> (millis: i64) {
    chrono::Utc::now().timestamp_millis()
}

} // verus!
