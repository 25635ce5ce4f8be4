//! The wall clock.
use vstd::prelude::*;

verus! {

/// Milliseconds since the Unix epoch (`chrono::Utc::now().timestamp_millis()`).
/// Nothing is promised of the value: it is whatever the clock reads.
#[verifier::external_body]
pub(crate) fn now() -> (t: i64) {
    chrono::Utc::now().timestamp_millis()
}

} // verus!
