//! Wall-clock time in milliseconds since the Unix epoch.
use vstd::prelude::*;

verus! {

/// `chrono::Utc::now().timestamp_millis()`: the current time in milliseconds.
/// It depends on the machine's clock, so nothing is stated of the value.
#[verifier::external_body]
fn utc_now_millis() -> (r: i64) {
    chrono::Utc::now().timestamp_millis()
}

/// The current time in milliseconds as the service keeps it: the `i64` that
/// chrono reports, cast to `usize` (a time before the epoch wraps around).
pub(crate) fn now_millis() -> (r: usize) {
    let t = utc_now_millis();
    t as usize
}

} // verus!
