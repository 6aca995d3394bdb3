//! The cleaning of favorites that have no tags left: those not touched for
//! 30 days are deleted.
use vstd::prelude::*;

verus! {

/// How long a favorite without tags is kept: 30 days, in milliseconds.
pub const EMPTY_TAGS_KEEP_MILLIS: i64 = 2_592_000_000;

/// The cut-off of a cleaning at `now_millis` (milliseconds since the epoch):
/// favorites without tags whose timestamp is below it are deleted.
pub fn empty_tags_threshold(now_millis: i64) -> (r: i64)
    requires
        now_millis - EMPTY_TAGS_KEEP_MILLIS >= i64::MIN,
    ensures
        r == now_millis - 30 * 24 * 60 * 60 * 1000,
{
    now_millis - EMPTY_TAGS_KEEP_MILLIS
}

} // verus!
