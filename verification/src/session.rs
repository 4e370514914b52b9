//! Session freshness: decide when a session token must be refreshed.

use vstd::prelude::*;

verus! {

/// A session refreshed at `last_refreshed` is stale at `now` when more
/// than `crate::SESSION_FRESHNESS_SECONDS` have elapsed since then.
pub open spec fn spec_session_is_stale(now: int, last_refreshed: int) -> bool {
    now - last_refreshed > crate::SESSION_FRESHNESS_SECONDS
}

/// Whether the elapsed time since `last_refreshed` exceeds the
/// freshness threshold, so the next request must refresh the session.
pub fn session_is_stale(now: i64, last_refreshed: i64) -> (stale: bool)
    ensures
        stale == spec_session_is_stale(now as int, last_refreshed as int),
{
    (now as i128) - (last_refreshed as i128) > (crate::SESSION_FRESHNESS_SECONDS as i128)
}

} // verus!
