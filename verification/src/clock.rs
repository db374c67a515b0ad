//! The one place where the library reads the clock.

use vstd::prelude::*;

verus! {

/// Relies on chrono's `DateTime::from_timestamp` and `DateTime::to_rfc3339`:
/// the current UTC instant, formatted as an RFC 3339 date-time string such
/// as `1996-12-19T16:39:57+00:00`. The formatter always writes a full date
/// and time, so the result is never empty; nothing more is promised of a
/// value that depends on the moment of the call. A system clock that reads
/// before the Unix epoch or beyond chrono's representable years falls back
/// to the epoch instant, so the call never panics.
#[verifier::external_body]
pub(crate) fn now_rfc3339() -> (r: String)
    ensures
        r@.len() > 0,
{
    let since_epoch = std::time::SystemTime::now()
        .duration_since(std::time::UNIX_EPOCH)
        .unwrap_or(std::time::Duration::ZERO);
    let instant = chrono::DateTime::from_timestamp(
        since_epoch.as_secs() as i64,
        since_epoch.subsec_nanos(),
    )
    .unwrap_or(chrono::DateTime::UNIX_EPOCH);
    instant.to_rfc3339()
}

} // verus!
