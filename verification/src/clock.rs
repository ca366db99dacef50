//! The wall clock.

use vstd::prelude::*;

verus! {

/// Relies on `time::OffsetDateTime::now_utc`: the current instant, as
/// unix milliseconds. Nothing can be promised of a clock reading.
#[verifier::external_body]
pub(crate) fn now_utc_unix_ms() -> (t: i64) {
    let ns = time::OffsetDateTime::now_utc().unix_timestamp_nanos();
    (ns / 1_000_000) as i64
}

} // verus!
