//! The current time.

use vstd::prelude::*;

verus! {

/// The current time in whole seconds since 1970-01-01 00:00:00 UTC: the
/// system clock, read with `SystemTime::now`, turned into a time of chrono by
/// its `From<SystemTime>` for `DateTime<Utc>`, and counted by
/// `DateTime::timestamp`. A clock that reads a time before 1970 gives a
/// negative count.
///
/// Nothing is claimed of the value: it depends on the system clock.
#[verifier::external_body]
pub(crate) fn now_seconds() -> (seconds: i64) {
    chrono::DateTime::<chrono::Utc>::from(std::time::SystemTime::now()).timestamp()
}

} // verus!
