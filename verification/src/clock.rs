//! Points in time, as the vault stamps its entries with them.

use vstd::prelude::*;
use chrono::DateTime;
use chrono::Utc;
use std::time::SystemTime;

verus! {

/// A point in time: whole seconds since the start of 1970 in UTC, and the
/// nanoseconds into the second.
#[derive(Debug, Clone, Copy, PartialEq, Eq, Structural)]
pub struct Timestamp {
    pub seconds: i64,
    pub nanos: u32,
}

impl Default for Timestamp {
    /// The start of 1970.
    fn default() -> (start: Self)
        ensures
            start == (Timestamp { seconds: 0, nanos: 0 }),
    {
        Timestamp { seconds: 0, nanos: 0 }
    }
}

/// `SystemTime::now`, turned into a `DateTime<Utc>` by chrono's `From` and
/// read by `DateTime::timestamp` and `DateTime::timestamp_subsec_nanos`: the
/// time of the system clock. A clock that stands before 1970 gives negative
/// seconds.
#[verifier::external_body]
pub(crate) fn now() -> Timestamp {
    let time = DateTime::<Utc>::from(SystemTime::now());
    Timestamp { seconds: time.timestamp(), nanos: time.timestamp_subsec_nanos() }
}

} // verus!
