use vstd::prelude::*;
use chrono::Datelike;
use crate::models::{Timestamp, NANOS_PER_SEC};

verus! {

/// Bound on the seconds of any instant chrono can represent: its dates lie
/// within the years -262143 ..= 262142, fewer than 2^43 seconds from 1970.
pub const MAX_CLOCK_SECS: i64 = 0x800_0000_0000;

/// The UTC (year, month) of the instant `secs` seconds after the epoch, as
/// chrono's calendar gives it, or `None` where chrono has no such date.
pub uninterp spec fn civil_year_month(secs: int) -> Option<(i32, u32)>;

/// Relies on chrono's `Utc::now`, `DateTime::timestamp` and
/// `DateTime::timestamp_subsec_nanos`: the current time as seconds and
/// nanoseconds. Like every `DateTime`, it lies within chrono's range of
/// dates (`NaiveDate`'s `MIN_YEAR` and `MAX_YEAR`).
#[verifier::external_body]
fn clock_now() -> (r: (i64, u32))
    ensures
        -MAX_CLOCK_SECS < r.0 < MAX_CLOCK_SECS,
{
    let now = chrono::Utc::now();
    (now.timestamp(), now.timestamp_subsec_nanos())
}

/// Relies on chrono's `DateTime::from_timestamp`, `Datelike::year` and
/// `Datelike::month`: the calendar year and month (1 to 12) of an instant.
#[verifier::external_body]
pub(crate) fn year_month_of(secs: i64) -> (r: Option<(i32, u32)>)
    ensures
        r == civil_year_month(secs as int),
        r matches Some(p) ==> 1 <= p.1 <= 12,
{
    match chrono::DateTime::from_timestamp(secs, 0) {
        Some(d) => Some((d.year(), d.month())),
        None => None,
    }
}

impl Timestamp {
    /// Instants the library takes from outside: within chrono's range.
    pub open spec fn in_range(self) -> bool {
        -MAX_CLOCK_SECS < self.secs < MAX_CLOCK_SECS
    }

    /// An instant from seconds and nanoseconds; nanoseconds past the end of
    /// the second (a leap second) are held at its last nanosecond.
    pub fn from_parts(secs: i64, nanos: u32) -> (r: Timestamp)
        ensures
            r.wf(),
            r.secs == secs,
            nanos < NANOS_PER_SEC ==> r.nanos == nanos,
            nanos >= NANOS_PER_SEC ==> r.nanos == NANOS_PER_SEC - 1,
    {
        if nanos < NANOS_PER_SEC {
            Timestamp { secs, nanos }
        } else {
            Timestamp { secs, nanos: NANOS_PER_SEC - 1 }
        }
    }

    /// The current time.
    pub fn now() -> (r: Timestamp)
        ensures
            r.wf(),
            r.in_range(),
    {
        let (secs, nanos) = clock_now();
        Timestamp::from_parts(secs, nanos)
    }
}

} // verus!
