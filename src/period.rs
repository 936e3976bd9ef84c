use vstd::prelude::*;
use crate::clock::{civil_year_month, year_month_of};
use crate::models::{Timestamp, NANOS_PER_SEC, SECS_PER_DAY};

verus! {

/// The window of time that an analysis covers.
#[derive(Clone, Copy, Debug, PartialEq, Eq, Structural)]
pub enum Period {
    Day,
    Week,
    Month,
    Year,
}

/// The lowercase form of `s`, as std's Unicode case mapping gives it.
pub uninterp spec fn lower_of(s: Seq<char>) -> Seq<char>;

/// Relies on std's `str::to_lowercase`: the Unicode lowercase of the text,
/// which depends on the characters alone.
#[verifier::external_body]
fn lowercase(s: &str) -> (r: String)
    ensures
        r@ == lower_of(s@),
{
    s.to_lowercase()
}

/// The period that a lowercase name stands for, if any.
pub open spec fn period_named(s: Seq<char>) -> Option<Period> {
    if s == "day"@ || s == "daily"@ {
        Some(Period::Day)
    } else if s == "week"@ || s == "weekly"@ {
        Some(Period::Week)
    } else if s == "month"@ || s == "monthly"@ {
        Some(Period::Month)
    } else if s == "year"@ || s == "yearly"@ {
        Some(Period::Year)
    } else {
        None
    }
}

/// Whether two texts are equal.
pub fn same_text(a: &str, b: &str) -> (r: bool)
    ensures
        r == (a@ == b@),
{
    let n = a.unicode_len();
    if n != b.unicode_len() {
        return false;
    }
    let mut k: usize = 0;
    while k < n
        invariant
            n == a@.len(),
            n == b@.len(),
            k <= n,
            forall|j: int| 0 <= j < k ==> a@[j] == b@[j],
        decreases n - k,
    {
        if a.get_char(k) != b.get_char(k) {
            return false;
        }
        k += 1;
    }
    assert(a@ =~= b@);
    true
}

/// The period that the lowercase name `s` stands for, if any.
pub fn period_of_lowercase(s: &str) -> (r: Option<Period>)
    ensures
        r == period_named(s@),
{
    if same_text(s, "day") || same_text(s, "daily") {
        Some(Period::Day)
    } else if same_text(s, "week") || same_text(s, "weekly") {
        Some(Period::Week)
    } else if same_text(s, "month") || same_text(s, "monthly") {
        Some(Period::Month)
    } else if same_text(s, "year") || same_text(s, "yearly") {
        Some(Period::Year)
    } else {
        None
    }
}

/// Reads a period name in any case. An unknown name gives the week, with
/// `false` beside it so that the caller can warn.
pub fn parse_period(s: &str) -> (r: (Period, bool))
    ensures
        r.1 == period_named(lower_of(s@)) is Some,
        r.0 == match period_named(lower_of(s@)) {
            Some(p) => p,
            None => Period::Week,
        },
{
    let lowered = lowercase(s);
    match period_of_lowercase(lowered.as_str()) {
        Some(p) => (p, true),
        None => (Period::Week, false),
    }
}

/// Day of the week of the day with index `day`, counted from Monday as 0
/// (day 0, 1970-01-01, was a Thursday).
pub open spec fn weekday_from_monday(day: int) -> int {
    (day + 3) % 7
}

/// Index of the Monday that starts the week holding `day`.
pub open spec fn week_start_day(day: int) -> int {
    day - weekday_from_monday(day)
}

/// Whether an analysis for `period` at `now` takes in an instant `t`.
pub open spec fn in_period(t: Timestamp, period: Period, now: Timestamp) -> bool {
    match period {
        Period::Day => t.day() == now.day(),
        Period::Week => t.secs >= week_start_day(now.day()) * SECS_PER_DAY && t.total_nanos()
            <= now.total_nanos(),
        Period::Month => match (civil_year_month(t.secs as int), civil_year_month(now.secs as int)) {
            (Some(a), Some(b)) => a.0 == b.0 && a.1 == b.1,
            _ => false,
        },
        Period::Year => match (civil_year_month(t.secs as int), civil_year_month(now.secs as int)) {
            (Some(a), Some(b)) => a.0 == b.0,
            _ => false,
        },
    }
}

/// Offset that makes every `i64` count of seconds non-negative and keeps
/// day boundaries in place.
const DAY_SHIFT: i128 = 0x1_0000_0000_0000 * 86_400;

/// Index of the UTC day holding `t`.
pub fn day_index(t: Timestamp) -> (r: i64)
    ensures
        r == t.day(),
        -0x1_0000_0000_0000 < r < 0x1_0000_0000_0000,
{
    let shifted: u128 = (t.secs as i128 + DAY_SHIFT) as u128;
    let q: u128 = shifted / 86_400;
    assert(q as int == t.secs as int / 86_400 + 0x1_0000_0000_0000) by (nonlinear_arith)
        requires
            shifted == t.secs + 0x1_0000_0000_0000 * 86_400,
            shifted >= 0,
            q == shifted / 86_400,
    ;
    assert(-0x1_0000_0000_0000 < t.secs as int / 86_400 < 0x1_0000_0000_0000) by (nonlinear_arith)
        requires
            -0x8000_0000_0000_0000 <= t.secs < 0x8000_0000_0000_0000,
    ;
    (q as i128 - 0x1_0000_0000_0000) as i64
}

/// The instant as nanoseconds since the epoch.
pub fn nanos_since_epoch(t: Timestamp) -> (r: i128)
    ensures
        r == t.total_nanos(),
{
    assert(-0x1_0000_0000_0000_0000_0000_0000 <= t.secs * 1_000_000_000
        <= 0x1_0000_0000_0000_0000_0000_0000) by (nonlinear_arith)
        requires
            -0x1_0000_0000_0000_0000 <= t.secs <= 0x1_0000_0000_0000_0000,
    ;
    t.secs as i128 * NANOS_PER_SEC as i128 + t.nanos as i128
}

/// Whether an analysis for `period` at `now` takes in `t`.
pub fn is_in_period(t: Timestamp, period: Period, now: Timestamp) -> (r: bool)
    ensures
        r == in_period(t, period, now),
{
    match period {
        Period::Day => day_index(t) == day_index(now),
        Period::Week => {
            let day = day_index(now) as i128;
            let shifted: u128 = (day + 3 + 7 * 0x1_0000_0000_0000) as u128;
            let weekday: u128 = shifted % 7;
            assert(weekday == weekday_from_monday(day as int)) by (nonlinear_arith)
                requires
                    shifted == day + 3 + 7 * 0x1_0000_0000_0000,
                    shifted >= 0,
                    weekday == shifted % 7,
            ;
            let monday: i128 = day - weekday as i128;
            assert(-0x1_0000_0000_0000_0000_0000 < monday * 86_400 < 0x1_0000_0000_0000_0000_0000)
                by (nonlinear_arith)
                requires
                    -0x2_0000_0000_0000 < monday < 0x2_0000_0000_0000,
            ;
            monday * SECS_PER_DAY as i128 <= t.secs as i128 && nanos_since_epoch(t)
                <= nanos_since_epoch(now)
        },
        Period::Month => match (year_month_of(t.secs), year_month_of(now.secs)) {
            (Some(a), Some(b)) => a.0 == b.0 && a.1 == b.1,
            _ => false,
        },
        Period::Year => match (year_month_of(t.secs), year_month_of(now.secs)) {
            (Some(a), Some(b)) => a.0 == b.0,
            _ => false,
        },
    }
}

} // verus!
