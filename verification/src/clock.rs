//! Points in time as the segments read them: an instant (seconds since the
//! Unix epoch and the nanoseconds past that second) and, for a local time,
//! the calendar fields of the machine's time zone. Parsing and printing
//! RFC 3339 and the time zone itself are chrono's.
use vstd::prelude::*;
use crate::segment::Weekday;
use chrono::{Datelike, Timelike};

verus! {

/// An instant: seconds since 1970-01-01T00:00:00Z (not counting leap
/// seconds) and nanoseconds past that second; during a leap second the
/// nanoseconds run past 999,999,999.
#[derive(Debug, Clone, Copy, PartialEq, Eq, Structural)]
pub struct Timestamp {
    pub secs: i64,
    pub nanos: u32,
}

/// An instant with the calendar fields it has in the local time zone.
#[derive(Debug, Clone, Copy)]
pub struct LocalTime {
    pub at: Timestamp,
    /// The local date, as days since the start of the Common Era.
    pub days_from_ce: i32,
    pub month: u32,
    pub day: u32,
    pub hour: u32,
    pub minute: u32,
    pub weekday: Weekday,
}

/// Whole seconds from `b` to `a`, as chrono's `(a - b).num_seconds()`:
/// the difference with the leap second counted where one instant lies in
/// it, rounded toward zero.
pub open spec fn seconds_between(a: Timestamp, b: Timestamp) -> int {
    let sa = a.secs % 86400;
    let sb = b.secs % 86400;
    let leap: int = if sa > sb && b.nanos >= 1_000_000_000 {
        1
    } else if sa < sb && a.nanos >= 1_000_000_000 {
        -1
    } else {
        0
    };
    let frac = a.nanos - b.nanos;
    let secs = (a.secs - b.secs) + leap + frac / 1_000_000_000;
    let nanos = frac % 1_000_000_000;
    if secs < 0 && nanos > 0 {
        secs + 1
    } else {
        secs
    }
}

/// Whole minutes from `b` to `a`, as chrono's `(a - b).num_minutes()`
/// (rounded toward zero).
pub open spec fn minutes_between(a: Timestamp, b: Timestamp) -> int {
    let s = seconds_between(a, b);
    if s >= 0 {
        s / 60
    } else {
        -((-s) / 60)
    }
}

/// Seconds past midnight UTC of `secs`.
fn second_of_day(secs: i64) -> (r: i128)
    ensures
        r == secs % 86400,
{
    // 86400 * 106751991167301 exceeds 2^63, so the shifted value is never
    // negative and has the same remainder.
    let shifted: i128 = secs as i128 + 9223372036854806400i128;
    assert(9223372036854806400i128 == 86400 * 106751991167301int);
    shifted % 86400
}

/// Executable `seconds_between`.
pub fn seconds_between_exec(a: Timestamp, b: Timestamp) -> (r: i128)
    ensures
        r == seconds_between(a, b),
        -0x1_0000_0000_0000_0010 <= r <= 0x1_0000_0000_0000_0010,
{
    let sa = second_of_day(a.secs);
    let sb = second_of_day(b.secs);
    let leap: i128 = if sa > sb && b.nanos >= 1_000_000_000 {
        1
    } else if sa < sb && a.nanos >= 1_000_000_000 {
        -1
    } else {
        0
    };
    let frac: i128 = a.nanos as i128 - b.nanos as i128;
    let (q, m): (i128, i128) = if frac >= 0 {
        (frac / 1_000_000_000, frac % 1_000_000_000)
    } else {
        let p: i128 = -frac;
        let pq: i128 = p / 1_000_000_000;
        let pm: i128 = p % 1_000_000_000;
        if pm == 0 {
            (-pq, 0)
        } else {
            (-pq - 1, 1_000_000_000 - pm)
        }
    };
    proof {
        vstd::arithmetic::div_mod::lemma_fundamental_div_mod_converse(
            frac as int,
            1_000_000_000,
            q as int,
            m as int,
        );
    }
    let secs: i128 = (a.secs as i128 - b.secs as i128) + leap + q;
    if secs < 0 && m > 0 {
        secs + 1
    } else {
        secs
    }
}

/// Executable `minutes_between`.
pub fn minutes_between_exec(a: Timestamp, b: Timestamp) -> (r: i128)
    ensures
        r == minutes_between(a, b),
        -0x1_0000_0000_0000_0010 <= r <= 0x1_0000_0000_0000_0010,
{
    let s = seconds_between_exec(a, b);
    if s >= 0 {
        s / 60
    } else {
        -((-s) / 60)
    }
}

/// The instant chrono's `DateTime::parse_from_rfc3339` reads in `text`
/// (seconds since the epoch, nanoseconds), or `None` when it rejects it.
pub uninterp spec fn rfc3339_instant(text: Seq<char>) -> Option<(i64, u32)>;

/// Whether chrono holds `nanos` past second `secs`: below one second, or
/// below two during a leap second (which chrono places on a second ending
/// in :59).
pub open spec fn valid_nanos(secs: i64, nanos: u32) -> bool {
    nanos < 1_000_000_000 || (nanos < 2_000_000_000 && secs % 60 == 59)
}

/// Whether `secs` falls within the instants an RFC 3339 text can name:
/// years 0000 through 9999, shifted by an offset of at most 23:59.
pub open spec fn rfc3339_range(secs: i64) -> bool {
    -62_167_305_600 <= secs <= 253_402_387_199
}

/// chrono's `DateTime::parse_from_rfc3339`, kept as the instant it names.
/// Claimed: the result is the named instant of the text, `None` exactly
/// when chrono rejects the text, the nanoseconds are ones chrono holds
/// (its `timestamp_subsec_nanos` runs past 999,999,999 only in a leap
/// second, and `from_timestamp` takes back any instant it gave), and the
/// instant lies in the range an RFC 3339 text can name (its year has four
/// digits and its offset is below 24 hours).
#[verifier::external_body]
pub(crate) fn parse_rfc3339(text: &str) -> (r: Option<Timestamp>)
    ensures
        match r {
            Some(t) => rfc3339_instant(text@) == Some((t.secs, t.nanos)) && valid_nanos(
                t.secs,
                t.nanos,
            ) && rfc3339_range(t.secs),
            None => rfc3339_instant(text@) is None,
        },
{
    match chrono::DateTime::parse_from_rfc3339(text) {
        Ok(dt) => Some(Timestamp { secs: dt.timestamp(), nanos: dt.timestamp_subsec_nanos() }),
        Err(_) => None,
    }
}

/// chrono's `DateTime::from_timestamp` followed by `with_timezone(&Local)`:
/// the local date (days since the start of the Common Era), month, day,
/// hour, minute and weekday (days after Monday) of `t` in the machine's time
/// zone. Which fields they are depends on that time zone; claimed is what
/// holds in every zone: month and day are the Gregorian month and day of the
/// date (chrono's `NaiveDate`), hour and minute are in range, the weekday
/// follows from the date (day 1, January 1 of year 1, is a Monday;
/// 1970-01-01 is day 719,163), and the local time lies within a day of `t`
/// (chrono's offsets are below 24 hours; the minute cuts off up to 59
/// seconds more).
/// `from_timestamp` gives `None` only for seconds out of its range or
/// nanoseconds it does not hold, so within the range kept here the result
/// is there for valid nanoseconds. chrono
/// panics when the time zone's offset pushes a date past the edge of its
/// range (some 262,000 years from now), so instants are kept within
/// 250,000 years of 1970.
#[verifier::external_body]
fn local_fields(t: Timestamp) -> (r: Option<(i32, u32, u32, u32, u32, u32)>)
    requires
        within_local_range(t),
    ensures
        valid_nanos(t.secs, t.nanos) ==> r is Some,
        r matches Some((d, mo, dy, h, mi, wd)) ==> local_fields_consistent(t, d, mo, dy, h, mi, wd),
{
    let l = chrono::DateTime::from_timestamp(t.secs, t.nanos)?.with_timezone(&chrono::Local);
    Some((
        l.date_naive().num_days_from_ce(),
        l.month(),
        l.day(),
        l.hour(),
        l.minute(),
        l.weekday().num_days_from_monday(),
    ))
}

impl Weekday {
    /// The weekday `n` days after Monday (0 is Monday, 6 is Sunday; larger
    /// values count on round the week).
    pub fn from_days_from_monday(n: u32) -> (r: Weekday)
        ensures
            r == weekday_from_monday(n as nat),
    {
        let k = n % 7;
        if k == 0 {
            Weekday::Mon
        } else if k == 1 {
            Weekday::Tue
        } else if k == 2 {
            Weekday::Wed
        } else if k == 3 {
            Weekday::Thu
        } else if k == 4 {
            Weekday::Fri
        } else if k == 5 {
            Weekday::Sat
        } else {
            Weekday::Sun
        }
    }
}

/// The weekday `n` days after a Monday.
pub open spec fn weekday_from_monday(n: nat) -> Weekday {
    let k = n % 7;
    if k == 0 {
        Weekday::Mon
    } else if k == 1 {
        Weekday::Tue
    } else if k == 2 {
        Weekday::Wed
    } else if k == 3 {
        Weekday::Thu
    } else if k == 4 {
        Weekday::Fri
    } else if k == 5 {
        Weekday::Sat
    } else {
        Weekday::Sun
    }
}

/// The position of a weekday in the week, Monday first (chrono's
/// `num_days_from_monday`).
pub open spec fn days_from_monday(w: Weekday) -> nat {
    match w {
        Weekday::Mon => 0,
        Weekday::Tue => 1,
        Weekday::Wed => 2,
        Weekday::Thu => 3,
        Weekday::Fri => 4,
        Weekday::Sat => 5,
        Weekday::Sun => 6,
    }
}

/// The day after a weekday.
pub open spec fn next_weekday(w: Weekday) -> Weekday {
    match w {
        Weekday::Mon => Weekday::Tue,
        Weekday::Tue => Weekday::Wed,
        Weekday::Wed => Weekday::Thu,
        Weekday::Thu => Weekday::Fri,
        Weekday::Fri => Weekday::Sat,
        Weekday::Sat => Weekday::Sun,
        Weekday::Sun => Weekday::Mon,
    }
}

/// Counting days from a Monday walks the week in order: day 0 is a Monday,
/// each next day is the next weekday, and the weekday `n` days after a
/// Monday sits at position `n % 7` of the week.
pub proof fn lemma_weekdays_in_order(n: nat)
    ensures
        weekday_from_monday(0) == Weekday::Mon,
        weekday_from_monday(n + 1) == next_weekday(weekday_from_monday(n)),
        days_from_monday(weekday_from_monday(n)) == n % 7,
{
    assert((n + 1) % 7 == if n % 7 == 6 { 0 } else { n % 7 + 1 });
}

/// The weekday of a local time is that of its date: January 1 of year 1
/// (day 1) is a Monday, and each day after it the next weekday; so
/// 2025-01-02 (day 739,253) is a Thursday.
pub proof fn lemma_local_weekday(l: LocalTime)
    requires
        local_time_consistent(l),
    ensures
        days_from_monday(l.weekday) == (l.days_from_ce - 1) % 7,
        l.days_from_ce == 739253 ==> l.weekday == Weekday::Thu,
{
    lemma_weekdays_in_order(((l.days_from_ce - 1) % 7) as nat);
}

/// Whether `y` is a leap year of the proleptic Gregorian calendar.
pub open spec fn is_leap_year(y: int) -> bool {
    (y % 4 == 0 && y % 100 != 0) || y % 400 == 0
}

/// The length of month `m` (1 through 12) of year `y`.
pub open spec fn days_in_month(y: int, m: int) -> int {
    if m == 2 {
        if is_leap_year(y) {
            29
        } else {
            28
        }
    } else if m == 4 || m == 6 || m == 9 || m == 11 {
        30
    } else {
        31
    }
}

/// Days of year `y` before the first of month `m` (1 through 12).
pub open spec fn days_before_month(y: int, m: int) -> int {
    let common: int = if m == 1 {
        0
    } else if m == 2 {
        31
    } else if m == 3 {
        59
    } else if m == 4 {
        90
    } else if m == 5 {
        120
    } else if m == 6 {
        151
    } else if m == 7 {
        181
    } else if m == 8 {
        212
    } else if m == 9 {
        243
    } else if m == 10 {
        273
    } else if m == 11 {
        304
    } else {
        334
    };
    if m > 2 && is_leap_year(y) {
        common + 1
    } else {
        common
    }
}

/// The day number of December 31 of year `y - 1`, counting January 1 of
/// year 1 as day 1 (proleptic Gregorian; years before 1 included).
pub open spec fn days_before_year(y: int) -> int {
    365 * (y - 1) + (y - 1) / 4 - (y - 1) / 100 + (y - 1) / 400
}

/// Whether day number `d` (January 1 of year 1 is day 1) falls on day `day`
/// of month `month` in the proleptic Gregorian calendar.
pub open spec fn gregorian_date(d: int, month: int, day: int) -> bool {
    exists|y: int|
        #![trigger days_before_year(y)]
        1 <= month <= 12 && 1 <= day <= days_in_month(y, month) && d == days_before_year(y)
            + days_before_month(y, month) + day
}

/// Each year adds its length: 365 days, 366 in a leap year.
proof fn lemma_year_step(y: int)
    ensures
        days_before_year(y + 1) == days_before_year(y) + if is_leap_year(y) {
            366int
        } else {
            365int
        },
{
    assert((y - 1) / 4 == if y % 4 == 0 { y / 4 - 1 } else { y / 4 });
    assert((y - 1) / 100 == if y % 100 == 0 { y / 100 - 1 } else { y / 100 });
    assert((y - 1) / 400 == if y % 400 == 0 { y / 400 - 1 } else { y / 400 });
}

/// A later year starts at least 365 days per year later.
proof fn lemma_years_apart(a: int, b: int)
    requires
        a <= b,
    ensures
        days_before_year(a) + 365 * (b - a) <= days_before_year(b),
    decreases b - a,
{
    if a < b {
        lemma_years_apart(a, b - 1);
        lemma_year_step(b - 1);
    }
}

/// A valid day of year `y` lies within that year: days 1 through 365
/// (366 in a leap year) after its start.
proof fn lemma_day_of_year_bounds(y: int, month: int, day: int)
    requires
        1 <= month <= 12,
        1 <= day <= days_in_month(y, month),
    ensures
        1 <= days_before_month(y, month) + day <= if is_leap_year(y) {
            366int
        } else {
            365int
        },
{
}

/// Within one year a later month starts after every day of an earlier one.
proof fn lemma_months_apart(y: int, m1: int, day1: int, m2: int)
    requires
        1 <= m1 < m2 <= 12,
        day1 <= days_in_month(y, m1),
    ensures
        days_before_month(y, m1) + day1 < days_before_month(y, m2) + 1,
{
}

/// A day number has one Gregorian month and day: the calendar fields that
/// `gregorian_date` admits for a date are those of that date alone.
pub proof fn lemma_gregorian_date_unique(d: int, m1: int, day1: int, m2: int, day2: int)
    requires
        gregorian_date(d, m1, day1),
        gregorian_date(d, m2, day2),
    ensures
        m1 == m2,
        day1 == day2,
{
    let y1 = choose|y: int|
        #![trigger days_before_year(y)]
        1 <= m1 <= 12 && 1 <= day1 <= days_in_month(y, m1) && d == days_before_year(y)
            + days_before_month(y, m1) + day1;
    let y2 = choose|y: int|
        #![trigger days_before_year(y)]
        1 <= m2 <= 12 && 1 <= day2 <= days_in_month(y, m2) && d == days_before_year(y)
            + days_before_month(y, m2) + day2;
    lemma_day_of_year_bounds(y1, m1, day1);
    lemma_day_of_year_bounds(y2, m2, day2);
    if y1 < y2 {
        lemma_year_step(y1);
        lemma_years_apart(y1 + 1, y2);
    } else if y2 < y1 {
        lemma_year_step(y2);
        lemma_years_apart(y2 + 1, y1);
    }
    assert(y1 == y2);
    if m1 < m2 {
        lemma_months_apart(y1, m1, day1, m2);
    } else if m2 < m1 {
        lemma_months_apart(y1, m2, day2, m1);
    }
}

/// Whether the local calendar fields `d` (days since the start of the Common
/// Era), `mo`, `dy`, `h`, `mi` and `wd` (days after Monday) can be those of
/// instant `t` in some time zone: each is in range, the weekday is the one
/// of the date, and the local time is within a day of `t`.
pub open spec fn local_fields_consistent(
    t: Timestamp,
    d: i32,
    mo: u32,
    dy: u32,
    h: u32,
    mi: u32,
    wd: u32,
) -> bool {
    &&& gregorian_date(d as int, mo as int, dy as int)
    &&& h < 24
    &&& mi < 60
    &&& wd == (d - 1) % 7
    &&& -86460 < (d - 719163) * 86400 + h * 3600 + mi * 60 - t.secs < 86460
}

/// Whether the time-zone-dependent fields of `l` are ones some time zone
/// gives its instant.
pub open spec fn local_time_consistent(l: LocalTime) -> bool {
    &&& gregorian_date(l.days_from_ce as int, l.month as int, l.day as int)
    &&& l.hour < 24
    &&& l.minute < 60
    &&& l.weekday == weekday_from_monday(((l.days_from_ce - 1) % 7) as nat)
    &&& -86460 < (l.days_from_ce - 719163) * 86400 + l.hour * 3600 + l.minute * 60 - l.at.secs
        < 86460
}

/// Whether `t` lies within 250,000 years (7.9e12 seconds) of 1970, where
/// local calendar fields are always defined.
pub open spec fn within_local_range(t: Timestamp) -> bool {
    -7_900_000_000_000 <= t.secs <= 7_900_000_000_000
}

impl LocalTime {
    /// The instant `t` in the machine's time zone; `None` only when its
    /// nanoseconds are not ones chrono holds.
    pub fn at_instant(t: Timestamp) -> (r: Option<LocalTime>)
        requires
            within_local_range(t),
        ensures
            r matches Some(l) ==> l.at == t && local_time_consistent(l),
            valid_nanos(t.secs, t.nanos) ==> r is Some,
    {
        match local_fields(t) {
            Some((days_from_ce, month, day, hour, minute, from_monday)) => Some(
                LocalTime {
                    at: t,
                    days_from_ce,
                    month,
                    day,
                    hour,
                    minute,
                    weekday: Weekday::from_days_from_monday(from_monday),
                },
            ),
            None => None,
        }
    }
}

} // verus!
