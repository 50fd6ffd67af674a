//! Calendar dates at the granularity the ledger needs.
use vstd::prelude::*;
use chrono::Datelike;

verus! {

/// A day of the proleptic Gregorian calendar, held as plain numbers.
#[derive(Clone, Copy, Debug, PartialEq, Eq, Structural)]
pub struct CalendarDate {
    pub year: i32,
    pub month: u32,
    pub day: u32,
}

impl CalendarDate {
    /// Month and day lie in their calendar ranges.
    pub open spec fn wf(self) -> bool {
        1 <= self.month <= 12 && 1 <= self.day <= 31
    }

    /// Month index counted from year zero; orders dates by month.
    pub open spec fn month_index(self) -> int {
        self.year as int * 12 + self.month as int - 1
    }

    /// `self` falls on or before `other`, comparing year, month and day.
    pub open spec fn on_or_before(self, other: CalendarDate) -> bool {
        self.year < other.year || (self.year == other.year && (self.month < other.month || (
        self.month == other.month && self.day <= other.day)))
    }

    /// The first day of the month `self` lies in.
    pub open spec fn month_start(self) -> CalendarDate {
        CalendarDate { year: self.year, month: self.month, day: 1 }
    }

    /// Whether month and day lie in their calendar ranges.
    pub fn is_valid(&self) -> (r: bool)
        ensures
            r == self.wf(),
    {
        1 <= self.month && self.month <= 12 && 1 <= self.day && self.day <= 31
    }

    /// Builds a date from its parts.
    pub fn new(year: i32, month: u32, day: u32) -> (r: CalendarDate)
        ensures
            r == (CalendarDate { year, month, day }),
    {
        CalendarDate { year, month, day }
    }

    /// Whether `self` falls on or before `other`.
    pub fn is_on_or_before(&self, other: &CalendarDate) -> (r: bool)
        ensures
            r == self.on_or_before(*other),
    {
        self.year < other.year || (self.year == other.year && (self.month < other.month || (
        self.month == other.month && self.day <= other.day)))
    }

    /// The first day of the month this date lies in.
    pub fn first_of_month(&self) -> (r: CalendarDate)
        ensures
            r == self.month_start(),
    {
        CalendarDate { year: self.year, month: self.month, day: 1 }
    }
}

/// The first day of the month before the one `date` lies in.
pub open spec fn previous_month_start(date: CalendarDate) -> CalendarDate {
    if date.month == 1 {
        CalendarDate { year: (date.year - 1) as i32, month: 12, day: 1 }
    } else {
        CalendarDate { year: date.year, month: (date.month - 1) as u32, day: 1 }
    }
}

/// The first day of the previous month.
pub fn get_last_month(date: CalendarDate) -> (r: CalendarDate)
    requires
        date.wf(),
        date.year > i32::MIN,
    ensures
        r == previous_month_start(date),
        r.wf(),
        r.month_index() == date.month_index() - 1,
{
    if date.month == 1 {
        CalendarDate { year: date.year - 1, month: 12, day: 1 }
    } else {
        CalendarDate { year: date.year, month: date.month - 1, day: 1 }
    }
}

/// Relies on std's `SystemTime::now` and `duration_since(UNIX_EPOCH)`: the
/// whole seconds since the Unix epoch, or `None` when the clock reads before
/// it.
#[verifier::external_body]
fn seconds_since_epoch() -> (r: Option<u64>) {
    match std::time::SystemTime::now().duration_since(std::time::UNIX_EPOCH) {
        Ok(d) => Some(d.as_secs()),
        Err(_) => None,
    }
}

/// What chrono's `DateTime::from_timestamp` (with no nanoseconds) gives as
/// the UTC date (year, month, day) of a Unix time, or `None` out of range.
pub uninterp spec fn utc_date_of(secs: int) -> Option<(int, int, int)>;

/// Relies on chrono's `DateTime::from_timestamp` with `date_naive` and
/// `Datelike::{year, month, day}`: the UTC date of a Unix time, `None` out of
/// chrono's range; a date's month lies in 1..=12, its day in 1..=31, and its
/// year between chrono's `MIN_YEAR` and `MAX_YEAR`.
#[verifier::external_body]
fn utc_date(secs: i64) -> (r: Option<CalendarDate>)
    ensures
        r matches Some(d) ==> d.wf() && -262_143 <= d.year <= 262_142,
        r matches Some(d) ==> utc_date_of(secs as int) == Some(
            (d.year as int, d.month as int, d.day as int),
        ),
        r is None ==> utc_date_of(secs as int) is None,
{
    match chrono::DateTime::from_timestamp(secs, 0) {
        Some(t) => {
            let d = t.date_naive();
            Some(CalendarDate { year: d.year(), month: d.month(), day: d.day() })
        },
        None => None,
    }
}

/// The first day of the UTC month a Unix time (in whole seconds) falls in,
/// or `None` beyond the range of dates.
pub open spec fn month_start_of(secs: int) -> Option<CalendarDate> {
    if secs > i64::MAX {
        None
    } else {
        match utc_date_of(secs) {
            Some(p) => Some(CalendarDate { year: p.0 as i32, month: p.1 as u32, day: 1 }),
            None => None,
        }
    }
}

/// The first day of the UTC month a Unix time falls in.
pub fn month_of_unix_seconds(secs: u64) -> (r: Option<CalendarDate>)
    ensures
        r == month_start_of(secs as int),
        r matches Some(d) ==> d.wf() && d.day == 1 && -262_143 <= d.year <= 262_142,
{
    if secs > i64::MAX as u64 {
        return None;
    }
    match utc_date(secs as i64) {
        Some(d) => Some(d.first_of_month()),
        None => None,
    }
}

/// The first day of the current UTC month, read from the system clock;
/// `None` when the clock reads before 1970 or beyond the range of dates.
pub fn current_month() -> (r: Option<CalendarDate>)
    ensures
        r matches Some(d) ==> d.wf() && d.day == 1 && -262_143 <= d.year <= 262_142,
{
    match seconds_since_epoch() {
        Some(secs) => month_of_unix_seconds(secs),
        None => None,
    }
}

/// What chrono's `NaiveDate::parse_from_str` reads from a string in the form
/// `%Y-%m-%d %H:%M:%S` (year, month, day), or `None` where it fails.
pub uninterp spec fn parsed_date_time(s: Seq<char>) -> Option<(int, int, int)>;

/// Relies on chrono's `NaiveDate::parse_from_str` with the format
/// `%Y-%m-%d %H:%M:%S`, which keeps the date and drops the time; a parsed
/// date has its month in 1..=12, its day in 1..=31, and its year between
/// chrono's `MIN_YEAR` and `MAX_YEAR`.
#[verifier::external_body]
fn parse_date_time(s: &str) -> (r: Option<CalendarDate>)
    ensures
        r matches Some(d) ==> d.wf() && -262_143 <= d.year <= 262_142,
        r matches Some(d) ==> parsed_date_time(s@) == Some(
            (d.year as int, d.month as int, d.day as int),
        ),
        r is None ==> parsed_date_time(s@) is None,
{
    match chrono::NaiveDate::parse_from_str(s, "%Y-%m-%d %H:%M:%S") {
        Ok(d) => Some(CalendarDate { year: d.year(), month: d.month(), day: d.day() }),
        Err(_) => None,
    }
}

/// A contract deadline given as `%Y-%m-%d %H:%M:%S`, truncated to the first
/// day of its month; `None` where the text is not such a date.
pub fn contract_end_month(deadline: &str) -> (r: Option<CalendarDate>)
    ensures
        r is Some <==> parsed_date_time(deadline@) is Some,
        r matches Some(d) ==> d.wf() && d.day == 1 && (parsed_date_time(deadline@) matches Some(
            p,
        ) && p.0 == d.year && p.1 == d.month),
{
    match parse_date_time(deadline) {
        Some(d) => Some(d.first_of_month()),
        None => None,
    }
}

} // verus!
