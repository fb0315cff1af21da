//! Calendar dates, times of day, and inclusive date ranges.
use vstd::prelude::*;
use vstd::string::StrSliceExecFns;
use crate::text::{count_char, find_char, first_index_of, lemma_no_occurrences, occurrences};

verus! {

/// The format of a calendar date: day, abbreviated month name, four-digit year.
pub const DATE_FORMAT: &'static str = "%d/%b/%Y";

/// The format of a time of day: hours, minutes, seconds.
pub const TIME_FORMAT: &'static str = "%H:%M:%S";

/// What chrono's `NaiveDate::parse_from_str` yields for a text and a format:
/// the year, month and day of the date it reads, or nothing if it rejects the text.
pub uninterp spec fn chrono_date(s: Seq<char>, fmt: Seq<char>) -> Option<(int, int, int)>;

/// What chrono's `NaiveTime::parse_from_str` yields for a text and a format:
/// the hour, minute and second of the time it reads, or nothing if it rejects the text.
pub uninterp spec fn chrono_time(s: Seq<char>, fmt: Seq<char>) -> Option<(int, int, int)>;

/// A calendar date without a time of day.
#[derive(Clone, Copy, Debug, PartialEq, Eq, Structural)]
pub struct CalendarDate {
    pub year: i32,
    pub month: u32,
    pub day: u32,
}

/// A time of day, to the second.
#[derive(Clone, Copy, Debug, PartialEq, Eq, Structural)]
pub struct TimeOfDay {
    pub hour: u32,
    pub minute: u32,
    pub second: u32,
}

impl CalendarDate {
    pub open spec fn triple(self) -> (int, int, int) {
        (self.year as int, self.month as int, self.day as int)
    }

    /// Chronological order: by year, then month, then day.
    pub open spec fn spec_le(self, other: CalendarDate) -> bool {
        ||| self.year < other.year
        ||| self.year == other.year && self.month < other.month
        ||| self.year == other.year && self.month == other.month && self.day <= other.day
    }

    /// True when `self` falls on or before `other`.
    pub fn on_or_before(&self, other: &CalendarDate) -> (r: bool)
        ensures
            r == self.spec_le(*other),
    {
        self.year < other.year || (self.year == other.year && self.month < other.month) || (
        self.year == other.year && self.month == other.month && self.day <= other.day)
    }
}

impl TimeOfDay {
    pub open spec fn triple(self) -> (int, int, int) {
        (self.hour as int, self.minute as int, self.second as int)
    }
}

/// The date that `s` denotes in the fixed date format, if any.
pub open spec fn parsed_date(s: Seq<char>) -> Option<(int, int, int)> {
    chrono_date(s, DATE_FORMAT@)
}

/// The time of day that `s` denotes in the fixed time format, if any.
pub open spec fn parsed_time(s: Seq<char>) -> Option<(int, int, int)> {
    chrono_time(s, TIME_FORMAT@)
}

/// Relies on chrono's `NaiveDate::parse_from_str` to read a date in format `fmt`,
/// and on `Datelike::{year, month, day}` (month 1 to 12, day 1 to 31) to take it apart.
#[verifier::external_body]
fn chrono_parse_date(s: &str, fmt: &str) -> (r: Option<CalendarDate>)
    ensures
        match r {
            Some(d) => chrono_date(s@, fmt@) == Some(d.triple()) && 1 <= d.month <= 12 && 1
                <= d.day <= 31,
            None => chrono_date(s@, fmt@) is None,
        },
{
    match chrono::NaiveDate::parse_from_str(s, fmt) {
        Ok(d) => Some(
            CalendarDate {
                year: chrono::Datelike::year(&d),
                month: chrono::Datelike::month(&d),
                day: chrono::Datelike::day(&d),
            },
        ),
        Err(_) => None,
    }
}

/// Relies on chrono's `NaiveTime::parse_from_str` to read a time in format `fmt`,
/// and on `Timelike::{hour, minute, second}` (0 to 23, 0 to 59, 0 to 59) to take it apart.
#[verifier::external_body]
fn chrono_parse_time(s: &str, fmt: &str) -> (r: Option<TimeOfDay>)
    ensures
        match r {
            Some(t) => chrono_time(s@, fmt@) == Some(t.triple()) && t.hour < 24 && t.minute < 60
                && t.second < 60,
            None => chrono_time(s@, fmt@) is None,
        },
{
    match chrono::NaiveTime::parse_from_str(s, fmt) {
        Ok(t) => Some(
            TimeOfDay {
                hour: chrono::Timelike::hour(&t),
                minute: chrono::Timelike::minute(&t),
                second: chrono::Timelike::second(&t),
            },
        ),
        Err(_) => None,
    }
}

/// Reads a calendar date written as `DD/Mon/YYYY`.
pub fn parse_date(s: &str) -> (r: Option<CalendarDate>)
    ensures
        match r {
            Some(d) => parsed_date(s@) == Some(d.triple()),
            None => parsed_date(s@) is None,
        },
{
    chrono_parse_date(s, DATE_FORMAT)
}

/// Reads a time of day written as `HH:MM:SS`.
pub fn parse_time(s: &str) -> (r: Option<TimeOfDay>)
    ensures
        match r {
            Some(t) => parsed_time(s@) == Some(t.triple()),
            None => parsed_time(s@) is None,
        },
{
    chrono_parse_time(s, TIME_FORMAT)
}

/// Why a date range could not be read.
#[derive(Clone, Debug, PartialEq, Eq)]
pub enum DateRangeError {
    /// The text does not split into exactly two dates at `-`.
    InvalidRangeArity,
    /// This segment is not a date in the fixed date format.
    DateParse(String),
}

/// The two `-`-separated segments of `s`, when it splits into exactly two.
pub open spec fn range_segments(s: Seq<char>) -> Option<(Seq<char>, Seq<char>)> {
    if occurrences(s, '-') == 1 {
        let i = first_index_of(s, '-')->0;
        Some((s.subrange(0, i), s.subrange(i + 1, s.len() as int)))
    } else {
        None
    }
}

/// `r` is what reading `s` as a date range yields: the two dates when `s` splits
/// into two segments that are both dates, `InvalidRangeArity` when it does not
/// split into two, and otherwise `DateParse` with the first segment that is no date.
pub open spec fn range_parse_outcome(s: Seq<char>, r: Result<DateRange, DateRangeError>) -> bool {
    match r {
        Ok(range) => {
            &&& range_segments(s) is Some
            &&& {
                let (first, second) = range_segments(s)->0;
                &&& parsed_date(first) == Some(range.start().triple())
                &&& parsed_date(second) == Some(range.end().triple())
            }
        },
        Err(DateRangeError::InvalidRangeArity) => range_segments(s) is None,
        Err(DateRangeError::DateParse(segment)) => {
            &&& range_segments(s) is Some
            &&& {
                let (first, second) = range_segments(s)->0;
                ||| parsed_date(first) is None && segment@ == first
                ||| parsed_date(first) is Some && parsed_date(second) is None && segment@
                    == second
            }
        },
    }
}

/// An inclusive interval of calendar dates. Its start may lie after its end,
/// in which case it holds no date at all.
#[derive(Clone, Copy, Debug)]
pub struct DateRange {
    start_date: CalendarDate,
    end_date: CalendarDate,
}

impl DateRange {
    pub closed spec fn start(self) -> CalendarDate {
        self.start_date
    }

    pub closed spec fn end(self) -> CalendarDate {
        self.end_date
    }

    /// `d` lies within the range, both ends included.
    pub open spec fn holds(self, d: CalendarDate) -> bool {
        self.start().spec_le(d) && d.spec_le(self.end())
    }

    /// The range from `start_date` to `end_date`, both included.
    pub fn new(start_date: CalendarDate, end_date: CalendarDate) -> (r: DateRange)
        ensures
            r.start() == start_date,
            r.end() == end_date,
    {
        DateRange { start_date, end_date }
    }

    pub fn start_date(&self) -> (r: CalendarDate)
        ensures
            r == self.start(),
    {
        self.start_date
    }

    pub fn end_date(&self) -> (r: CalendarDate)
        ensures
            r == self.end(),
    {
        self.end_date
    }

    /// True when `d` lies within the range, both ends included.
    pub fn contains(&self, d: &CalendarDate) -> (r: bool)
        ensures
            r == self.holds(*d),
    {
        self.start_date.on_or_before(d) && d.on_or_before(&self.end_date)
    }

    /// Reads a range written `DD/Mon/YYYY-DD/Mon/YYYY`. The order of the two dates
    /// is not checked.
    pub fn parse_date_range(date: String) -> (r: Result<DateRange, DateRangeError>)
        ensures
            range_parse_outcome(date@, r),
    {
        let s = date.as_str();
        let n = s.unicode_len();
        if count_char(s, '-') != 1 {
            return Err(DateRangeError::InvalidRangeArity);
        }
        let i = match find_char(s, '-', 0) {
            Some(i) => i,
            None => {
                proof {
                    assert(s@.subrange(0, s@.len() as int) =~= s@);
                    lemma_no_occurrences(s@, '-');
                }
                return Err(DateRangeError::InvalidRangeArity);
            },
        };
        assert(s@.subrange(0, s@.len() as int) =~= s@);
        let first = s.substring_char(0, i);
        let second = s.substring_char(i + 1, n);
        let start_date = match parse_date(first) {
            Some(d) => d,
            None => {
                return Err(DateRangeError::DateParse(first.to_owned()));
            },
        };
        let end_date = match parse_date(second) {
            Some(d) => d,
            None => {
                return Err(DateRangeError::DateParse(second.to_owned()));
            },
        };
        Ok(DateRange { start_date, end_date })
    }
}

/// A range whose end comes before its start holds no date.
pub proof fn lemma_reversed_range_is_empty(range: DateRange, d: CalendarDate)
    requires
        !range.start().spec_le(range.end()),
    ensures
        !range.holds(d),
{
}

/// Both ends of a range belong to it, and a date before its start or after its
/// end does not.
pub proof fn lemma_range_ends_inclusive(range: DateRange, d: CalendarDate)
    requires
        range.start().spec_le(range.end()),
    ensures
        range.holds(range.start()),
        range.holds(range.end()),
        d.spec_le(range.start()) && d != range.start() ==> !range.holds(d),
        range.end().spec_le(d) && d != range.end() ==> !range.holds(d),
{
}

} // verus!
