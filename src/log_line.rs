//! One access-log line: its timestamp taken out, the rest kept for matching.
use vstd::prelude::*;
use vstd::string::{StrSliceExecFns, StringExecFns};
use crate::date::{parse_date, parse_time, parsed_date, parsed_time, CalendarDate, DateRange, TimeOfDay};
use crate::text::{find_char, first_index_of};

verus! {

/// Width of the time-zone suffix at the end of a timestamp (a space and a
/// five-character offset), which is not read.
pub const TIMEZONE_LEN: usize = 6;

/// Whether regex's `Regex::new` accepts `p` as a pattern.
pub uninterp spec fn regex_valid(p: Seq<char>) -> bool;

/// Whether the regex compiled from `p` finds a match anywhere in `t` (`Regex::is_match`).
pub uninterp spec fn regex_finds(p: Seq<char>, t: Seq<char>) -> bool;

/// Relies on regex's `Regex::new` to compile `pattern` (an error exactly when the
/// pattern is rejected) and on `Regex::is_match` to search `target` with it.
#[verifier::external_body]
fn regex_search(pattern: &str, target: &str) -> (r: Option<bool>)
    ensures
        match r {
            Some(found) => regex_valid(pattern@) && found == regex_finds(pattern@, target@),
            None => !regex_valid(pattern@),
        },
{
    match regex::Regex::new(pattern) {
        Ok(re) => Some(re.is_match(target)),
        Err(_) => None,
    }
}

/// Why a line could not be read as a log line.
#[derive(Clone, Copy, Debug, PartialEq, Eq, Structural)]
pub enum LogLineError {
    /// The line holds no `[`.
    MissingTimestampStart,
    /// No `]` follows the first `[`.
    MissingTimestampEnd,
    /// The bracketed text is not `DD/Mon/YYYY:HH:MM:SS` followed by the time-zone suffix.
    TimestampFormat,
}

/// The pattern could not be compiled.
#[derive(Clone, Copy, Debug, PartialEq, Eq, Structural)]
pub struct PatternError {}

/// A log line in the abstract: the text left once the timestamp is cut out, and
/// the timestamp's (year, month, day) and (hour, minute, second).
pub type LineFields = (Seq<char>, (int, int, int), (int, int, int));

/// What reading `raw` as a log line yields: the text left once the bracketed
/// timestamp is cut out, with the timestamp's date and time; or why it fails.
pub open spec fn line_model(raw: Seq<char>) -> Result<LineFields, LogLineError> {
    match first_index_of(raw, '[') {
        None => Err(LogLineError::MissingTimestampStart),
        Some(open) => match first_index_of(raw.subrange(open + 1, raw.len() as int), ']') {
            None => Err(LogLineError::MissingTimestampEnd),
            Some(width) => {
                if width < TIMEZONE_LEN {
                    Err(LogLineError::TimestampFormat)
                } else {
                    let stamp = raw.subrange(open + 1, open + 1 + width - TIMEZONE_LEN);
                    let target = raw.subrange(0, open) + raw.subrange(
                        open + width + 2,
                        raw.len() as int,
                    );
                    match first_index_of(stamp, ':') {
                        None => Err(LogLineError::TimestampFormat),
                        Some(colon) => match (
                            parsed_date(stamp.subrange(0, colon)),
                            parsed_time(stamp.subrange(colon + 1, stamp.len() as int)),
                        ) {
                            (Some(d), Some(t)) => Ok((target, d, t)),
                            _ => Err(LogLineError::TimestampFormat),
                        },
                    }
                }
            },
        },
    }
}

/// A log line, read.
#[derive(Clone, Debug)]
pub struct LiveGrepLine {
    line: String,
    pattern_target: String,
    date: CalendarDate,
    time: TimeOfDay,
}

impl LiveGrepLine {
    /// The line as it was read.
    pub closed spec fn raw_view(self) -> Seq<char> {
        self.line@
    }

    /// The line without its bracketed timestamp.
    pub closed spec fn target_view(self) -> Seq<char> {
        self.pattern_target@
    }

    pub closed spec fn date_view(self) -> CalendarDate {
        self.date
    }

    pub closed spec fn time_view(self) -> TimeOfDay {
        self.time
    }

    /// Reads `raw` as a log line whose timestamp is `[DD/Mon/YYYY:HH:MM:SS +ZZZZ]`.
    pub fn parse_from_str(raw: &str) -> (r: Result<LiveGrepLine, LogLineError>)
        ensures
            match r {
                Ok(l) => {
                    &&& l.raw_view() == raw@
                    &&& line_model(raw@) == Ok::<LineFields, LogLineError>(
                        (l.target_view(), l.date_view().triple(), l.time_view().triple()),
                    )
                },
                Err(e) => line_model(raw@) == Err::<LineFields, LogLineError>(e),
            },
    {
        let n = raw.unicode_len();
        assert(raw@.subrange(0, n as int) =~= raw@);
        let open = match find_char(raw, '[', 0) {
            Some(i) => i,
            None => {
                return Err(LogLineError::MissingTimestampStart);
            },
        };
        let close = match find_char(raw, ']', open + 1) {
            Some(k) => k,
            None => {
                return Err(LogLineError::MissingTimestampEnd);
            },
        };
        if close - (open + 1) < TIMEZONE_LEN {
            return Err(LogLineError::TimestampFormat);
        }
        let stamp = raw.substring_char(open + 1, close - TIMEZONE_LEN);
        let stamp_len = stamp.unicode_len();
        assert(stamp@.subrange(0, stamp_len as int) =~= stamp@);
        let colon = match find_char(stamp, ':', 0) {
            Some(c) => c,
            None => {
                return Err(LogLineError::TimestampFormat);
            },
        };
        let date = match parse_date(stamp.substring_char(0, colon)) {
            Some(d) => d,
            None => {
                return Err(LogLineError::TimestampFormat);
            },
        };
        let time = match parse_time(stamp.substring_char(colon + 1, stamp_len)) {
            Some(t) => t,
            None => {
                return Err(LogLineError::TimestampFormat);
            },
        };
        let pattern_target = String::from_str(raw.substring_char(0, open)).concat(
            raw.substring_char(close + 1, n),
        );
        Ok(LiveGrepLine { line: String::from_str(raw), pattern_target, date, time })
    }

    /// The line as it was read.
    pub fn raw(&self) -> (r: &str)
        ensures
            r@ == self.raw_view(),
    {
        self.line.as_str()
    }

    /// The line without its bracketed timestamp: what a pattern is matched against.
    pub fn pattern_target(&self) -> (r: &str)
        ensures
            r@ == self.target_view(),
    {
        self.pattern_target.as_str()
    }

    pub fn date(&self) -> (r: CalendarDate)
        ensures
            r == self.date_view(),
    {
        self.date
    }

    pub fn time(&self) -> (r: TimeOfDay)
        ensures
            r == self.time_view(),
    {
        self.time
    }

    /// Whether `regex` matches the line with its timestamp cut out; the timestamp
    /// itself is never searched.
    pub fn line_matches(&self, regex: &str) -> (r: Result<bool, PatternError>)
        ensures
            match r {
                Ok(found) => regex_valid(regex@) && found == regex_finds(regex@, self.target_view()),
                Err(_) => !regex_valid(regex@),
            },
    {
        match regex_search(regex, self.pattern_target.as_str()) {
            Some(found) => Ok(found),
            None => Err(PatternError {  }),
        }
    }

    /// Whether the line's date lies within `date_range`, both ends included.
    pub fn contains_date(&self, date_range: &DateRange) -> (r: bool)
        ensures
            r == date_range.holds(self.date_view()),
    {
        date_range.contains(&self.date)
    }
}

} // verus!
