//! Scanning the lines of a tree of log files for those that match a pattern
//! and fall within a date range.
use vstd::prelude::*;
use crate::date::{lemma_reversed_range_is_empty, CalendarDate, DateRange};
use crate::log_line::{line_model, regex_finds, regex_valid, LiveGrepLine, LogLineError};

verus! {

/// Why a scan failed. Any failure ends the whole scan, and no line is returned.
#[derive(Clone, Debug, PartialEq, Eq)]
pub enum ScanError {
    /// A line is not a well-formed log line.
    LogLine(LogLineError),
    /// The pattern could not be compiled.
    Pattern,
    /// A file or directory could not be read; the message says why.
    Io(String),
}

/// The contents of one file as read: its lines in order, and, if reading stopped
/// early, why. A failure that comes after some lines stands after them.
#[derive(Clone, Debug)]
pub struct LogFile {
    pub lines: Vec<String>,
    pub read_error: Option<String>,
}

/// A query: a pattern and an inclusive date range.
#[derive(Clone, Debug)]
pub struct LiveGrep {
    pub regex: String,
    pub date_range: DateRange,
}

/// The date with the given (year, month, day).
pub open spec fn date_of(t: (int, int, int)) -> CalendarDate {
    CalendarDate { year: t.0 as i32, month: t.1 as u32, day: t.2 as u32 }
}

/// Whether the line `raw` is kept by a scan for `regex` within `range`: it is, when
/// `regex` matches it with its timestamp cut out and its date lies within `range`.
pub open spec fn line_outcome(regex: Seq<char>, range: DateRange, raw: Seq<char>) -> Result<
    bool,
    ScanError,
> {
    match line_model(raw) {
        Err(e) => Err(ScanError::LogLine(e)),
        Ok(fields) => {
            if !regex_valid(regex) {
                Err(ScanError::Pattern)
            } else {
                Ok(regex_finds(regex, fields.0) && range.holds(date_of(fields.1)))
            }
        },
    }
}

/// The lines of `lines` that a scan keeps, in order, or the failure at the first
/// line that cannot be judged.
pub open spec fn scan_lines_spec(regex: Seq<char>, range: DateRange, lines: Seq<String>) -> Result<
    Seq<String>,
    ScanError,
>
    decreases lines.len(),
{
    if lines.len() == 0 {
        Ok(Seq::empty())
    } else {
        match scan_lines_spec(regex, range, lines.drop_last()) {
            Err(e) => Err(e),
            Ok(kept) => match line_outcome(regex, range, lines.last()@) {
                Err(e) => Err(e),
                Ok(keep) => Ok(
                    if keep {
                        kept.push(lines.last())
                    } else {
                        kept
                    },
                ),
            },
        }
    }
}

/// What a scan of one file yields: its kept lines, unless a line cannot be judged
/// or the file could not be read to its end.
pub open spec fn scan_file_spec(regex: Seq<char>, range: DateRange, file: LogFile) -> Result<
    Seq<String>,
    ScanError,
> {
    match scan_lines_spec(regex, range, file.lines@) {
        Err(e) => Err(e),
        Ok(kept) => match file.read_error {
            Some(m) => Err(ScanError::Io(m)),
            None => Ok(kept),
        },
    }
}

/// What a scan of a sequence of files yields: the kept lines of all of them, in
/// order, or the first failure met.
pub open spec fn scan_files_spec(regex: Seq<char>, range: DateRange, files: Seq<LogFile>) -> Result<
    Seq<String>,
    ScanError,
>
    decreases files.len(),
{
    if files.len() == 0 {
        Ok(Seq::empty())
    } else {
        match scan_files_spec(regex, range, files.drop_last()) {
            Err(e) => Err(e),
            Ok(kept) => match scan_file_spec(regex, range, files.last()) {
                Err(e) => Err(e),
                Ok(more) => Ok(kept + more),
            },
        }
    }
}

/// The view of a scan's result.
pub open spec fn result_view(r: Result<Vec<String>, ScanError>) -> Result<Seq<String>, ScanError> {
    match r {
        Ok(v) => Ok(v@),
        Err(e) => Err(e),
    }
}

/// A failure on a prefix of the lines is the failure of the whole.
pub proof fn lemma_lines_failure_persists(
    regex: Seq<char>,
    range: DateRange,
    lines: Seq<String>,
    k: int,
)
    requires
        0 <= k <= lines.len(),
        scan_lines_spec(regex, range, lines.subrange(0, k)) is Err,
    ensures
        scan_lines_spec(regex, range, lines) == scan_lines_spec(regex, range, lines.subrange(0, k)),
    decreases lines.len() - k,
{
    if k == lines.len() {
        assert(lines.subrange(0, k) =~= lines);
    } else {
        assert(lines.drop_last().subrange(0, k) =~= lines.subrange(0, k));
        lemma_lines_failure_persists(regex, range, lines.drop_last(), k);
    }
}

/// A failure on a prefix of the files is the failure of the whole.
pub proof fn lemma_files_failure_persists(
    regex: Seq<char>,
    range: DateRange,
    files: Seq<LogFile>,
    k: int,
)
    requires
        0 <= k <= files.len(),
        scan_files_spec(regex, range, files.subrange(0, k)) is Err,
    ensures
        scan_files_spec(regex, range, files) == scan_files_spec(regex, range, files.subrange(0, k)),
    decreases files.len() - k,
{
    if k == files.len() {
        assert(files.subrange(0, k) =~= files);
    } else {
        assert(files.drop_last().subrange(0, k) =~= files.subrange(0, k));
        lemma_files_failure_persists(regex, range, files.drop_last(), k);
    }
}

impl LiveGrep {
    /// Whether a line whose pattern search gave `found` is kept: it is, when the
    /// pattern was found and the line's date lies within the range.
    pub fn retains(&self, line: &LiveGrepLine, found: bool) -> (r: bool)
        ensures
            r == (found && self.date_range.holds(line.date_view())),
    {
        found && line.contains_date(&self.date_range)
    }

    /// Scans the lines of one file, in order. The first line that is not a
    /// well-formed log line, or a failure to read the file, fails the scan.
    pub fn scan_file(&self, file: &LogFile) -> (r: Result<Vec<String>, ScanError>)
        ensures
            result_view(r) == scan_file_spec(self.regex@, self.date_range, *file),
    {
        let mut kept: Vec<String> = Vec::new();
        let mut i: usize = 0;
        while i < file.lines.len()
            invariant
                i <= file.lines@.len(),
                scan_lines_spec(self.regex@, self.date_range, file.lines@.subrange(0, i as int))
                    == Ok::<Seq<String>, ScanError>(kept@),
            decreases file.lines@.len() - i,
        {
            let ghost seen = file.lines@.subrange(0, i + 1);
            assert(seen.drop_last() =~= file.lines@.subrange(0, i as int));
            let raw = &file.lines[i];
            let line = match LiveGrepLine::parse_from_str(raw.as_str()) {
                Ok(l) => l,
                Err(e) => {
                    proof {
                        lemma_lines_failure_persists(
                            self.regex@,
                            self.date_range,
                            file.lines@,
                            i + 1,
                        );
                    }
                    return Err(ScanError::LogLine(e));
                },
            };
            assert(line.date_view() == date_of(line.date_view().triple()));
            let found = match line.line_matches(self.regex.as_str()) {
                Ok(found) => found,
                Err(_) => {
                    proof {
                        lemma_lines_failure_persists(
                            self.regex@,
                            self.date_range,
                            file.lines@,
                            i + 1,
                        );
                    }
                    return Err(ScanError::Pattern);
                },
            };
            if self.retains(&line, found) {
                kept.push(raw.clone());
            }
            i = i + 1;
        }
        assert(file.lines@.subrange(0, file.lines@.len() as int) =~= file.lines@);
        match &file.read_error {
            Some(m) => Err(ScanError::Io(m.clone())),
            None => Ok(kept),
        }
    }

    /// Scans a sequence of files, as met in a depth-first walk of a directory
    /// tree, and gathers their kept lines in order. Any failure fails the whole
    /// scan, and the lines gathered so far are dropped.
    pub fn scan_files(&self, files: &Vec<LogFile>) -> (r: Result<Vec<String>, ScanError>)
        ensures
            result_view(r) == scan_files_spec(self.regex@, self.date_range, files@),
    {
        let mut result: Vec<String> = Vec::new();
        let mut i: usize = 0;
        while i < files.len()
            invariant
                i <= files@.len(),
                scan_files_spec(self.regex@, self.date_range, files@.subrange(0, i as int)) == Ok::<
                    Seq<String>,
                    ScanError,
                >(result@),
            decreases files@.len() - i,
        {
            let ghost seen = files@.subrange(0, i + 1);
            assert(seen.drop_last() =~= files@.subrange(0, i as int));
            let mut lines = match self.scan_file(&files[i]) {
                Ok(lines) => lines,
                Err(e) => {
                    proof {
                        lemma_files_failure_persists(self.regex@, self.date_range, files@, i + 1);
                    }
                    return Err(e);
                },
            };
            result.append(&mut lines);
            i = i + 1;
        }
        assert(files@.subrange(0, files@.len() as int) =~= files@);
        Ok(result)
    }
}

/// A scan in which any line of any file is not a well-formed log line fails as a
/// whole, whatever the other lines hold: it returns no line at all.
pub proof fn lemma_malformed_line_fails_scan(
    regex: Seq<char>,
    range: DateRange,
    files: Seq<LogFile>,
    file_index: int,
    line_index: int,
)
    requires
        0 <= file_index < files.len(),
        0 <= line_index < files[file_index].lines@.len(),
        line_model(files[file_index].lines@[line_index]@) is Err,
    ensures
        scan_files_spec(regex, range, files) is Err,
{
    let lines = files[file_index].lines@;
    let upto = lines.subrange(0, line_index + 1);
    assert(upto.drop_last() =~= lines.subrange(0, line_index));
    lemma_lines_failure_persists(regex, range, lines, line_index + 1);
    let prefix = files.subrange(0, file_index + 1);
    assert(prefix.drop_last() =~= files.subrange(0, file_index));
    lemma_files_failure_persists(regex, range, files, file_index + 1);
}

/// With a range whose end comes before its start, a scan of any lines keeps none
/// of them, whatever the pattern.
pub proof fn lemma_reversed_range_keeps_no_line(
    regex: Seq<char>,
    range: DateRange,
    lines: Seq<String>,
)
    requires
        !range.start().spec_le(range.end()),
    ensures
        scan_lines_spec(regex, range, lines) is Err || scan_lines_spec(regex, range, lines)
            == Ok::<Seq<String>, ScanError>(Seq::empty()),
    decreases lines.len(),
{
    if lines.len() > 0 {
        lemma_reversed_range_keeps_no_line(regex, range, lines.drop_last());
        if let Ok(fields) = line_model(lines.last()@) {
            lemma_reversed_range_is_empty(range, date_of(fields.1));
        }
    }
}

/// With a range whose end comes before its start, a scan of any files returns
/// no line, whatever the pattern.
pub proof fn lemma_reversed_range_scan_is_empty(
    regex: Seq<char>,
    range: DateRange,
    files: Seq<LogFile>,
)
    requires
        !range.start().spec_le(range.end()),
    ensures
        scan_files_spec(regex, range, files) is Err || scan_files_spec(regex, range, files)
            == Ok::<Seq<String>, ScanError>(Seq::empty()),
    decreases files.len(),
{
    if files.len() > 0 {
        lemma_reversed_range_scan_is_empty(regex, range, files.drop_last());
        lemma_reversed_range_keeps_no_line(regex, range, files.last().lines@);
        if let Ok(kept) = scan_files_spec(regex, range, files.drop_last()) {
            assert(kept + Seq::<String>::empty() =~= kept);
        }
    }
}

} // verus!
