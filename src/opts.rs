//! The inputs of one command-line scan.
use vstd::prelude::*;
use std::path::PathBuf;
use crate::date::{range_parse_outcome, DateRange, DateRangeError};
use crate::scanner::LiveGrep;

verus! {

/// A filesystem path, carried through unread.
#[verifier::external_type_specification]
#[verifier::external_body]
pub struct ExPathBuf(PathBuf);

/// The three positional inputs of a scan: the directory to walk, the pattern,
/// and the date range as text.
pub struct LiveGrepOpts {
    pub data_dir: PathBuf,
    pub regex: String,
    pub date: String,
}

impl LiveGrepOpts {
    /// The query these inputs ask for: the pattern as given and the date range
    /// read from its text; or why the date range could not be read.
    pub fn query(&self) -> (r: Result<LiveGrep, DateRangeError>)
        ensures
            match r {
                Ok(q) => q.regex@ == self.regex@ && range_parse_outcome(
                    self.date@,
                    Ok::<DateRange, DateRangeError>(q.date_range),
                ),
                Err(e) => range_parse_outcome(self.date@, Err::<DateRange, DateRangeError>(e)),
            },
    {
        match DateRange::parse_date_range(self.date.clone()) {
            Ok(date_range) => Ok(LiveGrep { regex: self.regex.clone(), date_range }),
            Err(e) => Err(e),
        }
    }
}

} // verus!
