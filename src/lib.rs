//! Filtering of access-log lines by a textual pattern and an inclusive date range.
pub mod date;
pub mod log_line;
pub mod opts;
pub mod scanner;
pub mod text;

pub use date::{CalendarDate, DateRange, DateRangeError, TimeOfDay};
pub use opts::LiveGrepOpts;
pub use log_line::{LiveGrepLine, LogLineError, PatternError};
pub use scanner::{LiveGrep, LogFile, ScanError};
