use livegrep::{
    CalendarDate, DateRange, DateRangeError, LiveGrep, LiveGrepLine, LogFile, LogLineError,
    ScanError, TimeOfDay,
};

fn date(year: i32, month: u32, day: u32) -> CalendarDate {
    CalendarDate { year, month, day }
}

fn file(lines: &[&str]) -> LogFile {
    LogFile {
        lines: lines.iter().map(|l| l.to_string()).collect(),
        read_error: None,
    }
}

fn query(regex: &str, range: &str) -> LiveGrep {
    LiveGrep {
        regex: regex.to_string(),
        date_range: DateRange::parse_date_range(range.to_string()).unwrap(),
    }
}

const SAMPLE_LINE: &str = "1.2.3.4 - - [10/Oct/2000:13:55:36 -0700] \"GET / HTTP/1.0\" 200 0";

#[test]
fn parse_range_gives_both_dates() {
    let range = DateRange::parse_date_range("01/Jun/1990-01/Aug/2000".to_string()).unwrap();
    assert_eq!(range.start_date(), date(1990, 6, 1));
    assert_eq!(range.end_date(), date(2000, 8, 1));
}

#[test]
fn parse_range_rejects_wrong_arity() {
    for text in ["", "01/Jun/1990", "01/Jun/1990-01/Aug/2000-01/Sep/2000", "--"] {
        let r = DateRange::parse_date_range(text.to_string());
        assert_eq!(r.unwrap_err(), DateRangeError::InvalidRangeArity, "{text}");
    }
}

#[test]
fn parse_range_rejects_bad_dates() {
    let r = DateRange::parse_date_range("31/Foo/1990-01/Aug/2000".to_string());
    assert_eq!(r.unwrap_err(), DateRangeError::DateParse("31/Foo/1990".to_string()));
    let r = DateRange::parse_date_range("01/Jun/1990-1990".to_string());
    assert_eq!(r.unwrap_err(), DateRangeError::DateParse("1990".to_string()));
    let r = DateRange::parse_date_range("31/Feb/1990-01/Aug/2000".to_string());
    assert_eq!(r.unwrap_err(), DateRangeError::DateParse("31/Feb/1990".to_string()));
}

#[test]
fn reversed_range_is_accepted_and_holds_nothing() {
    let range = DateRange::parse_date_range("01/Aug/2000-01/Jun/1990".to_string()).unwrap();
    assert_eq!(range.start_date(), date(2000, 8, 1));
    for d in [date(1990, 6, 1), date(1995, 1, 1), date(2000, 8, 1)] {
        assert!(!range.contains(&d));
    }
}

#[test]
fn parse_line_splits_out_timestamp() {
    let line = LiveGrepLine::parse_from_str(SAMPLE_LINE).unwrap();
    assert_eq!(line.date(), date(2000, 10, 10));
    assert_eq!(line.time(), TimeOfDay { hour: 13, minute: 55, second: 36 });
    assert_eq!(line.pattern_target(), "1.2.3.4 - -  \"GET / HTTP/1.0\" 200 0");
    assert_eq!(line.raw(), SAMPLE_LINE);
}

#[test]
fn parse_line_errors() {
    let cases = [
        ("no timestamp here", LogLineError::MissingTimestampStart),
        ("a [10/Oct/2000:13:55:36 -0700", LogLineError::MissingTimestampEnd),
        ("a [ -0700] b", LogLineError::TimestampFormat),
        ("a [-0700] b", LogLineError::TimestampFormat),
        ("a [10/Oct/2000 13.55.36 -0700] b", LogLineError::TimestampFormat),
        ("a [10/Foo/2000:13:55:36 -0700] b", LogLineError::TimestampFormat),
        ("a [10/Oct/2000:25:55:36 -0700] b", LogLineError::TimestampFormat),
    ];
    for (raw, expected) in cases {
        assert_eq!(LiveGrepLine::parse_from_str(raw).unwrap_err(), expected, "{raw}");
    }
}

#[test]
fn pattern_ignores_timestamp_text() {
    let line = LiveGrepLine::parse_from_str(SAMPLE_LINE).unwrap();
    assert_eq!(line.line_matches("13:55:36"), Ok(false));
    assert_eq!(line.line_matches("2000"), Ok(false));
    assert_eq!(line.line_matches("Oct"), Ok(false));
    assert_eq!(line.line_matches("GET / HTTP"), Ok(true));
    assert_eq!(line.line_matches("^1\\.2\\.3\\.4"), Ok(true));
}

#[test]
fn malformed_pattern_is_an_error() {
    let line = LiveGrepLine::parse_from_str(SAMPLE_LINE).unwrap();
    assert!(line.line_matches("(unclosed").is_err());
}

#[test]
fn contains_date_is_inclusive() {
    let range = DateRange::parse_date_range("01/Jun/1990-01/Aug/2000".to_string()).unwrap();
    let at = |stamp: &str| {
        LiveGrepLine::parse_from_str(&format!("h - - [{stamp}:00:00:00 -0400] \"GET /\" 200 1"))
            .unwrap()
            .contains_date(&range)
    };
    assert!(at("01/Jun/1990"));
    assert!(at("01/Aug/2000"));
    assert!(at("15/Mar/1995"));
    assert!(!at("31/May/1990"));
    assert!(!at("02/Aug/2000"));
}

fn nasa_sample() -> Vec<LogFile> {
    vec![
        file(&[
            "199.72.81.55 - - [01/Jul/1995:00:00:01 -0400] \"GET /history/apollo/ HTTP/1.0\" 200 6245",
            "unicomp6.unicomp.net - - [01/Jul/1995:00:00:06 -0400] \"GET /shuttle/countdown/ HTTP/1.0\" 200 3985",
            "199.120.110.21 - - [01/Jul/1995:00:00:09 -0400] \"GET /shuttle/missions/sts-73/mission-sts-73.html HTTP/1.0\" 200 4085",
            "burger.letters.com - - [01/Jul/1995:00:00:11 -0400] \"GET /shuttle/countdown/liftoff.html HTTP/1.0\" 304 0",
            "unicomp6.unicomp.net - - [01/Jul/1995:00:00:14 -0400] \"GET /shuttle/countdown/count.gif HTTP/1.0\" 200 40310",
        ]),
        file(&[
            "205.212.115.106 - - [01/Jul/1995:00:00:12 -0400] \"GET /shuttle/countdown/countdown.html HTTP/1.0\" 200 3985",
            "unicomp6.unicomp.net - - [01/Jul/1995:00:00:14 -0400] \"GET /images/NASA-logosmall.gif HTTP/1.0\" 200 786",
            "unicomp6.unicomp.net - - [01/Jul/1995:00:00:14 -0400] \"GET /images/KSC-logosmall.gif HTTP/1.0\" 200 1204",
            "d104.aa.net - - [01/Jul/1995:00:00:13 -0400] \"GET /shuttle/countdown/ HTTP/1.0\" 200 3985",
        ]),
    ]
}

#[test]
fn scanning_nasa_sample_finds_four_lines() {
    let grep = query("unicomp[0-9].unicomp.net", "01/Jun/1990-01/Aug/2000");
    let lines = grep.scan_files(&nasa_sample()).unwrap();
    assert_eq!(lines.len(), 4);
    assert!(lines.iter().all(|l| l.starts_with("unicomp6.unicomp.net - - [01/Jul/1995")));
    assert!(lines[0].ends_with("3985"));
    assert!(lines[3].ends_with("1204"));
}

#[test]
fn scan_outside_range_finds_nothing() {
    let grep = query("unicomp[0-9].unicomp.net", "02/Jul/1995-01/Aug/2000");
    assert_eq!(grep.scan_files(&nasa_sample()).unwrap(), Vec::<String>::new());
}

#[test]
fn scan_with_reversed_range_finds_nothing() {
    let grep = query(".", "01/Aug/2000-01/Jun/1990");
    assert_eq!(grep.scan_files(&nasa_sample()).unwrap(), Vec::<String>::new());
}

#[test]
fn malformed_line_fails_whole_scan() {
    let grep = query("unicomp[0-9].unicomp.net", "01/Jun/1990-01/Aug/2000");
    let mut files = nasa_sample();
    files[1].lines.insert(2, "unicomp6.unicomp.net - - no timestamp".to_string());
    assert_eq!(
        grep.scan_files(&files),
        Err(ScanError::LogLine(LogLineError::MissingTimestampStart))
    );
    let mut files = nasa_sample();
    files.push(file(&["oops [01/Jul/1995:00:00:14 -0400"]));
    assert_eq!(
        grep.scan_files(&files),
        Err(ScanError::LogLine(LogLineError::MissingTimestampEnd))
    );
}

#[test]
fn read_failure_fails_whole_scan() {
    let grep = query("unicomp[0-9].unicomp.net", "01/Jun/1990-01/Aug/2000");
    let mut files = nasa_sample();
    files[0].read_error = Some("permission denied".to_string());
    assert_eq!(grep.scan_files(&files), Err(ScanError::Io("permission denied".to_string())));
}

#[test]
fn first_failure_in_order_wins() {
    let grep = query("x", "01/Jun/1990-01/Aug/2000");
    let mut broken = file(&["bad line", "x [01/Jul/1995:00:00:14 -0400]"]);
    broken.read_error = Some("late failure".to_string());
    assert_eq!(
        grep.scan_file(&broken),
        Err(ScanError::LogLine(LogLineError::MissingTimestampStart))
    );
}

#[test]
fn malformed_pattern_fails_scan() {
    let grep = query("[unclosed", "01/Jun/1990-01/Aug/2000");
    assert_eq!(grep.scan_files(&nasa_sample()), Err(ScanError::Pattern));
    assert_eq!(grep.scan_files(&Vec::new()), Ok(Vec::new()));
}

#[test]
fn scan_keeps_raw_lines() {
    let grep = query("GET", "01/Jan/2000-31/Dec/2000");
    let lines = grep.scan_file(&file(&[SAMPLE_LINE])).unwrap();
    assert_eq!(lines, vec![SAMPLE_LINE.to_string()]);
}

#[test]
fn options_build_query() {
    let opts = livegrep::LiveGrepOpts {
        data_dir: std::path::PathBuf::from("logs"),
        regex: "unicomp[0-9].unicomp.net".to_string(),
        date: "01/Jun/1990-01/Aug/2000".to_string(),
    };
    let q = opts.query().unwrap();
    assert_eq!(q.regex, "unicomp[0-9].unicomp.net");
    assert_eq!(q.date_range.start_date(), date(1990, 6, 1));
    let bad = livegrep::LiveGrepOpts {
        date: "01/Jun/1990".to_string(),
        ..opts
    };
    assert_eq!(bad.query().unwrap_err(), DateRangeError::InvalidRangeArity);
}

#[test]
fn retains_needs_match_and_date() {
    let grep = query("anything", "01/Jan/2000-10/Oct/2000");
    let line = LiveGrepLine::parse_from_str(SAMPLE_LINE).unwrap();
    assert!(grep.retains(&line, true));
    assert!(!grep.retains(&line, false));
    let early = query("anything", "01/Jan/2000-09/Oct/2000");
    assert!(!early.retains(&line, true));
}
