use chrono::Datelike;
use mysensors_log::line::parse_after_datetime;
use mysensors_log::message::parse_message;
use mysensors_log::xport_function_parsers::parse_xport_function;
use mysensors_log::xport_machine_parsers::parse_xport_machine;
use mysensors_log::{
    parse_datetime, parse_datetime_on, parse_log, parse_log_line, CalendarDate, ErrorKind,
    LogLine, LogParseError, ParsedMessage, SendStatus, Timestamp,
};

fn this_year() -> i32 {
    chrono::Local::now().year()
}

fn day(year: i32, month: u32, day: u32) -> CalendarDate {
    CalendarDate { year, month, day }
}

fn at(date: CalendarDate, hour: u32, minute: u32, second: u32) -> Timestamp {
    Timestamp {
        year: date.year,
        month: date.month,
        day: date.day,
        hour,
        minute,
        second,
        nanosecond: 0,
    }
}

fn raw(line: &str) -> LogLine {
    LogLine {
        datetime: None,
        level: None,
        msg: line.to_string(),
    }
}

#[test]
fn datetime_reads_month_day_and_time_in_this_year() {
    let (rest, t) = parse_datetime("Mar 05 07:08:09 tail").unwrap();
    assert_eq!(rest, " tail");
    assert_eq!(t, at(day(this_year(), 3, 5), 7, 8, 9));
}

#[test]
fn datetime_on_a_given_day() {
    let today = day(2024, 6, 10);
    assert_eq!(
        parse_datetime_on("Feb 29 23:59:58", today),
        Ok(("", at(day(2024, 2, 29), 23, 59, 58)))
    );
    // A day that the month does not have keeps today's date.
    assert_eq!(
        parse_datetime_on("Feb 30 01:02:03", today),
        Ok(("", at(today, 1, 2, 3)))
    );
    // An unknown month keeps today's month.
    assert_eq!(
        parse_datetime_on("Foo 12 01:02:03", today),
        Ok(("", at(day(2024, 6, 12), 1, 2, 3)))
    );
    // A day read with a sign.
    assert_eq!(
        parse_datetime_on("Jul +7 01:02:03", today),
        Ok(("", at(day(2024, 7, 7), 1, 2, 3)))
    );
}

#[test]
fn datetime_month_overwrite_that_fails_keeps_today() {
    // Today's day does not exist in February, so the month stays that of today.
    let today = day(2023, 1, 31);
    assert_eq!(
        parse_datetime_on("Feb 15 10:00:00", today),
        Ok(("", at(day(2023, 1, 15), 10, 0, 0)))
    );
}

#[test]
fn datetime_errors() {
    let today = day(2024, 6, 10);
    assert_eq!(
        parse_datetime_on("Oc", today),
        Err(LogParseError::Nom("Oc".to_string(), ErrorKind::Eof))
    );
    assert_eq!(
        parse_datetime_on("Oct 1", today),
        Err(LogParseError::Nom("1".to_string(), ErrorKind::Eof))
    );
    assert_eq!(
        parse_datetime_on("Oct 18-13:36:52", today),
        Err(LogParseError::Nom("-13:36:52".to_string(), ErrorKind::OneOf))
    );
    assert_eq!(
        parse_datetime_on("Oct 18 13:36", today),
        Err(LogParseError::Nom("13:36".to_string(), ErrorKind::Eof))
    );
    assert_eq!(
        parse_datetime_on("Oct 18 25:36:52", today),
        Err(LogParseError::DateTimeError)
    );
}

#[test]
fn line_with_plain_message() {
    let l = parse_log_line("Oct 18 13:36:52 INFO  Protocol version - 2.3.2");
    assert_eq!(l.datetime, Some(at(day(this_year(), 10, 18), 13, 36, 52)));
    assert_eq!(l.level, Some("INFO".to_string()));
    assert_eq!(l.msg, "Protocol version - 2.3.2");
}

#[test]
fn line_with_core_message() {
    let l = parse_log_line(
        "Oct 18 13:36:52 DEBUG MCO:BGN:INIT GW,CP=RNNGL---,FQ=NA,REL=255,VER=2.3.2",
    );
    assert_eq!(l.level, Some("DEBUG".to_string()));
    assert_eq!(l.msg, "Core:Begin:INIT GW,CP=RNNGL---,FQ=NA,REL=255,VER=2.3.2");
}

#[test]
fn line_that_does_not_match_is_kept_whole() {
    for line in [
        "",
        "garbage",
        "Oct 18 13:36:52",
        "Oct 18 13:36:52 ",
        "Oct 18 13:36:52 INFO",
        "Oct 18 13:36:52 123 msg",
        "Oct 18 99:36:52 INFO msg",
    ] {
        let l = parse_log_line(line);
        assert_eq!(l, raw(line));
        assert_eq!(l.render(), line);
    }
}

#[test]
fn line_level_errors() {
    assert_eq!(
        parse_log("Oct 18 13:36:52 123 msg"),
        Err(LogParseError::Nom("123 msg".to_string(), ErrorKind::Alpha))
    );
    assert_eq!(
        parse_log("Oct 18 13:36:52 INFO:msg"),
        Err(LogParseError::Nom(":msg".to_string(), ErrorKind::Space))
    );
    assert_eq!(
        parse_log("Oct 18 13:36:52_INFO msg"),
        Err(LogParseError::Nom("_INFO msg".to_string(), ErrorKind::OneOf))
    );
}

#[test]
fn unknown_core_code_passes_through_unclassified() {
    let (_, m) = parse_message("MCO:XXX:msg").unwrap();
    assert_eq!(
        m,
        ParsedMessage {
            send_status: SendStatus::OK,
            system: None,
            subsystem: None,
            msg: "MCO:XXX:msg".to_string(),
        }
    );
    assert_eq!(m.render(), "MCO:XXX:msg");
}

#[test]
fn unknown_xport_function_code_degrades_the_line() {
    let line = "Oct 18 13:36:52 INFO TSF:XXX:msg";
    assert_eq!(parse_log_line(line), raw(line));
    let line = "Oct 18 13:36:52 INFO !TSF:XXX:msg";
    assert_eq!(parse_log_line(line), raw(line));
    match parse_xport_function("TSF:XXX:msg") {
        Err(LogParseError::SubSystemError(found, allowed)) => {
            assert_eq!(found, "XXX");
            assert!(allowed.contains("WUR"));
        }
        other => panic!("unexpected {:?}", other),
    }
}

#[test]
fn xport_function_short_code_and_missing_colon() {
    assert_eq!(
        parse_xport_function("TSF:UP"),
        Err(LogParseError::Nom("UP".to_string(), ErrorKind::Eof))
    );
    assert_eq!(
        parse_xport_function("TSF:UPL msg"),
        Err(LogParseError::Nom(" msg".to_string(), ErrorKind::Tag))
    );
    // Neither falls into an error at the dispatcher: the body passes through.
    let (_, m) = parse_message("TSF:UPL msg").unwrap();
    assert_eq!(m.system, None);
    assert_eq!(m.msg, "TSF:UPL msg");
}

#[test]
fn xport_function_dictionary() {
    let (_, m) = parse_xport_function("TSF:MSG:GWL OK").unwrap();
    assert_eq!(m.render(), "Xport:Msg:Link to GW OK");
}

#[test]
fn state_machine_without_body_is_a_transition() {
    let (_, m) = parse_message("TSM:INIT").unwrap();
    assert_eq!(m.subsystem, Some("INIT".to_string()));
    assert_eq!(m.msg, "State Transition");
}

#[test]
fn state_machine_failed_id() {
    let (_, m) = parse_xport_machine("TSM:INIT:FAIL,ID=42").unwrap();
    assert_eq!(
        m.msg,
        "ID (42) invalid / verification failed / no ID received from controller"
    );
}

#[test]
fn state_machine_static_id_and_ready() {
    let (_, m) = parse_xport_machine("TSM:ID:STATID=7").unwrap();
    assert_eq!(m.msg, "Static ID (7)");
    let (_, m) = parse_xport_machine("TSM:READY:ID=12,PAR=0,DIS=1").unwrap();
    assert_eq!(
        m.msg,
        "READY: node ID (12) parent ID (0) GW distance (1)"
    );
    // A shape that stops short is read by the dictionary or passed through.
    let (_, m) = parse_xport_machine("TSM:READY:ID=12,PAR=").unwrap();
    assert_eq!(m.msg, "ID=12,PAR=");
    let (_, m) = parse_xport_machine("TSM:UPL:FAIL").unwrap();
    assert_eq!(m.msg, "UL Check FAILED - GW Ping Failed");
}

#[test]
fn state_machine_unknown_code_and_bad_separator() {
    assert!(matches!(
        parse_xport_machine("TSM:NOPE:x"),
        Err(LogParseError::SubSystemError(_, _))
    ));
    assert_eq!(
        parse_xport_machine("TSM:INIT x"),
        Err(LogParseError::Nom(" x".to_string(), ErrorKind::Tag))
    );
    // An unknown state-machine code is no error for the dispatcher.
    let (_, m) = parse_message("TSM:NOPE:x").unwrap();
    assert_eq!(m.msg, "TSM:NOPE:x");
}

#[test]
fn status_markers() {
    let (_, m) = parse_message("!GWT:RFC:hello").unwrap();
    assert_eq!(m.send_status, SendStatus::ERROR);
    assert_eq!(m.render(), "Gway:Rcv:hello");
    let (_, m) = parse_message("?plain").unwrap();
    assert_eq!(m.send_status, SendStatus::UNKNOWN);
    assert_eq!(m.render(), "plain");
    let (_, m) = parse_message("plain").unwrap();
    assert_eq!(m.send_status, SendStatus::OK);
    let (_, m) = parse_message("").unwrap();
    assert_eq!(m.msg, "");
}

#[test]
fn send_status_from_str() {
    assert_eq!("!".parse::<SendStatus>(), Ok(SendStatus::ERROR));
    assert_eq!("?".parse::<SendStatus>(), Ok(SendStatus::UNKNOWN));
    assert_eq!(
        "x".parse::<SendStatus>(),
        Err("'x' is not a valid value for SendStatus".to_string())
    );
}

#[test]
fn render_line_pads_level() {
    let l = LogLine {
        datetime: Some(at(day(2021, 10, 18), 13, 36, 52)),
        level: Some("INFO".to_string()),
        msg: "hello".to_string(),
    };
    assert_eq!(l.render(), "2021-10-18 13:36:52 INFO   hello");
    let l = LogLine {
        datetime: Some(at(day(2021, 1, 2), 3, 4, 5)),
        level: Some("VERBOSE".to_string()),
        msg: "x".to_string(),
    };
    assert_eq!(l.render(), "2021-01-02 03:04:05 VERBOSE x");
}

#[test]
fn render_timestamp_years_and_leap_second() {
    assert_eq!(at(day(33, 1, 2), 3, 4, 5).render(), "0033-01-02 03:04:05");
    assert_eq!(at(day(12345, 1, 2), 3, 4, 5).render(), "+12345-01-02 03:04:05");
    assert_eq!(at(day(-7, 1, 2), 3, 4, 5).render(), "-0007-01-02 03:04:05");
    let mut t = at(day(2016, 12, 31), 23, 59, 59);
    t.nanosecond = 1_000_000_000;
    assert_eq!(t.render(), "2016-12-31 23:59:60");
}

#[test]
fn rendering_is_one_way() {
    let x = "Oct 18 13:36:52 DEBUG MCO:BGN:INIT GW";
    let first = parse_log_line(x);
    let rendered = first.render();
    assert_eq!(
        rendered,
        format!("{}-10-18 13:36:52 DEBUG  Core:Begin:INIT GW", this_year())
    );
    let second = parse_log_line(&rendered);
    assert_ne!(second, first);
    assert_eq!(second, raw(&rendered));
}

#[test]
fn default_line() {
    let l = LogLine::default();
    assert!(l.datetime.is_some());
    assert_eq!(l.level, Some("INFO".to_string()));
    assert_eq!(l.msg, "");
}

#[test]
fn reading_after_a_given_head() {
    let t = at(day(2020, 2, 29), 12, 0, 0);
    assert_eq!(
        parse_after_datetime(Ok((" WARN \tGWT:TIN:up", t))),
        Ok((
            "",
            LogLine {
                datetime: Some(t),
                level: Some("WARN".to_string()),
                msg: "Gway:XportInit:up".to_string(),
            }
        ))
    );
    assert_eq!(
        parse_after_datetime(Err(LogParseError::DateTimeError)),
        Err(LogParseError::DateTimeError)
    );
    assert!(matches!(
        parse_after_datetime(Ok((" INFO TSF:XXX:msg", t))),
        Err(LogParseError::SubSystemError(_, _))
    ));
}

#[test]
fn error_messages() {
    assert_eq!(
        LogParseError::DateTimeError.render(),
        "LogParseError: bad date/time"
    );
    assert_eq!(
        LogParseError::SubSystemError("XXX".to_string(), "A, B".to_string()).render(),
        "LogParseError: bad subsystem found (XXX) expected (A, B)"
    );
    assert_eq!(
        LogParseError::Nom("rest".to_string(), ErrorKind::OneOf).render(),
        "LogParseError: bad parse (rest) (OneOf)"
    );
}
