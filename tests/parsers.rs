use chrono::Datelike;
use mysensors_log::core_parsers::{self, parse_core};
use mysensors_log::gateway_parsers::{self, parse_gateway};
use mysensors_log::xport_function_parsers::parse_xport_function;
use mysensors_log::xport_machine_parsers::parse_xport_machine;
use mysensors_log::{
    parse_datetime, parse_log, ErrorKind, LogLine, LogParseError, ParsedMessage, SendStatus,
    Timestamp,
};

fn this_year() -> i32 {
    chrono::Local::now().year()
}

fn stamp(month: u32, day: u32, hour: u32, minute: u32, second: u32) -> Timestamp {
    Timestamp {
        year: this_year(),
        month,
        day,
        hour,
        minute,
        second,
        nanosecond: 0,
    }
}

fn domain(system: &str, subsystem: &str, msg: &str) -> ParsedMessage {
    ParsedMessage {
        send_status: SendStatus::UNKNOWN,
        system: Some(system.to_string()),
        subsystem: Some(subsystem.to_string()),
        msg: msg.to_string(),
    }
}

#[test]
fn test_parse_datetime() {
    assert_eq!(
        parse_datetime("Oct 18 13:36:52"),
        Ok(("", stamp(10, 18, 13, 36, 52)))
    );
    let result_error = parse_datetime("Some Other Text").unwrap_err();
    assert_eq!(
        result_error,
        LogParseError::Nom("e Other Text".to_string(), ErrorKind::OneOf)
    );
}

#[test]
fn test_parse_log() {
    assert_eq!(
        parse_log("Oct 18 13:36:52 INFO  Protocol version - 2.3.2"),
        Ok((
            "",
            LogLine {
                datetime: Some(stamp(10, 18, 13, 36, 52)),
                level: Some("INFO".to_string()),
                msg: "Protocol version - 2.3.2".to_string(),
            }
        ))
    );
    assert_eq!(
        parse_log("Oct 18 13:36:52 DEBUG MCO:BGN:INIT GW,CP=RNNGL---,FQ=NA,REL=255,VER=2.3.2"),
        Ok((
            "",
            LogLine {
                datetime: Some(stamp(10, 18, 13, 36, 52)),
                level: Some("DEBUG".to_string()),
                msg: "Core:Begin:INIT GW,CP=RNNGL---,FQ=NA,REL=255,VER=2.3.2".to_string(),
            }
        ))
    );
}

#[test]
fn it_works() {
    let result = 2 + 2;
    assert_eq!(result, 4);
}

#[test]
fn core_parsers_test_parse_subsystem() {
    assert_eq!(core_parsers::parse_subsystem("PIM"), Ok(("", "PIM")));
    assert_eq!(core_parsers::parse_subsystem("SLP"), Ok(("", "SLP")));
    let result_error = core_parsers::parse_subsystem("JUNK").unwrap_err();
    assert_eq!(
        result_error,
        LogParseError::Nom("JUNK".to_string(), ErrorKind::Tag)
    );
}

#[test]
fn test_parse_core() {
    assert_eq!(
        parse_core("MCO:PIM:some message"),
        Ok(("", domain("Core", "InternalMsg", "some message")))
    );
    assert_eq!(
        parse_core("MCO:WAI:another message"),
        Ok(("", domain("Core", "Wait", "another message")))
    );
}

#[test]
fn gateway_parsers_test_parse_subsystem() {
    assert_eq!(gateway_parsers::parse_subsystem("RFC"), Ok(("", "RFC")));
    assert_eq!(gateway_parsers::parse_subsystem("TSA"), Ok(("", "TSA")));
    let result_error = gateway_parsers::parse_subsystem("JUNK").unwrap_err();
    assert_eq!(
        result_error,
        LogParseError::Nom("JUNK".to_string(), ErrorKind::Tag)
    );
}

#[test]
fn test_parse_gateway() {
    assert_eq!(
        parse_gateway("GWT:RFC:some message"),
        Ok(("", domain("Gway", "Rcv", "some message")))
    );
    assert_eq!(
        parse_gateway("GWT:TSA:another message"),
        Ok(("", domain("Gway", "XportAvail", "another message")))
    );
}

#[test]
fn test_parse_xport_function() {
    assert_eq!(
        parse_xport_function("TSF:UPL:some message"),
        Ok(("", domain("Xport", "PingGW", "some message")))
    );
    assert_eq!(
        parse_xport_function("TSF:RTE:another message"),
        Ok(("", domain("Xport", "Route", "another message")))
    );
    let result_error = parse_xport_function("JUNK").unwrap_err();
    assert_eq!(
        result_error,
        LogParseError::Nom("JUNK".to_string(), ErrorKind::Tag)
    );
}

#[test]
fn test_parse_xport_machine() {
    assert_eq!(
        parse_xport_machine("TSM:UPL:some message"),
        Ok(("", domain("XportSM", "UPLINK", "some message")))
    );
    assert_eq!(
        parse_xport_machine("TSM:INIT:another message"),
        Ok(("", domain("XportSM", "INIT", "another message")))
    );
    // A message with no body stands for a state transition.
    assert_eq!(
        parse_xport_machine("TSM:INIT"),
        Ok(("", domain("XportSM", "INIT", "State Transition")))
    );
    assert_eq!(
        parse_xport_machine("TSM:INIT:TSP FAIL"),
        Ok(("", domain("XportSM", "INIT", "Xport Init Failed")))
    );
    let result_error = parse_xport_machine("JUNK").unwrap_err();
    assert_eq!(
        result_error,
        LogParseError::Nom("JUNK".to_string(), ErrorKind::Tag)
    );
}
