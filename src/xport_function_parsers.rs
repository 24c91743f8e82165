//! The transport-function domain: messages tagged `TSF:` and a three-letter subsystem
//! code. The tag names this domain alone, so an unknown code here is an error of its own
//! rather than a mismatch.
use vstd::prelude::*;

use crate::error::{syntax_error, ErrorKind, ErrorView, LogParseError};
use crate::message::{domain_message, domain_result, message_outcome, MessageView, ParsedMessage};
use crate::text::{occurs_at, opt_text, tail_from, text_eq, text_occurs_at};

verus! {

/// The transport-function subsystem that the code `code` names.
pub open spec fn xport_function_subsystem(code: Seq<char>) -> Option<Seq<char>> {
    if code == "CKU"@ {
        Some("CheckUL"@)
    } else if code == "LRT"@ {
        Some("LoadRoutingTable"@)
    } else if code == "MSG"@ {
        Some("Msg"@)
    } else if code == "PNG"@ {
        Some("Ping"@)
    } else if code == "RRT"@ {
        Some("Route"@)
    } else if code == "RTE"@ {
        Some("Route"@)
    } else if code == "SAN"@ {
        Some("Sanity"@)
    } else if code == "SID"@ {
        Some("AssignNode"@)
    } else if code == "SIR"@ {
        Some("SignalReport"@)
    } else if code == "SND"@ {
        Some("RouteSend"@)
    } else if code == "SRT"@ {
        Some("SaveRoutingTable"@)
    } else if code == "TDI"@ {
        Some("Disable"@)
    } else if code == "TRI"@ {
        Some("ReInit"@)
    } else if code == "UPL"@ {
        Some("PingGW"@)
    } else if code == "WUR"@ {
        Some("WaitUntilReady"@)
    } else {
        None
    }
}

fn xport_function_subsystem_lookup(code: &str) -> (r: Option<&'static str>)
    ensures
        opt_text(r) == xport_function_subsystem(code@),
{
    if text_eq(code, "CKU") {
        Some("CheckUL")
    } else if text_eq(code, "LRT") {
        Some("LoadRoutingTable")
    } else if text_eq(code, "MSG") {
        Some("Msg")
    } else if text_eq(code, "PNG") {
        Some("Ping")
    } else if text_eq(code, "RRT") {
        Some("Route")
    } else if text_eq(code, "RTE") {
        Some("Route")
    } else if text_eq(code, "SAN") {
        Some("Sanity")
    } else if text_eq(code, "SID") {
        Some("AssignNode")
    } else if text_eq(code, "SIR") {
        Some("SignalReport")
    } else if text_eq(code, "SND") {
        Some("RouteSend")
    } else if text_eq(code, "SRT") {
        Some("SaveRoutingTable")
    } else if text_eq(code, "TDI") {
        Some("Disable")
    } else if text_eq(code, "TRI") {
        Some("ReInit")
    } else if text_eq(code, "UPL") {
        Some("PingGW")
    } else if text_eq(code, "WUR") {
        Some("WaitUntilReady")
    } else {
        None
    }
}

/// The codes of the transport-function subsystems, as an error reports them.
pub open spec fn xport_function_codes() -> Seq<char> {
    "CKU, LRT, MSG, PNG, RRT, RTE, SAN, SID, SIR, SND, SRT, TDI, TRI, UPL, WUR"@
}

fn xport_function_codes_text() -> (r: &'static str)
    ensures
        r@ == xport_function_codes(),
{
    "CKU, LRT, MSG, PNG, RRT, RTE, SAN, SID, SIR, SND, SRT, TDI, TRI, UPL, WUR"
}

/// The readable text of a transport-function message body, where the body is a known one.
pub open spec fn xport_function_message(body: Seq<char>) -> Option<Seq<char>> {
    if body == "OK,FCTRL"@ {
        Some("UL OK - ping filtered, interval too short"@)
    } else if body == "FAIL"@ {
        Some("No Reply recieved"@)
    } else if body == "FPAR PREF FOUND"@ {
        Some("Found Preferred parent - static ID"@)
    } else if body == "FPAR INACTIVE"@ {
        Some("rvd FindParent Response but no request"@)
    } else if body == "BC"@ {
        Some("Broadcast Message Recieved"@)
    } else if body == "GWL OK"@ {
        Some("Link to GW OK"@)
    } else if body == "FWD BC MSG"@ {
        Some("Controlled Broadcast Msg Fowarding"@)
    } else if body == "RCV CB"@ {
        Some("call Receive Callback()"@)
    } else if body == "REL MSG"@ {
        Some("Relay Message"@)
    } else if body == "REL MSG,NORP"@ {
        Some("Relay Message but NOT a repeater"@)
    } else if body == "SIGN FAIL"@ {
        Some("Signing Message Failed"@)
    } else if body == "GWL FAIL"@ {
        Some("GW UL Failed"@)
    } else if body == "ID TK INVALID"@ {
        Some("Token for ID Request Invalid"@)
    } else if body == "FPAR ACTIVE"@ {
        Some("Finding Parent Active, message not sent"@)
    } else if body == "TNR"@ {
        Some("Xport Not Ready, message not sent"@)
    } else if body == "TSL"@ {
        Some("Xport Sleep"@)
    } else if body == "TPD"@ {
        Some("Xport PowerDown"@)
    } else if body == "TRI"@ {
        Some("Xport ReInit"@)
    } else if body == "TSB"@ {
        Some("Xport Standby"@)
    } else {
        None
    }
}

fn parse_msg_by_lookup(body: &str) -> (r: Option<&'static str>)
    ensures
        opt_text(r) == xport_function_message(body@),
{
    if text_eq(body, "OK,FCTRL") {
        Some("UL OK - ping filtered, interval too short")
    } else if text_eq(body, "FAIL") {
        Some("No Reply recieved")
    } else if text_eq(body, "FPAR PREF FOUND") {
        Some("Found Preferred parent - static ID")
    } else if text_eq(body, "FPAR INACTIVE") {
        Some("rvd FindParent Response but no request")
    } else if text_eq(body, "BC") {
        Some("Broadcast Message Recieved")
    } else if text_eq(body, "GWL OK") {
        Some("Link to GW OK")
    } else if text_eq(body, "FWD BC MSG") {
        Some("Controlled Broadcast Msg Fowarding")
    } else if text_eq(body, "RCV CB") {
        Some("call Receive Callback()")
    } else if text_eq(body, "REL MSG") {
        Some("Relay Message")
    } else if text_eq(body, "REL MSG,NORP") {
        Some("Relay Message but NOT a repeater")
    } else if text_eq(body, "SIGN FAIL") {
        Some("Signing Message Failed")
    } else if text_eq(body, "GWL FAIL") {
        Some("GW UL Failed")
    } else if text_eq(body, "ID TK INVALID") {
        Some("Token for ID Request Invalid")
    } else if text_eq(body, "FPAR ACTIVE") {
        Some("Finding Parent Active, message not sent")
    } else if text_eq(body, "TNR") {
        Some("Xport Not Ready, message not sent")
    } else if text_eq(body, "TSL") {
        Some("Xport Sleep")
    } else if text_eq(body, "TPD") {
        Some("Xport PowerDown")
    } else if text_eq(body, "TRI") {
        Some("Xport ReInit")
    } else if text_eq(body, "TSB") {
        Some("Xport Standby")
    } else {
        None
    }
}

/// The place for readers of shaped transport-function message bodies. The domain defines
/// none yet, so every body goes on to the dictionary.
fn parse_msg_into_human(body: &str) -> (r: Option<String>)
    ensures
        r is None,
{
    None
}

/// A transport-function message `TSF:<code>:<body>`: the subsystem's name, and the body's
/// readable text where the dictionary has one, else the body as it is. A code of three
/// characters that names no subsystem is a subsystem error.
pub open spec fn spec_parse_xport_function(i: Seq<char>) -> Result<
    (Seq<char>, MessageView),
    ErrorView,
> {
    if !occurs_at(i, 0, "TSF:"@) {
        Err(ErrorView::Syntax(i, ErrorKind::Tag))
    } else {
        let after = i.skip(4);
        if after.len() < 3 {
            Err(ErrorView::Syntax(after, ErrorKind::Eof))
        } else if xport_function_subsystem(after.take(3)) is None {
            Err(ErrorView::SubSystem(after.take(3), xport_function_codes()))
        } else {
            let rest = after.skip(3);
            if !occurs_at(rest, 0, ":"@) {
                Err(ErrorView::Syntax(rest, ErrorKind::Tag))
            } else {
                let body = rest.skip(1);
                domain_message(
                    "Xport"@,
                    xport_function_subsystem(after.take(3)).unwrap(),
                    match xport_function_message(body) {
                        Some(m) => m,
                        None => body,
                    },
                )
            }
        }
    }
}

/// Reads a transport-function message.
pub fn parse_xport_function<'a>(i: &'a str) -> (r: Result<(&'a str, ParsedMessage), LogParseError>)
    ensures
        message_outcome(r) == spec_parse_xport_function(i@),
{
    proof {
        reveal_strlit("TSF:");
        reveal_strlit(":");
    }
    if !text_occurs_at(i, 0, "TSF:") {
        return Err(syntax_error(i, ErrorKind::Tag));
    }
    let after = tail_from(i, 4);
    if after.unicode_len() < 3 {
        return Err(syntax_error(after, ErrorKind::Eof));
    }
    let code = after.substring_char(0, 3);
    let subsystem = match xport_function_subsystem_lookup(code) {
        Some(s) => s,
        None => {
            return Err(
                LogParseError::SubSystemError(
                    String::from_str(code),
                    String::from_str(xport_function_codes_text()),
                ),
            )
        },
    };
    let rest = tail_from(after, 3);
    if !text_occurs_at(rest, 0, ":") {
        return Err(syntax_error(rest, ErrorKind::Tag));
    }
    let body = tail_from(rest, 1);
    let text = match parse_msg_into_human(body) {
        Some(m) => m,
        None => match parse_msg_by_lookup(body) {
            Some(m) => String::from_str(m),
            None => String::from_str(body),
        },
    };
    domain_result(i, "Xport", subsystem, text)
}

} // verus!
