//! The gateway domain: messages tagged `GWT:` and a three-letter subsystem code. The
//! domain has no message dictionary: bodies pass through as they are.
use vstd::prelude::*;

use crate::error::{syntax_error, ErrorKind, ErrorView, LogParseError};
use crate::message::{domain_message, domain_result, message_outcome, MessageView, ParsedMessage};
use crate::text::{occurs_at, opt_text, split_view, tail_from, text_eq, text_occurs_at};

verus! {

/// The gateway subsystem that the code `code` names.
pub open spec fn gateway_subsystem(code: Seq<char>) -> Option<Seq<char>> {
    if code == "IMQ"@ {
        Some("MQTT-In"@)
    } else if code == "RFC"@ {
        Some("Rcv"@)
    } else if code == "RMQ"@ {
        Some("MQTT-Reconnect"@)
    } else if code == "TIN"@ {
        Some("XportInit"@)
    } else if code == "TPC"@ {
        Some("XportConnect"@)
    } else if code == "TPS"@ {
        Some("XportSend"@)
    } else if code == "TRC"@ {
        Some("ReadFromClient"@)
    } else if code == "TSA"@ {
        Some("XportAvail"@)
    } else {
        None
    }
}

fn gateway_subsystem_lookup(code: &str) -> (r: Option<&'static str>)
    ensures
        opt_text(r) == gateway_subsystem(code@),
{
    if text_eq(code, "IMQ") {
        Some("MQTT-In")
    } else if text_eq(code, "RFC") {
        Some("Rcv")
    } else if text_eq(code, "RMQ") {
        Some("MQTT-Reconnect")
    } else if text_eq(code, "TIN") {
        Some("XportInit")
    } else if text_eq(code, "TPC") {
        Some("XportConnect")
    } else if text_eq(code, "TPS") {
        Some("XportSend")
    } else if text_eq(code, "TRC") {
        Some("ReadFromClient")
    } else if text_eq(code, "TSA") {
        Some("XportAvail")
    } else {
        None
    }
}

/// The subsystem code at the head of `i`: its first three characters, where they are a
/// gateway code.
pub open spec fn spec_gateway_code(i: Seq<char>) -> Result<(Seq<char>, Seq<char>), ErrorView> {
    if i.len() >= 3 && gateway_subsystem(i.take(3)) is Some {
        Ok((i.skip(3), i.take(3)))
    } else {
        Err(ErrorView::Syntax(i, ErrorKind::Tag))
    }
}

/// Reads the gateway subsystem code at the head of `i`, returning the rest and the code.
pub fn parse_subsystem<'a>(i: &'a str) -> (r: Result<(&'a str, &'a str), LogParseError>)
    ensures
        split_view(r) == spec_gateway_code(i@),
{
    let n = i.unicode_len();
    if n >= 3 {
        let code = i.substring_char(0, 3);
        if gateway_subsystem_lookup(code).is_some() {
            return Ok((tail_from(i, 3), code));
        }
    }
    Err(syntax_error(i, ErrorKind::Tag))
}

/// A gateway message `GWT:<code>:<body>`: the subsystem's name and the body as it is.
pub open spec fn spec_parse_gateway(i: Seq<char>) -> Result<(Seq<char>, MessageView), ErrorView> {
    if !occurs_at(i, 0, "GWT:"@) {
        Err(ErrorView::Syntax(i, ErrorKind::Tag))
    } else {
        match spec_gateway_code(i.skip(4)) {
            Err(e) => Err(e),
            Ok((rest, code)) => if !occurs_at(rest, 0, ":"@) {
                Err(ErrorView::Syntax(rest, ErrorKind::Tag))
            } else {
                domain_message("Gway"@, gateway_subsystem(code).unwrap(), rest.skip(1))
            },
        }
    }
}

/// Reads a gateway message.
pub fn parse_gateway<'a>(i: &'a str) -> (r: Result<(&'a str, ParsedMessage), LogParseError>)
    ensures
        message_outcome(r) == spec_parse_gateway(i@),
{
    proof {
        reveal_strlit("GWT:");
        reveal_strlit(":");
    }
    if !text_occurs_at(i, 0, "GWT:") {
        return Err(syntax_error(i, ErrorKind::Tag));
    }
    let after = tail_from(i, 4);
    let (rest, code) = match parse_subsystem(after) {
        Ok(x) => x,
        Err(e) => return Err(e),
    };
    if !text_occurs_at(rest, 0, ":") {
        return Err(syntax_error(rest, ErrorKind::Tag));
    }
    // The code that `parse_subsystem` read is one of the dictionary's.
    let subsystem = match gateway_subsystem_lookup(code) {
        Some(s) => s,
        None => return Err(syntax_error(after, ErrorKind::Tag)),
    };
    let body = tail_from(rest, 1);
    domain_result(i, "Gway", subsystem, String::from_str(body))
}

} // verus!
