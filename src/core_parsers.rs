//! The core domain: messages tagged `MCO:` and a three-letter subsystem code.
use vstd::prelude::*;

use crate::error::{syntax_error, ErrorKind, ErrorView, LogParseError};
use crate::message::{domain_message, domain_result, message_outcome, MessageView, ParsedMessage};
use crate::text::{occurs_at, opt_text, split_view, tail_from, text_eq, text_occurs_at};

verus! {

/// The core subsystem that the code `code` names.
pub open spec fn core_subsystem(code: Seq<char>) -> Option<Seq<char>> {
    if code == "BGN"@ {
        Some("Begin"@)
    } else if code == "NLK"@ {
        Some("NodeLock"@)
    } else if code == "PIM"@ {
        Some("InternalMsg"@)
    } else if code == "REG"@ {
        Some("RegisterNode"@)
    } else if code == "SLP"@ {
        Some("Sleep"@)
    } else if code == "SND"@ {
        Some("Send"@)
    } else if code == "WAI"@ {
        Some("Wait"@)
    } else {
        None
    }
}

fn core_subsystem_lookup(code: &str) -> (r: Option<&'static str>)
    ensures
        opt_text(r) == core_subsystem(code@),
{
    if text_eq(code, "BGN") {
        Some("Begin")
    } else if text_eq(code, "NLK") {
        Some("NodeLock")
    } else if text_eq(code, "PIM") {
        Some("InternalMsg")
    } else if text_eq(code, "REG") {
        Some("RegisterNode")
    } else if text_eq(code, "SLP") {
        Some("Sleep")
    } else if text_eq(code, "SND") {
        Some("Send")
    } else if text_eq(code, "WAI") {
        Some("Wait")
    } else {
        None
    }
}

/// The readable text of a core message body, where the body is a known one.
pub open spec fn core_message(body: Seq<char>) -> Option<Seq<char>> {
    if body == "BFR"@ {
        Some("Callback before()"@)
    } else if body == "STP"@ {
        Some("Callback setup()"@)
    } else if body == "TSP FAIL"@ {
        Some("Xport Init Failed"@)
    } else if body == "TSL"@ {
        Some("Xport Sleep"@)
    } else if body == "REQ"@ {
        Some("Registration Request"@)
    } else if body == "NTL"@ {
        Some("Can't Sleep - no time left"@)
    } else if body == "FWUPD"@ {
        Some("Can't Sleep - FW updating"@)
    } else if body == "REP"@ {
        Some("Can't Sleep - repeater node"@)
    } else if body == "TNR"@ {
        Some("Xport Not Ready - attempting reconnect"@)
    } else {
        None
    }
}

fn parse_msg_by_lookup(body: &str) -> (r: Option<&'static str>)
    ensures
        opt_text(r) == core_message(body@),
{
    if text_eq(body, "BFR") {
        Some("Callback before()")
    } else if text_eq(body, "STP") {
        Some("Callback setup()")
    } else if text_eq(body, "TSP FAIL") {
        Some("Xport Init Failed")
    } else if text_eq(body, "TSL") {
        Some("Xport Sleep")
    } else if text_eq(body, "REQ") {
        Some("Registration Request")
    } else if text_eq(body, "NTL") {
        Some("Can't Sleep - no time left")
    } else if text_eq(body, "FWUPD") {
        Some("Can't Sleep - FW updating")
    } else if text_eq(body, "REP") {
        Some("Can't Sleep - repeater node")
    } else if text_eq(body, "TNR") {
        Some("Xport Not Ready - attempting reconnect")
    } else {
        None
    }
}

/// The place for readers of shaped core message bodies. The domain defines none yet, so
/// every body goes on to the dictionary.
fn parse_msg_into_human(body: &str) -> (r: Option<String>)
    ensures
        r is None,
{
    None
}

/// The subsystem code at the head of `i`: its first three characters, where they are a
/// core code.
pub open spec fn spec_core_code(i: Seq<char>) -> Result<(Seq<char>, Seq<char>), ErrorView> {
    if i.len() >= 3 && core_subsystem(i.take(3)) is Some {
        Ok((i.skip(3), i.take(3)))
    } else {
        Err(ErrorView::Syntax(i, ErrorKind::Tag))
    }
}

/// Reads the core subsystem code at the head of `i`, returning the rest and the code.
pub fn parse_subsystem<'a>(i: &'a str) -> (r: Result<(&'a str, &'a str), LogParseError>)
    ensures
        split_view(r) == spec_core_code(i@),
{
    let n = i.unicode_len();
    if n >= 3 {
        let code = i.substring_char(0, 3);
        if core_subsystem_lookup(code).is_some() {
            return Ok((tail_from(i, 3), code));
        }
    }
    Err(syntax_error(i, ErrorKind::Tag))
}

/// A core message `MCO:<code>:<body>`: the subsystem's name, and the body's readable text
/// where the dictionary has one, else the body as it is.
pub open spec fn spec_parse_core(i: Seq<char>) -> Result<(Seq<char>, MessageView), ErrorView> {
    if !occurs_at(i, 0, "MCO:"@) {
        Err(ErrorView::Syntax(i, ErrorKind::Tag))
    } else {
        match spec_core_code(i.skip(4)) {
            Err(e) => Err(e),
            Ok((rest, code)) => if !occurs_at(rest, 0, ":"@) {
                Err(ErrorView::Syntax(rest, ErrorKind::Tag))
            } else {
                let body = rest.skip(1);
                domain_message(
                    "Core"@,
                    core_subsystem(code).unwrap(),
                    match core_message(body) {
                        Some(m) => m,
                        None => body,
                    },
                )
            },
        }
    }
}

/// Reads a core message.
pub fn parse_core<'a>(i: &'a str) -> (r: Result<(&'a str, ParsedMessage), LogParseError>)
    ensures
        message_outcome(r) == spec_parse_core(i@),
{
    proof {
        reveal_strlit("MCO:");
        reveal_strlit(":");
    }
    if !text_occurs_at(i, 0, "MCO:") {
        return Err(syntax_error(i, ErrorKind::Tag));
    }
    let after = tail_from(i, 4);
    let (rest, code) = match parse_subsystem(after) {
        Ok(x) => x,
        Err(e) => return Err(e),
    };
    if !text_occurs_at(rest, 0, ":") {
        return Err(syntax_error(rest, ErrorKind::Tag));
    }
    // The code that `parse_subsystem` read is one of the dictionary's.
    let subsystem = match core_subsystem_lookup(code) {
        Some(s) => s,
        None => return Err(syntax_error(after, ErrorKind::Tag)),
    };
    let body = tail_from(rest, 1);
    let text = match parse_msg_into_human(body) {
        Some(m) => m,
        None => match parse_msg_by_lookup(body) {
            Some(m) => String::from_str(m),
            None => String::from_str(body),
        },
    };
    domain_result(i, "Core", subsystem, text)
}

} // verus!
