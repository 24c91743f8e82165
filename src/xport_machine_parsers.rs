//! The transport state-machine domain: messages tagged `TSM:` and a subsystem code of
//! any width, up to the next colon. Three shapes of body are read into sentences.
use vstd::prelude::*;

use crate::error::{syntax_error, ErrorKind, ErrorView, LogParseError};
use crate::message::{domain_message, domain_result, message_outcome, MessageView, ParsedMessage};
use crate::text::{
    occurs_at, opt_string, opt_text, run_len, scan_run, tail_from, text_between, text_eq,
    text_occurs_at, CharClass,
};

verus! {

/// The state-machine subsystem that the code `code` names.
pub open spec fn xport_machine_subsystem(code: Seq<char>) -> Option<Seq<char>> {
    if code == "FAIL"@ {
        Some("FAIL"@)
    } else if code == "FPAR"@ {
        Some("FindParent"@)
    } else if code == "ID"@ {
        Some("ID"@)
    } else if code == "INIT"@ {
        Some("INIT"@)
    } else if code == "READY"@ {
        Some("READY"@)
    } else if code == "UPL"@ {
        Some("UPLINK"@)
    } else {
        None
    }
}

fn xport_machine_subsystem_lookup(code: &str) -> (r: Option<&'static str>)
    ensures
        opt_text(r) == xport_machine_subsystem(code@),
{
    if text_eq(code, "FAIL") {
        Some("FAIL")
    } else if text_eq(code, "FPAR") {
        Some("FindParent")
    } else if text_eq(code, "ID") {
        Some("ID")
    } else if text_eq(code, "INIT") {
        Some("INIT")
    } else if text_eq(code, "READY") {
        Some("READY")
    } else if text_eq(code, "UPL") {
        Some("UPLINK")
    } else {
        None
    }
}

/// The codes of the state-machine subsystems, as an error reports them.
pub open spec fn xport_machine_codes() -> Seq<char> {
    "FAIL, FPAR, ID, INIT, READY, UPL"@
}

fn xport_machine_codes_text() -> (r: &'static str)
    ensures
        r@ == xport_machine_codes(),
{
    "FAIL, FPAR, ID, INIT, READY, UPL"
}

/// The readable text of a state-machine message body, where the body is a known one.
pub open spec fn xport_machine_message(body: Seq<char>) -> Option<Seq<char>> {
    if body == "DIS"@ {
        Some("Xport Disable"@)
    } else if body == "TSP OK"@ {
        Some("Xport Configured & Fully Operational"@)
    } else if body == "TSP PSM"@ {
        Some("Xport PassiveMode set"@)
    } else if body == "TSP FAIL"@ {
        Some("Xport Init Failed"@)
    } else if body == "SRT"@ {
        Some("Save Routing Table"@)
    } else if body == "UPL FAIL,SNP"@ {
        Some("Fail count exceeded - search new parent"@)
    } else if body == "FAIL,STATP"@ {
        Some("Fail count exceeded - static parent enforced"@)
    } else if body == "OK"@ {
        Some("UL OK, GW returned ping"@)
    } else if body == "FAIL"@ {
        Some("UL Check FAILED - GW Ping Failed"@)
    } else if body == "NWD REQ"@ {
        Some("Send xport network discovery request"@)
    } else {
        None
    }
}

fn parse_msg_by_lookup(body: &str) -> (r: Option<&'static str>)
    ensures
        opt_text(r) == xport_machine_message(body@),
{
    if text_eq(body, "DIS") {
        Some("Xport Disable")
    } else if text_eq(body, "TSP OK") {
        Some("Xport Configured & Fully Operational")
    } else if text_eq(body, "TSP PSM") {
        Some("Xport PassiveMode set")
    } else if text_eq(body, "TSP FAIL") {
        Some("Xport Init Failed")
    } else if text_eq(body, "SRT") {
        Some("Save Routing Table")
    } else if text_eq(body, "UPL FAIL,SNP") {
        Some("Fail count exceeded - search new parent")
    } else if text_eq(body, "FAIL,STATP") {
        Some("Fail count exceeded - static parent enforced")
    } else if text_eq(body, "OK") {
        Some("UL OK, GW returned ping")
    } else if text_eq(body, "FAIL") {
        Some("UL Check FAILED - GW Ping Failed")
    } else if text_eq(body, "NWD REQ") {
        Some("Send xport network discovery request")
    } else {
        None
    }
}

/// The run of digits of `s` that starts at `k`.
pub open spec fn digits_at(s: Seq<char>, k: int) -> Seq<char> {
    s.subrange(k, k + run_len(s, k, CharClass::Digit))
}

/// Whether the tag `t` stands at `k` in `s` and one digit or more follow it.
pub open spec fn tagged_number_at(s: Seq<char>, k: int, t: Seq<char>) -> bool {
    occurs_at(s, k, t) && run_len(s, k + t.len(), CharClass::Digit) > 0
}

/// Reads the tag `t` and the number after it at position `k` of `s`: the digits and the
/// position after them.
fn read_tagged_number(s: &str, k: usize, t: &str) -> (r: Option<(String, usize)>)
    requires
        k <= s@.len(),
    ensures
        match r {
            Some((digits, next)) => tagged_number_at(s@, k as int, t@) && digits@ == digits_at(
                s@,
                k + t@.len(),
            ) && next == k + t@.len() + run_len(s@, k + t@.len(), CharClass::Digit) && next
                <= s@.len(),
            None => !tagged_number_at(s@, k as int, t@),
        },
{
    // The length of `s` bounds the positions computed below.
    let _len = s.unicode_len();
    if !text_occurs_at(s, k, t) {
        return None;
    }
    let from = k + t.unicode_len();
    let len = scan_run(s, from, CharClass::Digit);
    if len == 0 {
        return None;
    }
    Some((text_between(s, from, from + len), from + len))
}

/// `FAIL,ID=<digits>`: an identifier that failed verification.
pub open spec fn spec_id_verification_failed(b: Seq<char>) -> Option<Seq<char>> {
    if tagged_number_at(b, 0, "FAIL,ID="@) {
        Some(
            "ID ("@ + digits_at(b, "FAIL,ID="@.len() as int)
                + ") invalid / verification failed / no ID received from controller"@,
        )
    } else {
        None
    }
}

fn parse_id_verification_failed(b: &str) -> (r: Option<String>)
    ensures
        opt_string(r) == spec_id_verification_failed(b@),
{
    match read_tagged_number(b, 0, "FAIL,ID=") {
        Some((id, _)) => {
            let mut m = String::from_str("ID (");
            m.append(id.as_str());
            m.append(") invalid / verification failed / no ID received from controller");
            Some(m)
        },
        None => None,
    }
}

/// `STATID=<digits>`: a static identifier.
pub open spec fn spec_static_id(b: Seq<char>) -> Option<Seq<char>> {
    if tagged_number_at(b, 0, "STATID="@) {
        Some("Static ID ("@ + digits_at(b, "STATID="@.len() as int) + ")"@)
    } else {
        None
    }
}

fn parse_static_id(b: &str) -> (r: Option<String>)
    ensures
        opt_string(r) == spec_static_id(b@),
{
    match read_tagged_number(b, 0, "STATID=") {
        Some((id, _)) => {
            let mut m = String::from_str("Static ID (");
            m.append(id.as_str());
            m.append(")");
            Some(m)
        },
        None => None,
    }
}

/// `ID=<digits>,PAR=<digits>,DIS=<digits>`: a node ready, with its parent and its
/// distance from the gateway.
pub open spec fn spec_transition_ready(b: Seq<char>) -> Option<Seq<char>> {
    let p: int = "ID="@.len() + run_len(b, "ID="@.len() as int, CharClass::Digit) as int;
    let q: int = p + ",PAR="@.len() + run_len(b, p + ",PAR="@.len(), CharClass::Digit);
    if tagged_number_at(b, 0, "ID="@) && tagged_number_at(b, p, ",PAR="@) && tagged_number_at(
        b,
        q,
        ",DIS="@,
    ) {
        Some(
            "READY: node ID ("@ + digits_at(b, "ID="@.len() as int) + ") parent ID ("@
                + digits_at(b, p + ",PAR="@.len()) + ") GW distance ("@ + digits_at(
                b,
                q + ",DIS="@.len(),
            ) + ")"@,
        )
    } else {
        None
    }
}

fn parse_transition_ready(b: &str) -> (r: Option<String>)
    ensures
        opt_string(r) == spec_transition_ready(b@),
{
    let (id, p) = match read_tagged_number(b, 0, "ID=") {
        Some(x) => x,
        None => return None,
    };
    let (parent, q) = match read_tagged_number(b, p, ",PAR=") {
        Some(x) => x,
        None => return None,
    };
    let (distance, _) = match read_tagged_number(b, q, ",DIS=") {
        Some(x) => x,
        None => return None,
    };
    let mut m = String::from_str("READY: node ID (");
    m.append(id.as_str());
    m.append(") parent ID (");
    m.append(parent.as_str());
    m.append(") GW distance (");
    m.append(distance.as_str());
    m.append(")");
    Some(m)
}

/// The sentence of the first shaped reader that takes the body, if any.
pub open spec fn spec_msg_into_human(b: Seq<char>) -> Option<Seq<char>> {
    match spec_id_verification_failed(b) {
        Some(m) => Some(m),
        None => match spec_static_id(b) {
            Some(m) => Some(m),
            None => spec_transition_ready(b),
        },
    }
}

fn parse_msg_into_human(b: &str) -> (r: Option<String>)
    ensures
        opt_string(r) == spec_msg_into_human(b@),
{
    match parse_id_verification_failed(b) {
        Some(m) => Some(m),
        None => match parse_static_id(b) {
            Some(m) => Some(m),
            None => parse_transition_ready(b),
        },
    }
}

/// The width of the subsystem code at the head of `a`: up to the first colon where there
/// is one, else the run of letters.
pub open spec fn code_width(a: Seq<char>) -> nat {
    if run_len(a, 0, CharClass::NotColon) < a.len() {
        run_len(a, 0, CharClass::NotColon)
    } else {
        run_len(a, 0, CharClass::Alpha)
    }
}

/// The text that a state-machine message with no body stands for.
pub open spec fn state_transition() -> Seq<char> {
    "State Transition"@
}

/// A state-machine message `TSM:<code>` or `TSM:<code>:<body>`: the subsystem's name and
/// the body read by the first shaped reader that takes it, else the dictionary's text,
/// else the body as it is. Without a body the body is a state transition.
pub open spec fn spec_parse_xport_machine(i: Seq<char>) -> Result<
    (Seq<char>, MessageView),
    ErrorView,
> {
    if !occurs_at(i, 0, "TSM:"@) {
        Err(ErrorView::Syntax(i, ErrorKind::Tag))
    } else {
        let after = i.skip(4);
        let code = after.take(code_width(after) as int);
        let rest = after.skip(code_width(after) as int);
        if xport_machine_subsystem(code) is None {
            Err(ErrorView::SubSystem(code, xport_machine_codes()))
        } else if rest.len() > 0 && !occurs_at(rest, 0, ":"@) {
            Err(ErrorView::Syntax(rest, ErrorKind::Tag))
        } else {
            let body = if rest.len() == 0 {
                state_transition()
            } else {
                rest.skip(1)
            };
            domain_message(
                "XportSM"@,
                xport_machine_subsystem(code).unwrap(),
                match spec_msg_into_human(body) {
                    Some(m) => m,
                    None => match xport_machine_message(body) {
                        Some(m) => m,
                        None => body,
                    },
                },
            )
        }
    }
}

/// Reads a state-machine message.
pub fn parse_xport_machine<'a>(i: &'a str) -> (r: Result<(&'a str, ParsedMessage), LogParseError>)
    ensures
        message_outcome(r) == spec_parse_xport_machine(i@),
{
    proof {
        reveal_strlit("TSM:");
        reveal_strlit(":");
    }
    if !text_occurs_at(i, 0, "TSM:") {
        return Err(syntax_error(i, ErrorKind::Tag));
    }
    let after = tail_from(i, 4);
    let n = after.unicode_len();
    let to_colon = scan_run(after, 0, CharClass::NotColon);
    let width = if to_colon < n {
        to_colon
    } else {
        scan_run(after, 0, CharClass::Alpha)
    };
    let code = after.substring_char(0, width);
    let rest = tail_from(after, width);
    let subsystem = match xport_machine_subsystem_lookup(code) {
        Some(s) => s,
        None => {
            return Err(
                LogParseError::SubSystemError(
                    String::from_str(code),
                    String::from_str(xport_machine_codes_text()),
                ),
            )
        },
    };
    let body: &str = if rest.unicode_len() == 0 {
        "State Transition"
    } else if text_occurs_at(rest, 0, ":") {
        tail_from(rest, 1)
    } else {
        return Err(syntax_error(rest, ErrorKind::Tag));
    };
    let text = match parse_msg_into_human(body) {
        Some(m) => m,
        None => match parse_msg_by_lookup(body) {
            Some(m) => String::from_str(m),
            None => String::from_str(body),
        },
    };
    domain_result(i, "XportSM", subsystem, text)
}

} // verus!
