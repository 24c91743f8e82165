//! Classified messages, and the dispatcher that hands a message body to the domain
//! that emitted it.
use vstd::prelude::*;

use crate::core_parsers::{parse_core, spec_parse_core};
use crate::error::{ErrorView, LogParseError};
use crate::gateway_parsers::{parse_gateway, spec_parse_gateway};
use crate::text::{opt_string, tail_from};
use crate::xport_function_parsers::{parse_xport_function, spec_parse_xport_function};
use crate::xport_machine_parsers::{parse_xport_machine, spec_parse_xport_machine};

verus! {

/// The status marker that may lead a message body.
#[derive(Clone, Copy, Debug, PartialEq, Eq)]
pub enum SendStatus {
    /// No marker.
    OK,
    /// The marker `!`.
    ERROR,
    /// The marker `?`.
    UNKNOWN,
}

/// The status that the marker text `s` stands for, if any.
pub open spec fn marker_status(s: Seq<char>) -> Option<SendStatus> {
    if s == "!"@ {
        Some(SendStatus::ERROR)
    } else if s == "?"@ {
        Some(SendStatus::UNKNOWN)
    } else {
        None
    }
}

impl SendStatus {
    /// Reads a status marker: `!` is an error, `?` is unknown, and any other text is
    /// refused with a message that quotes it.
    pub fn from_marker(s: &str) -> (r: Result<SendStatus, String>)
        ensures
            match marker_status(s@) {
                Some(st) => r == Ok::<SendStatus, String>(st),
                None => r matches Err(m) && m@ == "'"@ + s@
                    + "' is not a valid value for SendStatus"@,
            },
    {
        if crate::text::text_eq(s, "!") {
            Ok(SendStatus::ERROR)
        } else if crate::text::text_eq(s, "?") {
            Ok(SendStatus::UNKNOWN)
        } else {
            let mut m = String::from_str("'");
            m.append(s);
            m.append("' is not a valid value for SendStatus");
            Err(m)
        }
    }
}

impl std::str::FromStr for SendStatus {
    type Err = String;

    fn from_str(s: &str) -> Result<SendStatus, String> {
        SendStatus::from_marker(s)
    }
}

/// A message body with the system and subsystem that emitted it spelled out.
#[derive(Clone, Debug, PartialEq, Eq)]
pub struct ParsedMessage {
    pub send_status: SendStatus,
    pub system: Option<String>,
    pub subsystem: Option<String>,
    pub msg: String,
}

/// The model of a [`ParsedMessage`].
pub struct MessageView {
    pub status: SendStatus,
    pub system: Option<Seq<char>>,
    pub subsystem: Option<Seq<char>>,
    pub msg: Seq<char>,
}

impl ParsedMessage {
    pub open spec fn view(&self) -> MessageView {
        MessageView {
            status: self.send_status,
            system: opt_string(self.system),
            subsystem: opt_string(self.subsystem),
            msg: self.msg@,
        }
    }

    /// Renders the message: `system:subsystem:body` where both names are present, else
    /// the body alone.
    pub fn render(&self) -> (r: String)
        ensures
            r@ == render_message(self.view()),
    {
        match (&self.system, &self.subsystem) {
            (Some(system), Some(subsystem)) => {
                let mut out = system.clone();
                out.append(":");
                out.append(subsystem.as_str());
                out.append(":");
                out.append(self.msg.as_str());
                out
            },
            _ => self.msg.clone(),
        }
    }
}

pub open spec fn render_message(m: MessageView) -> Seq<char> {
    match (m.system, m.subsystem) {
        (Some(system), Some(subsystem)) => system + ":"@ + subsystem + ":"@ + m.msg,
        _ => m.msg,
    }
}

/// The model of a reader that returns the rest of its input and a classified message.
pub open spec fn message_outcome<'a>(r: Result<(&'a str, ParsedMessage), LogParseError>) -> Result<
    (Seq<char>, MessageView),
    ErrorView,
> {
    match r {
        Ok((rest, m)) => Ok((rest@, m.view())),
        Err(e) => Err(e.view()),
    }
}

/// The message that a domain emits: its system name, the subsystem name, and the body,
/// with the status left unknown until the dispatcher sets it.
pub open spec fn domain_message(system: Seq<char>, subsystem: Seq<char>, body: Seq<char>) -> Result<
    (Seq<char>, MessageView),
    ErrorView,
> {
    Ok(
        (
            Seq::empty(),
            MessageView {
                status: SendStatus::UNKNOWN,
                system: Some(system),
                subsystem: Some(subsystem),
                msg: body,
            },
        ),
    )
}

/// Builds what a domain reader returns on a match; `i` is its whole input.
pub fn domain_result<'a>(i: &'a str, system: &str, subsystem: &str, body: String) -> (r: Result<
    (&'a str, ParsedMessage),
    LogParseError,
>)
    ensures
        message_outcome(r) == domain_message(system@, subsystem@, body@),
{
    let rest = tail_from(i, i.unicode_len());
    assert(rest@ =~= Seq::<char>::empty());
    Ok(
        (
            rest,
            ParsedMessage {
                send_status: SendStatus::UNKNOWN,
                system: Some(String::from_str(system)),
                subsystem: Some(String::from_str(subsystem)),
                msg: body,
            },
        ),
    )
}

/// The status marker at the head of a message body, and the body after it.
pub open spec fn spec_status(i: Seq<char>) -> (SendStatus, Seq<char>) {
    if i.len() >= 1 && marker_status(i.take(1)) is Some {
        (marker_status(i.take(1)).unwrap(), i.skip(1))
    } else {
        (SendStatus::OK, i)
    }
}

/// The domain's message `m`, with the status `status` set.
pub open spec fn stamped(status: SendStatus, m: MessageView) -> Result<
    (Seq<char>, MessageView),
    ErrorView,
> {
    Ok(
        (
            Seq::empty(),
            MessageView { status, system: m.system, subsystem: m.subsystem, msg: m.msg },
        ),
    )
}

/// A message body: its status marker, then the first domain that takes the rest, in the
/// order core, gateway, transport function, state machine. An unknown transport-function
/// subsystem is an error; where no domain takes the rest, it is the body as it is.
pub open spec fn spec_parse_message(i: Seq<char>) -> Result<(Seq<char>, MessageView), ErrorView> {
    let (status, rest) = spec_status(i);
    match spec_parse_core(rest) {
        Ok((_, m)) => stamped(status, m),
        Err(_) => match spec_parse_gateway(rest) {
            Ok((_, m)) => stamped(status, m),
            Err(_) => match spec_parse_xport_function(rest) {
                Ok((_, m)) => stamped(status, m),
                Err(ErrorView::SubSystem(found, allowed)) => Err(
                    ErrorView::SubSystem(found, allowed),
                ),
                Err(_) => match spec_parse_xport_machine(rest) {
                    Ok((_, m)) => stamped(status, m),
                    Err(_) => stamped(
                        status,
                        MessageView { status, system: None, subsystem: None, msg: rest },
                    ),
                },
            },
        },
    }
}

/// Reads a message body.
pub fn parse_message<'a>(i: &'a str) -> (r: Result<(&'a str, ParsedMessage), LogParseError>)
    ensures
        message_outcome(r) == spec_parse_message(i@),
{
    let n = i.unicode_len();
    let (status, rest) = if n >= 1 {
        match SendStatus::from_marker(i.substring_char(0, 1)) {
            Ok(st) => (st, tail_from(i, 1)),
            Err(_) => (SendStatus::OK, i),
        }
    } else {
        (SendStatus::OK, i)
    };
    let found = match parse_core(rest) {
        Ok((_, m)) => Some(m),
        Err(_) => match parse_gateway(rest) {
            Ok((_, m)) => Some(m),
            Err(_) => match parse_xport_function(rest) {
                Ok((_, m)) => Some(m),
                Err(LogParseError::SubSystemError(found, allowed)) => {
                    return Err(LogParseError::SubSystemError(found, allowed));
                },
                Err(_) => match parse_xport_machine(rest) {
                    Ok((_, m)) => Some(m),
                    Err(_) => None,
                },
            },
        },
    };
    let message = match found {
        Some(m) => ParsedMessage {
            send_status: status,
            system: m.system,
            subsystem: m.subsystem,
            msg: m.msg,
        },
        None => ParsedMessage {
            send_status: status,
            system: None,
            subsystem: None,
            msg: String::from_str(rest),
        },
    };
    let end = tail_from(i, n);
    assert(end@ =~= Seq::<char>::empty());
    Ok((end, message))
}

} // verus!
