//! Laws of the dispatcher and the line reader, stated over their models.
use vstd::prelude::*;

use crate::core_parsers::core_subsystem;
use crate::datetime::{spec_datetime, CalendarDate};
use crate::line::{spec_level, spec_parse_log, spec_parse_log_line, LineView};
use crate::message::{marker_status, spec_parse_message, spec_status, MessageView, SendStatus};
use crate::xport_function_parsers::xport_function_subsystem;

verus! {

proof fn lemma_domain_tags()
    ensures
        "MCO:"@ == seq!['M', 'C', 'O', ':'],
        "GWT:"@ == seq!['G', 'W', 'T', ':'],
        "TSF:"@ == seq!['T', 'S', 'F', ':'],
        "TSM:"@ == seq!['T', 'S', 'M', ':'],
        ":"@ == seq![':'],
        marker_status(seq!['M']) is None,
        marker_status(seq!['T']) is None,
        "!"@.len() == 1 && "?"@.len() == 1,
{
    reveal_strlit("MCO:");
    reveal_strlit("GWT:");
    reveal_strlit("TSF:");
    reveal_strlit("TSM:");
    reveal_strlit(":");
    reveal_strlit("!");
    reveal_strlit("?");
    assert("MCO:"@ =~= seq!['M', 'C', 'O', ':']);
    assert("GWT:"@ =~= seq!['G', 'W', 'T', ':']);
    assert("TSF:"@ =~= seq!['T', 'S', 'F', ':']);
    assert("TSM:"@ =~= seq!['T', 'S', 'M', ':']);
    assert(":"@ =~= seq![':']);
    assert(seq!['M'][0] != "!"@[0] && seq!['M'][0] != "?"@[0]);
    assert(seq!['T'][0] != "!"@[0] && seq!['T'][0] != "?"@[0]);
}

/// A message body tagged as core whose three-character code names no core subsystem is
/// taken by no domain: the body stays whole and unclassified.
pub proof fn lemma_unknown_core_code_passes_through(code: Seq<char>, tail: Seq<char>)
    requires
        code.len() == 3,
        core_subsystem(code) is None,
    ensures
        spec_parse_message("MCO:"@ + code + tail) == Ok::<_, crate::error::ErrorView>(
            (
                Seq::<char>::empty(),
                MessageView {
                    status: SendStatus::OK,
                    system: None,
                    subsystem: None,
                    msg: "MCO:"@ + code + tail,
                },
            ),
        ),
{
    lemma_domain_tags();
    let i = "MCO:"@ + code + tail;
    assert(i[0] == 'M');
    assert(i.take(1) =~= seq!['M']);
    assert(spec_status(i) == (SendStatus::OK, i));
    assert(i.subrange(0, 4) =~= "MCO:"@);
    assert(i.skip(4).take(3) =~= code);
    assert(i.subrange(0, 4)[0] != "GWT:"@[0]);
    assert(i.subrange(0, 4)[0] != "TSF:"@[0]);
    assert(i.subrange(0, 4)[0] != "TSM:"@[0]);
}

/// A line whose message, after an optional status marker, is tagged as transport
/// function with a three-character code that names no such subsystem degrades whole:
/// no timestamp, no level, and the raw line as its message.
pub proof fn lemma_unknown_xport_function_code_degrades(
    i: Seq<char>,
    today: CalendarDate,
    unique: bool,
    marker: Seq<char>,
    code: Seq<char>,
    tail: Seq<char>,
)
    requires
        marker.len() == 0 || marker_status(marker) is Some,
        code.len() == 3,
        xport_function_subsystem(code) is None,
        spec_datetime(i, today, unique) matches Ok((after_head, _)) && spec_level(after_head)
            matches Ok((message, _)) && message == marker + "TSF:"@ + code + tail,
    ensures
        spec_parse_log_line(i, today, unique) == (LineView { datetime: None, level: None, msg: i }),
{
    lemma_domain_tags();
    let m = "TSF:"@ + code + tail;
    let message = marker + m;
    assert(marker + "TSF:"@ + code + tail =~= message);
    if marker.len() == 0 {
        assert(message =~= m);
        assert(message.take(1) =~= seq!['T']);
        assert(spec_status(message) == (SendStatus::OK, m));
    } else {
        assert(message.take(1) =~= marker);
        assert(message.skip(1) =~= m);
    }
    assert(spec_status(message).1 == m);
    assert(m.subrange(0, 4) =~= "TSF:"@);
    assert(m.skip(4).take(3) =~= code);
    assert(m.subrange(0, 4)[0] != "MCO:"@[0]);
    assert(m.subrange(0, 4)[0] != "GWT:"@[0]);
    assert(spec_parse_message(message) is Err);
    assert(spec_parse_log(i, today, unique) is Err);
}

} // verus!
