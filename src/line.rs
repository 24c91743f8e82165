//! Whole log lines: `<datetime> <level><blanks><message>`, read into records that always
//! render, degrading to the raw line where any part of the grammar fails.
use vstd::prelude::*;

use crate::datetime::{
    head_view, local_now, parse_datetime, spec_datetime, timestamp_text, CalendarDate, Timestamp,
};
use crate::error::{syntax_error, ErrorKind, ErrorView, LogParseError};
use crate::message::{parse_message, render_message, spec_parse_message};
use crate::text::{opt_string, run_len, scan_run, tail_from, text_between, CharClass};

verus! {

/// A log line as read: timestamp and level are both present, or both absent with the
/// message holding the raw line.
#[derive(Clone, Debug, PartialEq, Eq)]
pub struct LogLine {
    pub datetime: Option<Timestamp>,
    pub level: Option<String>,
    pub msg: String,
}

/// The model of a [`LogLine`].
pub struct LineView {
    pub datetime: Option<Timestamp>,
    pub level: Option<Seq<char>>,
    pub msg: Seq<char>,
}

impl LogLine {
    pub open spec fn view(&self) -> LineView {
        LineView { datetime: self.datetime, level: opt_string(self.level), msg: self.msg@ }
    }

    /// Renders the line: the timestamp, the level padded to six columns and the message,
    /// where timestamp and level are present; else the message alone.
    pub fn render(&self) -> (r: String)
        requires
            self.datetime matches Some(t) ==> t.wf(),
        ensures
            r@ == render_line(self.view()),
    {
        match (&self.datetime, &self.level) {
            (Some(t), Some(level)) => {
                proof {
                    reveal_strlit(" ");
                }
                let mut out = t.render();
                out.append(" ");
                out.append(level.as_str());
                let ghost start = out@;
                let n = level.as_str().unicode_len();
                let mut k: usize = n;
                while k < 6
                    invariant
                        n == level@.len(),
                        n <= k <= 6 || (n > 6 && k == n),
                        out@ == start + Seq::new((k - n) as nat, |j: int| ' '),
                    decreases 6 - k,
                {
                    proof {
                        reveal_strlit(" ");
                    }
                    out.append(" ");
                    k = k + 1;
                    assert(out@ =~= start + Seq::new((k - n) as nat, |j: int| ' '));
                }
                out.append(" ");
                out.append(self.msg.as_str());
                assert(out@ =~= render_line(self.view()));
                out
            },
            _ => self.msg.clone(),
        }
    }
}

impl Default for LogLine {
    /// A line stamped now, at level `INFO`, with an empty message.
    fn default() -> (r: LogLine)
        ensures
            r.datetime matches Some(t) && t.wf(),
            r.level matches Some(l) && l@ == "INFO"@,
            r.msg@ == Seq::<char>::empty(),
    {
        LogLine {
            datetime: Some(local_now()),
            level: Some(String::from_str("INFO")),
            msg: String::new(),
        }
    }
}

/// `s` with spaces after it up to `width` characters.
pub open spec fn pad_right(s: Seq<char>, width: nat) -> Seq<char> {
    if s.len() < width {
        s + Seq::new((width - s.len()) as nat, |j: int| ' ')
    } else {
        s
    }
}

pub open spec fn render_line(l: LineView) -> Seq<char> {
    match (l.datetime, l.level) {
        (Some(t), Some(level)) => timestamp_text(t) + seq![' '] + pad_right(level, 6) + seq![' ']
            + l.msg,
        _ => l.msg,
    }
}

/// What follows the head's date and time: one space, a run of letters for the level and a
/// run of blanks. The message that remains, and the level.
pub open spec fn spec_level(r1: Seq<char>) -> Result<(Seq<char>, Seq<char>), ErrorView> {
    if r1.len() == 0 || r1[0] != ' ' {
        Err(ErrorView::Syntax(r1, ErrorKind::OneOf))
    } else {
        let r2 = r1.skip(1);
        let a = run_len(r2, 0, CharClass::Alpha) as int;
        let r3 = r2.skip(a);
        let b = run_len(r3, 0, CharClass::Blank) as int;
        if a == 0 {
            Err(ErrorView::Syntax(r2, ErrorKind::Alpha))
        } else if b == 0 {
            Err(ErrorView::Syntax(r3, ErrorKind::Space))
        } else {
            Ok((r3.skip(b), r2.take(a)))
        }
    }
}

/// A line whose head read as `head`: the record, or the error.
pub open spec fn spec_log_from(head: Result<(Seq<char>, Timestamp), ErrorView>) -> Result<
    (Seq<char>, LineView),
    ErrorView,
> {
    match head {
        Err(e) => Err(e),
        Ok((r1, t)) => match spec_level(r1) {
            Err(e) => Err(e),
            Ok((m, level)) => match spec_parse_message(m) {
                Err(e) => Err(e),
                Ok((_, pm)) => Ok(
                    (
                        Seq::empty(),
                        LineView { datetime: Some(t), level: Some(level), msg: render_message(pm) },
                    ),
                ),
            },
        },
    }
}

/// The line `i` read on the day `today`, where `unique` tells whether the local time zone
/// names the time read exactly once.
pub open spec fn spec_parse_log(i: Seq<char>, today: CalendarDate, unique: bool) -> Result<
    (Seq<char>, LineView),
    ErrorView,
> {
    spec_log_from(spec_datetime(i, today, unique))
}

/// The record of the line `i`: the one read, or the raw line where reading failed.
pub open spec fn spec_parse_log_line(i: Seq<char>, today: CalendarDate, unique: bool) -> LineView {
    match spec_parse_log(i, today, unique) {
        Ok((_, l)) => l,
        Err(_) => LineView { datetime: None, level: None, msg: i },
    }
}

/// The model of what the line reader returns.
pub open spec fn line_outcome<'a>(r: Result<(&'a str, LogLine), LogParseError>) -> Result<
    (Seq<char>, LineView),
    ErrorView,
> {
    match r {
        Ok((rest, l)) => Ok((rest@, l.view())),
        Err(e) => Err(e.view()),
    }
}

/// Reads the level and the message of a line whose date and time read as `head`, as
/// [`parse_datetime`] or [`crate::datetime::parse_datetime_on`] return it.
pub fn parse_after_datetime<'a>(head: Result<(&'a str, Timestamp), LogParseError>) -> (r: Result<
    (&'a str, LogLine),
    LogParseError,
>)
    requires
        head matches Ok((_, t)) ==> t.wf(),
    ensures
        line_outcome(r) == spec_log_from(head_view(head)),
        r matches Ok((_, l)) ==> (l.datetime matches Some(t) && t.wf()),
{
    let (r1, t) = match head {
        Ok(x) => x,
        Err(e) => return Err(e),
    };
    let n1 = r1.unicode_len();
    if n1 == 0 || r1.get_char(0) != ' ' {
        return Err(syntax_error(r1, ErrorKind::OneOf));
    }
    let r2 = tail_from(r1, 1);
    let a = scan_run(r2, 0, CharClass::Alpha);
    if a == 0 {
        return Err(syntax_error(r2, ErrorKind::Alpha));
    }
    let level = text_between(r2, 0, a);
    let r3 = tail_from(r2, a);
    let b = scan_run(r3, 0, CharClass::Blank);
    if b == 0 {
        return Err(syntax_error(r3, ErrorKind::Space));
    }
    let m = tail_from(r3, b);
    let (end, pm) = match parse_message(m) {
        Ok(x) => x,
        Err(e) => return Err(e),
    };
    Ok((end, LogLine { datetime: Some(t), level: Some(level), msg: pm.render() }))
}

/// Reads a whole log line. Whatever the clock and the time zone give, the result is the
/// model's for some valid day and some answer of the zone.
pub fn parse_log<'a>(i: &'a str) -> (r: Result<(&'a str, LogLine), LogParseError>)
    ensures
        exists|today: CalendarDate, unique: bool|
            today.wf() && line_outcome(r) == #[trigger] spec_parse_log(i@, today, unique),
        r matches Ok((_, l)) ==> (l.datetime matches Some(t) && t.wf()),
{
    let head = parse_datetime(i);
    let ghost (today, unique) = choose|today: CalendarDate, unique: bool|
        today.wf() && head_view(head) == spec_datetime(i@, today, unique);
    let r = parse_after_datetime(head);
    assert(line_outcome(r) == spec_parse_log(i@, today, unique));
    r
}

/// Reads a log line into a record, never failing: where any part of the grammar does not
/// match, the record has neither timestamp nor level and its message is the raw line.
pub fn parse_log_line(i: &str) -> (r: LogLine)
    ensures
        exists|today: CalendarDate, unique: bool|
            today.wf() && r.view() == #[trigger] spec_parse_log_line(i@, today, unique),
        r.datetime is Some <==> r.level is Some,
        r.datetime is None ==> r.msg@ == i@,
        r.datetime matches Some(t) ==> t.wf(),
{
    let parsed = parse_log(i);
    let ghost (today, unique) = choose|today: CalendarDate, unique: bool|
        today.wf() && line_outcome(parsed) == spec_parse_log(i@, today, unique);
    let r = match parsed {
        Ok((_, l)) => l,
        Err(_) => LogLine { datetime: None, level: None, msg: String::from_str(i) },
    };
    assert(r.view() == spec_parse_log_line(i@, today, unique));
    r
}

} // verus!
