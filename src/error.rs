//! Errors of the grammar, and their mathematical model.
use vstd::prelude::*;

verus! {

/// Which rule of the grammar failed to match.
#[derive(Clone, Copy, Debug, PartialEq, Eq)]
pub enum ErrorKind {
    /// A literal tag was absent.
    Tag,
    /// A single expected character was absent.
    OneOf,
    /// The input ended before a fixed-width field was complete.
    Eof,
    /// A run of letters was empty.
    Alpha,
    /// A run of blanks was empty.
    Space,
}

/// An error of the grammar, carrying the offending fragment of input.
#[derive(Clone, Debug, PartialEq, Eq)]
pub enum LogParseError {
    /// The date or time was present but does not name a local time.
    DateTimeError,
    /// A domain's code is not one of its subsystems: the code found, and the codes allowed.
    SubSystemError(String, String),
    /// A rule failed at the given remaining input.
    Nom(String, ErrorKind),
}

/// The model of a [`LogParseError`], with texts as sequences of characters.
pub enum ErrorView {
    DateTime,
    SubSystem(Seq<char>, Seq<char>),
    Syntax(Seq<char>, ErrorKind),
}

impl LogParseError {
    pub open spec fn view(&self) -> ErrorView {
        match self {
            LogParseError::DateTimeError => ErrorView::DateTime,
            LogParseError::SubSystemError(found, allowed) => ErrorView::SubSystem(found@, allowed@),
            LogParseError::Nom(rest, kind) => ErrorView::Syntax(rest@, *kind),
        }
    }
}

/// The name of a rule, as an error message gives it.
pub open spec fn kind_name(kind: ErrorKind) -> Seq<char> {
    match kind {
        ErrorKind::Tag => "Tag"@,
        ErrorKind::OneOf => "OneOf"@,
        ErrorKind::Eof => "Eof"@,
        ErrorKind::Alpha => "Alpha"@,
        ErrorKind::Space => "Space"@,
    }
}

impl ErrorKind {
    pub fn name(&self) -> (r: &'static str)
        ensures
            r@ == kind_name(*self),
    {
        match self {
            ErrorKind::Tag => "Tag",
            ErrorKind::OneOf => "OneOf",
            ErrorKind::Eof => "Eof",
            ErrorKind::Alpha => "Alpha",
            ErrorKind::Space => "Space",
        }
    }
}

/// The message that describes an error.
pub open spec fn error_text(e: ErrorView) -> Seq<char> {
    match e {
        ErrorView::DateTime => "LogParseError: bad date/time"@,
        ErrorView::SubSystem(found, allowed) => "LogParseError: bad subsystem found ("@ + found
            + ") expected ("@ + allowed + ")"@,
        ErrorView::Syntax(rest, kind) => "LogParseError: bad parse ("@ + rest + ") ("@
            + kind_name(kind) + ")"@,
    }
}

impl LogParseError {
    /// Describes the error with the fragment of input that it carries.
    pub fn render(&self) -> (r: String)
        ensures
            r@ == error_text(self.view()),
    {
        match self {
            LogParseError::DateTimeError => String::from_str("LogParseError: bad date/time"),
            LogParseError::SubSystemError(found, allowed) => {
                let mut m = String::from_str("LogParseError: bad subsystem found (");
                m.append(found.as_str());
                m.append(") expected (");
                m.append(allowed.as_str());
                m.append(")");
                m
            },
            LogParseError::Nom(rest, kind) => {
                let mut m = String::from_str("LogParseError: bad parse (");
                m.append(rest.as_str());
                m.append(") (");
                m.append(kind.name());
                m.append(")");
                m
            },
        }
    }
}

/// The syntax error of `kind` at the remaining input `rest`.
pub fn syntax_error(rest: &str, kind: ErrorKind) -> (e: LogParseError)
    ensures
        e.view() == ErrorView::Syntax(rest@, kind),
{
    LogParseError::Nom(String::from_str(rest), kind)
}

} // verus!
