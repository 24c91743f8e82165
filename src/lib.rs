//! Expansion of terse gateway/transport device log lines into readable text.
//!
//! A line `<Mon> <DD> <HH>:<MM>:<SS> <LEVEL> <message>` is read into a [`LogLine`]: the
//! message body is handed to the domain that emitted it (core, gateway, transport
//! function, transport state machine), which spells out its system, subsystem and, where
//! it knows it, the body. A line that does not match the grammar is kept whole.
pub mod core_parsers;
pub mod datetime;
pub mod error;
pub mod gateway_parsers;
pub mod laws;
pub mod line;
pub mod message;
pub mod text;
pub mod xport_function_parsers;
pub mod xport_machine_parsers;

pub use datetime::{parse_datetime, parse_datetime_on, CalendarDate, Timestamp};
pub use error::{ErrorKind, LogParseError};
pub use line::{parse_log, parse_log_line, LogLine};
pub use message::{parse_message, ParsedMessage, SendStatus};
