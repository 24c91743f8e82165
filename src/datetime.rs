//! The fixed-width date and time at the head of a log line: `<Mon> <DD> <HH>:<MM>:<SS>`.
//!
//! The line carries no year: the date is today's local date with its month and day
//! overwritten by those of the line.
use chrono::{Datelike, TimeZone, Timelike};
use vstd::prelude::*;

use crate::error::{syntax_error, ErrorKind, ErrorView, LogParseError};
use crate::text::{tail_from, text_eq};

verus! {

/// The earliest year that a date can have.
pub const MIN_YEAR: i32 = -262143;

/// The latest year that a date can have.
pub const MAX_YEAR: i32 = 262142;

pub open spec fn is_leap_year(y: int) -> bool {
    y % 4 == 0 && (y % 100 != 0 || y % 400 == 0)
}

pub open spec fn days_in_month(y: int, m: int) -> int {
    if m == 2 {
        if is_leap_year(y) {
            29
        } else {
            28
        }
    } else if m == 4 || m == 6 || m == 9 || m == 11 {
        30
    } else {
        31
    }
}

/// Whether year, month and day name a day of the proleptic Gregorian calendar within
/// the years that a date can have.
pub open spec fn valid_date(y: int, m: int, d: int) -> bool {
    MIN_YEAR <= y <= MAX_YEAR && 1 <= m <= 12 && 1 <= d <= days_in_month(y, m)
}

/// A calendar date.
#[derive(Clone, Copy, Debug, PartialEq, Eq)]
pub struct CalendarDate {
    pub year: i32,
    pub month: u32,
    pub day: u32,
}

impl CalendarDate {
    pub open spec fn wf(self) -> bool {
        valid_date(self.year as int, self.month as int, self.day as int)
    }
}

/// A local date and wall-clock time. A nanosecond count of one billion or more marks
/// a leap second, which only the 59th second of a minute can hold.
#[derive(Clone, Copy, Debug, PartialEq, Eq)]
pub struct Timestamp {
    pub year: i32,
    pub month: u32,
    pub day: u32,
    pub hour: u32,
    pub minute: u32,
    pub second: u32,
    pub nanosecond: u32,
}

pub open spec fn valid_time(h: int, m: int, s: int, nano: int) -> bool {
    0 <= h < 24 && 0 <= m < 60 && 0 <= s < 60 && 0 <= nano < 2_000_000_000 && (nano
        >= 1_000_000_000 ==> s == 59)
}

impl Timestamp {
    pub open spec fn wf(self) -> bool {
        valid_date(self.year as int, self.month as int, self.day as int) && valid_time(
            self.hour as int,
            self.minute as int,
            self.second as int,
            self.nanosecond as int,
        )
    }

    pub open spec fn date(self) -> CalendarDate {
        CalendarDate { year: self.year, month: self.month, day: self.day }
    }
}

/// Relies on chrono's `Local::now` and `DateTime::date_naive`: today's date on the local
/// clock, which chrono keeps within the calendar and its range of years.
#[verifier::external_body]
fn local_today() -> (r: CalendarDate)
    ensures
        r.wf(),
{
    let d = chrono::Local::now().date_naive();
    CalendarDate { year: d.year(), month: d.month(), day: d.day() }
}

/// Relies on chrono's `NaiveDate::from_ymd_opt`: a date exactly when the calendar has that
/// day and the year is within chrono's range.
#[verifier::external_body]
fn date_from_ymd(year: i32, month: u32, day: u32) -> (r: Option<CalendarDate>)
    ensures
        r == (if valid_date(year as int, month as int, day as int) {
            Some(CalendarDate { year, month, day })
        } else {
            None
        }),
{
    match chrono::NaiveDate::from_ymd_opt(year, month, day) {
        Some(d) => Some(CalendarDate { year: d.year(), month: d.month(), day: d.day() }),
        None => None,
    }
}

pub open spec fn is_digit(c: char) -> bool {
    '0' <= c && c <= '9'
}

pub open spec fn digit_value(c: char) -> int {
    c as int - '0' as int
}

/// The number written by two decimal digits of `s` at position `k`.
pub open spec fn two_digits(s: Seq<char>, k: int) -> int {
    10 * digit_value(s[k]) + digit_value(s[k + 1])
}

/// Whether `s` is a time of day written `HH:MM:SS` with two digits in each field.
pub open spec fn well_formed_clock(s: Seq<char>) -> bool {
    &&& s.len() == 8
    &&& s[2] == ':' && s[5] == ':'
    &&& is_digit(s[0]) && is_digit(s[1]) && is_digit(s[3]) && is_digit(s[4])
    &&& is_digit(s[6]) && is_digit(s[7])
    &&& two_digits(s, 0) < 24 && two_digits(s, 3) < 60 && two_digits(s, 6) < 60
}

/// What chrono reads as hour, minute, second and nanosecond from a text with the
/// pattern `%H:%M:%S`.
pub uninterp spec fn clock_time_of(s: Seq<char>) -> Option<(u32, u32, u32, u32)>;

/// Relies on chrono's `NaiveTime::parse_from_str` with the pattern `%H:%M:%S`: the result
/// depends on the text alone, is a valid time of day, and is the written time when the text
/// is two digits for each field.
#[verifier::external_body]
fn parse_clock_time(s: &str) -> (r: Option<(u32, u32, u32, u32)>)
    ensures
        r == clock_time_of(s@),
        r matches Some(t) ==> valid_time(t.0 as int, t.1 as int, t.2 as int, t.3 as int),
        well_formed_clock(s@) ==> r == Some(
            (two_digits(s@, 0) as u32, two_digits(s@, 3) as u32, two_digits(s@, 6) as u32, 0u32),
        ),
{
    match chrono::NaiveTime::parse_from_str(s, "%H:%M:%S") {
        Ok(t) => Some((t.hour(), t.minute(), t.second(), t.nanosecond())),
        Err(_) => None,
    }
}

/// Relies on chrono's `Local::from_local_datetime` and `LocalResult::single`: whether the
/// wall-clock time names exactly one instant in the machine's time zone.
#[verifier::external_body]
fn local_time_is_unique(t: Timestamp) -> (r: bool)
    requires
        t.wf(),
{
    let date = chrono::NaiveDate::from_ymd_opt(t.year, t.month, t.day).unwrap();
    let time = chrono::NaiveTime::from_hms_nano_opt(t.hour, t.minute, t.second, t.nanosecond);
    chrono::Local.from_local_datetime(&date.and_time(time.unwrap())).single().is_some()
}

/// The month with the English three-letter abbreviation `s`, or 0.
pub open spec fn month_number(s: Seq<char>) -> u32 {
    if s == "Jan"@ {
        1
    } else if s == "Feb"@ {
        2
    } else if s == "Mar"@ {
        3
    } else if s == "Apr"@ {
        4
    } else if s == "May"@ {
        5
    } else if s == "Jun"@ {
        6
    } else if s == "Jul"@ {
        7
    } else if s == "Aug"@ {
        8
    } else if s == "Sep"@ {
        9
    } else if s == "Oct"@ {
        10
    } else if s == "Nov"@ {
        11
    } else if s == "Dec"@ {
        12
    } else {
        0
    }
}

pub fn month_of(s: &str) -> (r: u32)
    ensures
        r == month_number(s@),
{
    if text_eq(s, "Jan") {
        1
    } else if text_eq(s, "Feb") {
        2
    } else if text_eq(s, "Mar") {
        3
    } else if text_eq(s, "Apr") {
        4
    } else if text_eq(s, "May") {
        5
    } else if text_eq(s, "Jun") {
        6
    } else if text_eq(s, "Jul") {
        7
    } else if text_eq(s, "Aug") {
        8
    } else if text_eq(s, "Sep") {
        9
    } else if text_eq(s, "Oct") {
        10
    } else if text_eq(s, "Nov") {
        11
    } else if text_eq(s, "Dec") {
        12
    } else {
        0
    }
}

/// The day of month that two characters give when read as an unsigned integer (an
/// optional `+` and then digits), or 0 when they are no such integer.
pub open spec fn day_number(s: Seq<char>) -> u32 {
    if is_digit(s[0]) && is_digit(s[1]) {
        two_digits(s, 0) as u32
    } else if s[0] == '+' && is_digit(s[1]) {
        digit_value(s[1]) as u32
    } else {
        0
    }
}

pub fn day_of(s: &str) -> (r: u32)
    requires
        s@.len() == 2,
    ensures
        r == day_number(s@),
{
    let a = s.get_char(0);
    let b = s.get_char(1);
    if '0' <= b && b <= '9' {
        let low = (b as u32) - ('0' as u32);
        if '0' <= a && a <= '9' {
            return 10 * ((a as u32) - ('0' as u32)) + low;
        } else if a == '+' {
            return low;
        }
    }
    0
}

/// Today's date with its month and then its day overwritten; where either overwrite names
/// no day of the calendar, today's date unchanged.
pub open spec fn overwrite_date(today: CalendarDate, month: u32, day: u32) -> CalendarDate {
    let moved = if valid_date(today.year as int, month as int, today.day as int) {
        CalendarDate { year: today.year, month, day: today.day }
    } else {
        today
    };
    if valid_date(moved.year as int, moved.month as int, day as int) {
        CalendarDate { year: moved.year, month: moved.month, day }
    } else {
        today
    }
}

/// The head `<Mon> <DD> <HH>:<MM>:<SS>` of `i`, read on the day `today`: the rest of the
/// input and the timestamp, or the error.
pub open spec fn spec_datetime_fields(i: Seq<char>, today: CalendarDate) -> Result<
    (Seq<char>, Timestamp),
    ErrorView,
> {
    if i.len() < 3 {
        Err(ErrorView::Syntax(i, ErrorKind::Eof))
    } else if i.len() < 4 || i[3] != ' ' {
        Err(ErrorView::Syntax(i.skip(3), ErrorKind::OneOf))
    } else if i.len() < 6 {
        Err(ErrorView::Syntax(i.skip(4), ErrorKind::Eof))
    } else if i.len() < 7 || i[6] != ' ' {
        Err(ErrorView::Syntax(i.skip(6), ErrorKind::OneOf))
    } else if i.len() < 15 {
        Err(ErrorView::Syntax(i.skip(7), ErrorKind::Eof))
    } else {
        match clock_time_of(i.subrange(7, 15)) {
            None => Err(ErrorView::DateTime),
            Some(t) => {
                let d = overwrite_date(today, month_number(i.take(3)), day_number(i.subrange(4, 6)));
                Ok(
                    (
                        i.skip(15),
                        Timestamp {
                            year: d.year,
                            month: d.month,
                            day: d.day,
                            hour: t.0,
                            minute: t.1,
                            second: t.2,
                            nanosecond: t.3,
                        },
                    ),
                )
            },
        }
    }
}

/// Whether `i` begins with a well-formed `<Mon> <DD> <HH>:<MM>:<SS>` whose month and day
/// exist in `today`'s year, and where today's day of month exists in that month too.
pub open spec fn well_formed_datetime(i: Seq<char>, today: CalendarDate) -> bool {
    &&& i.len() >= 15
    &&& i[3] == ' ' && i[6] == ' '
    &&& is_digit(i[4]) && is_digit(i[5])
    &&& well_formed_clock(i.subrange(7, 15))
    &&& valid_date(today.year as int, month_number(i.take(3)) as int, two_digits(i, 4))
    &&& valid_date(today.year as int, month_number(i.take(3)) as int, today.day as int)
}

/// The timestamp that a well-formed head of `i` writes, in `today`'s year.
pub open spec fn written_timestamp(i: Seq<char>, today: CalendarDate) -> Timestamp {
    Timestamp {
        year: today.year,
        month: month_number(i.take(3)),
        day: two_digits(i, 4) as u32,
        hour: two_digits(i, 7) as u32,
        minute: two_digits(i, 10) as u32,
        second: two_digits(i, 13) as u32,
        nanosecond: 0,
    }
}

/// Reads the date and time at the head of `i` on the day `today`.
pub fn parse_datetime_on<'a>(i: &'a str, today: CalendarDate) -> (r: Result<
    (&'a str, Timestamp),
    LogParseError,
>)
    requires
        today.wf(),
    ensures
        match spec_datetime_fields(i@, today) {
            Ok((rest, t)) => r matches Ok((rr, rt)) && rr@ == rest && rt == t && t.wf(),
            Err(e) => r matches Err(re) && re.view() == e,
        },
        well_formed_datetime(i@, today) ==> (r matches Ok((rr, rt)) && rr@ == i@.skip(15) && rt
            == written_timestamp(i@, today)),
{
    let n = i.unicode_len();
    if n < 3 {
        return Err(syntax_error(i, ErrorKind::Eof));
    }
    if n < 4 || i.get_char(3) != ' ' {
        return Err(syntax_error(tail_from(i, 3), ErrorKind::OneOf));
    }
    if n < 6 {
        return Err(syntax_error(tail_from(i, 4), ErrorKind::Eof));
    }
    let month = month_of(i.substring_char(0, 3));
    let day = day_of(i.substring_char(4, 6));
    let moved = match date_from_ymd(today.year, month, today.day) {
        Some(d) => d,
        None => today,
    };
    let date = match date_from_ymd(moved.year, moved.month, day) {
        Some(d) => d,
        None => today,
    };
    if n < 7 || i.get_char(6) != ' ' {
        return Err(syntax_error(tail_from(i, 6), ErrorKind::OneOf));
    }
    if n < 15 {
        return Err(syntax_error(tail_from(i, 7), ErrorKind::Eof));
    }
    let clock = i.substring_char(7, 15);
    match parse_clock_time(clock) {
        None => Err(LogParseError::DateTimeError),
        Some(t) => {
            proof {
                if well_formed_datetime(i@, today) {
                    assert(clock@ =~= i@.subrange(7, 15));
                    assert(two_digits(clock@, 0) == two_digits(i@, 7));
                    assert(two_digits(clock@, 3) == two_digits(i@, 10));
                    assert(two_digits(clock@, 6) == two_digits(i@, 13));
                    assert(i@.subrange(4, 6)[0] == i@[4]);
                    assert(i@.subrange(4, 6)[1] == i@[5]);
                }
            }
            Ok(
                (
                    tail_from(i, 15),
                    Timestamp {
                        year: date.year,
                        month: date.month,
                        day: date.day,
                        hour: t.0,
                        minute: t.1,
                        second: t.2,
                        nanosecond: t.3,
                    },
                ),
            )
        },
    }
}

/// The model of what a reader of the head returns: the rest of the input and the
/// timestamp, or the error.
pub open spec fn head_view<'a>(r: Result<(&'a str, Timestamp), LogParseError>) -> Result<
    (Seq<char>, Timestamp),
    ErrorView,
> {
    match r {
        Ok((rest, t)) => Ok((rest@, t)),
        Err(e) => Err(e.view()),
    }
}

/// The head of `i` read on the day `today`, where `unique` tells whether the local time
/// zone names the time read exactly once; a time that it does not is a date-time error.
pub open spec fn spec_datetime(i: Seq<char>, today: CalendarDate, unique: bool) -> Result<
    (Seq<char>, Timestamp),
    ErrorView,
> {
    match spec_datetime_fields(i, today) {
        Ok(x) => if unique {
            Ok(x)
        } else {
            Err(ErrorView::DateTime)
        },
        Err(e) => Err(e),
    }
}

/// Reads the date and time at the head of `i` on today's local date. Whatever the clock
/// and the time zone give, the result is the model's for some valid day, and a
/// well-formed head reads as written, unless the zone does not name that time exactly once.
pub fn parse_datetime<'a>(i: &'a str) -> (r: Result<(&'a str, Timestamp), LogParseError>)
    ensures
        exists|today: CalendarDate, unique: bool|
            {
                &&& today.wf()
                &&& head_view(r) == #[trigger] spec_datetime(i@, today, unique)
                &&& well_formed_datetime(i@, today) ==> spec_datetime_fields(i@, today) == Ok::<
                    (Seq<char>, Timestamp),
                    ErrorView,
                >((i@.skip(15), written_timestamp(i@, today)))
            },
        r matches Ok((_, t)) ==> t.wf(),
{
    let today = local_today();
    let r = parse_datetime_on(i, today);
    match r {
        Ok((rest, t)) => {
            let unique = local_time_is_unique(t);
            if unique {
                assert(head_view(Ok((rest, t))) == spec_datetime(i@, today, unique));
                Ok((rest, t))
            } else {
                assert(head_view(Err(LogParseError::DateTimeError)) == spec_datetime(
                    i@,
                    today,
                    unique,
                ));
                Err(LogParseError::DateTimeError)
            }
        },
        Err(e) => {
            assert(head_view(Err(e)) == spec_datetime(i@, today, true));
            Err(e)
        },
    }
}

} // verus!

verus! {

/// The character of the decimal digit `d`.
pub open spec fn digit_char(d: int) -> char {
    if d == 0 {
        '0'
    } else if d == 1 {
        '1'
    } else if d == 2 {
        '2'
    } else if d == 3 {
        '3'
    } else if d == 4 {
        '4'
    } else if d == 5 {
        '5'
    } else if d == 6 {
        '6'
    } else if d == 7 {
        '7'
    } else if d == 8 {
        '8'
    } else {
        '9'
    }
}

/// The decimal digits of `n`, without leading zeros.
pub open spec fn decimal(n: nat) -> Seq<char>
    decreases n,
{
    if n < 10 {
        seq![digit_char(n as int)]
    } else {
        decimal(n / 10) + seq![digit_char((n % 10) as int)]
    }
}

/// The decimal digits of `n`, with zeros in front up to `width` characters.
pub open spec fn zero_padded(n: nat, width: nat) -> Seq<char>
    decreases width,
{
    if width > 1 && n < pow10((width - 1) as nat) {
        seq!['0'] + zero_padded(n, (width - 1) as nat)
    } else {
        decimal(n)
    }
}

pub open spec fn pow10(k: nat) -> nat
    decreases k,
{
    if k == 0 {
        1
    } else {
        10 * pow10((k - 1) as nat)
    }
}

/// A year as chrono writes it: four digits or more, with a sign outside years 0 to 9999.
pub open spec fn year_text(y: int) -> Seq<char> {
    if 0 <= y <= 9999 {
        zero_padded(y as nat, 4)
    } else if y > 9999 {
        seq!['+'] + decimal(y as nat)
    } else {
        seq!['-'] + zero_padded((-y) as nat, 4)
    }
}

/// The second as written, where a leap second is the sixtieth.
pub open spec fn shown_second(t: Timestamp) -> nat {
    (t.second + t.nanosecond / 1_000_000_000) as nat
}

/// The text `YYYY-MM-DD HH:MM:SS` of a timestamp.
pub open spec fn timestamp_text(t: Timestamp) -> Seq<char> {
    year_text(t.year as int) + seq!['-'] + zero_padded(t.month as nat, 2) + seq!['-']
        + zero_padded(t.day as nat, 2) + seq![' '] + zero_padded(t.hour as nat, 2) + seq![':']
        + zero_padded(t.minute as nat, 2) + seq![':'] + zero_padded(shown_second(t), 2)
}

fn digit_text(d: u32) -> (r: &'static str)
    requires
        d < 10,
    ensures
        r@ == seq![digit_char(d as int)],
{
    proof {
        reveal_strlit("0");
        reveal_strlit("1");
        reveal_strlit("2");
        reveal_strlit("3");
        reveal_strlit("4");
        reveal_strlit("5");
        reveal_strlit("6");
        reveal_strlit("7");
        reveal_strlit("8");
        reveal_strlit("9");
    }
    let r = match d {
        0 => "0",
        1 => "1",
        2 => "2",
        3 => "3",
        4 => "4",
        5 => "5",
        6 => "6",
        7 => "7",
        8 => "8",
        _ => "9",
    };
    assert(r@ =~= seq![digit_char(d as int)]);
    r
}

/// Appends the decimal digits of `n` to `out`.
fn append_decimal(out: &mut String, n: u32)
    ensures
        final(out)@ == old(out)@ + decimal(n as nat),
    decreases n,
{
    if n >= 10 {
        append_decimal(out, n / 10);
        out.append(digit_text(n % 10));
        assert(final(out)@ =~= old(out)@ + decimal(n as nat));
    } else {
        out.append(digit_text(n));
    }
}

/// Appends the decimal digits of `n`, with zeros in front up to `width` characters.
fn append_zero_padded(out: &mut String, n: u32, width: u32)
    requires
        width <= 4,
    ensures
        final(out)@ == old(out)@ + zero_padded(n as nat, width as nat),
    decreases width,
{
    let bound: u32 = if width <= 1 {
        1
    } else if width == 2 {
        10
    } else if width == 3 {
        100
    } else {
        1000
    };
    proof {
        reveal_strlit("0");
        assert(pow10(0) == 1);
        assert(pow10(1) == 10);
        assert(pow10(2) == 100);
        assert(pow10(3) == 1000);
    }
    if width > 1 && n < bound {
        out.append("0");
        append_zero_padded(out, n, width - 1);
        assert(final(out)@ =~= old(out)@ + zero_padded(n as nat, width as nat));
    } else {
        append_decimal(out, n);
    }
}

impl Timestamp {
    /// Renders the timestamp as `YYYY-MM-DD HH:MM:SS`.
    pub fn render(&self) -> (r: String)
        requires
            self.wf(),
        ensures
            r@ == timestamp_text(*self),
    {
        proof {
            reveal_strlit("+");
            reveal_strlit("-");
            reveal_strlit(" ");
            reveal_strlit(":");
        }
        let mut out = String::new();
        if 0 <= self.year && self.year <= 9999 {
            append_zero_padded(&mut out, self.year as u32, 4);
        } else if self.year > 9999 {
            out.append("+");
            append_decimal(&mut out, self.year as u32);
        } else {
            out.append("-");
            append_zero_padded(&mut out, (-self.year) as u32, 4);
        }
        out.append("-");
        append_zero_padded(&mut out, self.month, 2);
        out.append("-");
        append_zero_padded(&mut out, self.day, 2);
        out.append(" ");
        append_zero_padded(&mut out, self.hour, 2);
        out.append(":");
        append_zero_padded(&mut out, self.minute, 2);
        out.append(":");
        append_zero_padded(&mut out, self.second + self.nanosecond / 1_000_000_000, 2);
        assert(out@ =~= timestamp_text(*self));
        out
    }
}

} // verus!

verus! {

/// Relies on chrono's `Local::now`: the current local date and time, which chrono keeps
/// within the calendar, its range of years and the valid times of day.
#[verifier::external_body]
pub(crate) fn local_now() -> (r: Timestamp)
    ensures
        r.wf(),
{
    let n = chrono::Local::now();
    Timestamp {
        year: n.year(),
        month: n.month(),
        day: n.day(),
        hour: n.hour(),
        minute: n.minute(),
        second: n.second(),
        nanosecond: n.nanosecond(),
    }
}

} // verus!
