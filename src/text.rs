//! Character classes, scanning and string building over `&str` values, stated over
//! their views as sequences of characters.
use vstd::prelude::*;

use crate::error::{ErrorView, LogParseError};

verus! {

/// The classes of characters that the line grammar scans runs of.
#[derive(Clone, Copy, Debug, PartialEq, Eq)]
pub enum CharClass {
    /// An ASCII decimal digit.
    Digit,
    /// An ASCII letter.
    Alpha,
    /// A space or a tab.
    Blank,
    /// Anything but a colon.
    NotColon,
}

pub open spec fn in_class(c: char, class: CharClass) -> bool {
    match class {
        CharClass::Digit => '0' <= c && c <= '9',
        CharClass::Alpha => ('a' <= c && c <= 'z') || ('A' <= c && c <= 'Z'),
        CharClass::Blank => c == ' ' || c == '\t',
        CharClass::NotColon => c != ':',
    }
}

pub fn char_in_class(c: char, class: CharClass) -> (r: bool)
    ensures
        r == in_class(c, class),
{
    match class {
        CharClass::Digit => '0' <= c && c <= '9',
        CharClass::Alpha => ('a' <= c && c <= 'z') || ('A' <= c && c <= 'Z'),
        CharClass::Blank => c == ' ' || c == '\t',
        CharClass::NotColon => c != ':',
    }
}

/// Length of the longest run of `class` characters of `s` that starts at position `k`.
pub open spec fn run_len(s: Seq<char>, k: int, class: CharClass) -> nat
    decreases s.len() - k,
{
    if 0 <= k < s.len() && in_class(s[k], class) {
        1 + run_len(s, k + 1, class)
    } else {
        0
    }
}

/// Scans the run of `class` characters of `s` that starts at position `k`.
pub fn scan_run(s: &str, k: usize, class: CharClass) -> (r: usize)
    requires
        k <= s@.len(),
    ensures
        r == run_len(s@, k as int, class),
        k + r <= s@.len(),
{
    let n = s.unicode_len();
    let mut j: usize = k;
    while j < n && char_in_class(s.get_char(j), class)
        invariant
            k <= j <= n,
            n == s@.len(),
            run_len(s@, k as int, class) == (j - k) + run_len(s@, j as int, class),
        decreases n - j,
    {
        j = j + 1;
    }
    j - k
}

/// Whether `p` stands in `s` at position `k`.
pub open spec fn occurs_at(s: Seq<char>, k: int, p: Seq<char>) -> bool {
    0 <= k && k + p.len() <= s.len() && s.subrange(k, k + p.len()) == p
}

pub fn text_occurs_at(s: &str, k: usize, p: &str) -> (r: bool)
    ensures
        r == occurs_at(s@, k as int, p@),
{
    let n = s.unicode_len();
    let m = p.unicode_len();
    if k > n || m > n - k {
        return false;
    }
    let mut j: usize = 0;
    while j < m
        invariant
            n == s@.len(),
            m == p@.len(),
            k + m <= n,
            j <= m,
            forall|t: int| 0 <= t < j ==> s@[k + t] == p@[t],
        decreases m - j,
    {
        if s.get_char(k + j) != p.get_char(j) {
            assert(s@.subrange(k as int, k + m)[j as int] != p@[j as int]);
            return false;
        }
        j = j + 1;
    }
    assert(s@.subrange(k as int, k + m) =~= p@);
    true
}

pub fn text_eq(a: &str, b: &str) -> (r: bool)
    ensures
        r == (a@ == b@),
{
    if a.unicode_len() != b.unicode_len() {
        return false;
    }
    let r = text_occurs_at(a, 0, b);
    assert(a@.subrange(0, a@.len() as int) =~= a@);
    r
}

/// The owned text of the characters of `s` from `from` up to `to`.
pub fn text_between(s: &str, from: usize, to: usize) -> (r: String)
    requires
        from <= to <= s@.len(),
    ensures
        r@ == s@.subrange(from as int, to as int),
{
    String::from_str(s.substring_char(from, to))
}

/// The characters of `s` from `from` on, borrowed.
pub fn tail_from(s: &str, from: usize) -> (r: &str)
    requires
        from <= s@.len(),
    ensures
        r@ == s@.skip(from as int),
{
    let n = s.unicode_len();
    s.substring_char(from, n)
}

} // verus!

verus! {

/// The model of an optional borrowed text.
pub open spec fn opt_text<'a>(o: Option<&'a str>) -> Option<Seq<char>> {
    match o {
        Some(t) => Some(t@),
        None => None,
    }
}

/// The model of an optional owned text.
pub open spec fn opt_string(o: Option<String>) -> Option<Seq<char>> {
    match o {
        Some(t) => Some(t@),
        None => None,
    }
}

/// The model of a reader that returns the rest of its input and a borrowed text.
pub open spec fn split_view<'a>(r: Result<(&'a str, &'a str), LogParseError>) -> Result<
    (Seq<char>, Seq<char>),
    ErrorView,
> {
    match r {
        Ok((rest, t)) => Ok((rest@, t@)),
        Err(e) => Err(e.view()),
    }
}

} // verus!
