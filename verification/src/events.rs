//! Lines that note what happens in a week: a week, a space, and a text.
//!
//! An empty line says nothing, and neither does one that starts with `#` or `//`.

use crate::error::ParseError;
use crate::iso::{Date, IsoWeek, MAX_YEAR, MIN_YEAR};
use crate::spec::{parse_week_chars, spec_parse_week};
use crate::text::{chars_of, find_char, first_index, has_char};
use vstd::prelude::*;
use vstd::string::{StrSliceExecFns, StringExecFns};

verus! {

/// Whether `c` is white space, as Unicode marks characters `White_Space`.
pub open spec fn is_space(c: char) -> bool {
    let n = c as u32;
    ||| 0x09 <= n <= 0x0d
    ||| n == 0x20
    ||| n == 0x85
    ||| n == 0xa0
    ||| n == 0x1680
    ||| 0x2000 <= n <= 0x200a
    ||| n == 0x2028
    ||| n == 0x2029
    ||| n == 0x202f
    ||| n == 0x205f
    ||| n == 0x3000
}

/// `s` without the white space at its start.
pub open spec fn trim_start(s: Seq<char>) -> Seq<char>
    decreases s.len(),
{
    if s.len() > 0 && is_space(s[0]) {
        trim_start(s.skip(1))
    } else {
        s
    }
}

/// `s` without the white space at its end.
pub open spec fn trim_end(s: Seq<char>) -> Seq<char>
    decreases s.len(),
{
    if s.len() > 0 && is_space(s.last()) {
        trim_end(s.drop_last())
    } else {
        s
    }
}

/// `s` without the white space at its start and at its end.
pub open spec fn trimmed(s: Seq<char>) -> Seq<char> {
    trim_end(trim_start(s))
}

/// Whether the line `s` says nothing.
pub open spec fn is_blank(s: Seq<char>) -> bool {
    s.len() == 0 || s[0] == '#' || (s.len() >= 2 && s[0] == '/' && s[1] == '/')
}

/// Why a line was not understood.
#[derive(Debug, Clone, Copy, PartialEq, Eq, Hash, Structural)]
pub enum EventError {
    /// The line holds no space, so no text follows the week.
    MissingText,
    /// What stands before the first space names no week.
    Week(ParseError),
}

/// What happens in a week.
#[derive(Debug, Clone, PartialEq, Eq)]
pub struct Event {
    pub week: IsoWeek,
    pub text: String,
}

/// What the line `s` means when the current year is `current_year`: nothing, or a week
/// with the text that follows the first space, without the white space around it; or
/// what is wrong with `s`.
pub open spec fn spec_parse_event(s: Seq<char>, current_year: i32) -> Result<
    Option<(IsoWeek, Seq<char>)>,
    EventError,
> {
    if is_blank(s) {
        Ok(None)
    } else if !has_char(s, ' ') {
        Err(EventError::MissingText)
    } else {
        match spec_parse_week(s.take(first_index(s, ' ')), current_year) {
            Ok(week) => Ok(Some((week, trimmed(s.skip(first_index(s, ' ') + 1))))),
            Err(error) => Err(EventError::Week(error)),
        }
    }
}

/// Whether `c` is white space.
pub fn space(c: char) -> (r: bool)
    ensures
        r == is_space(c),
{
    let n: u32 = c as u32;
    (0x09 <= n && n <= 0x0d) || n == 0x20 || n == 0x85 || n == 0xa0 || n == 0x1680 || (0x2000 <= n
        && n <= 0x200a) || n == 0x2028 || n == 0x2029 || n == 0x202f || n == 0x205f || n == 0x3000
}

/// Finds where the characters of `v` from `from` on stand without the white space
/// around them.
pub fn trim_bounds(v: &Vec<char>, from: usize) -> (r: (usize, usize))
    requires
        from <= v.len(),
    ensures
        from <= r.0 <= r.1 <= v.len(),
        v@.subrange(r.0 as int, r.1 as int) == trimmed(v@.skip(from as int)),
{
    let n: usize = v.len();
    let mut a: usize = from;
    while a < n && space(v[a])
        invariant
            from <= a <= n,
            n == v.len(),
            trim_start(v@.skip(a as int)) == trim_start(v@.skip(from as int)),
        decreases n - a,
    {
        assert(v@.skip(a as int).skip(1) =~= v@.skip(a + 1));
        a += 1;
    }
    assert(trim_start(v@.skip(from as int)) == v@.skip(a as int));
    assert(v@.skip(a as int) =~= v@.subrange(a as int, n as int));
    let mut b: usize = n;
    while a < b && space(v[b - 1])
        invariant
            a <= b <= n,
            n == v.len(),
            trim_end(v@.subrange(a as int, b as int)) == trim_end(v@.subrange(a as int, n as int)),
        decreases b - a,
    {
        assert(v@.subrange(a as int, b as int).drop_last() =~= v@.subrange(a as int, b - 1));
        b -= 1;
    }
    assert(a < b ==> v@.subrange(a as int, b as int).last() == v@[b - 1]);
    (a, b)
}

/// Reads a line, where `current_year` is the year of a week written without one.
pub fn parse_event_in(line: &str, current_year: i32) -> (r: Result<Option<Event>, EventError>)
    ensures
        match spec_parse_event(line@, current_year) {
            Ok(None) => r == Ok::<Option<Event>, EventError>(None),
            Ok(Some((week, text))) => r matches Ok(Some(event)) && event.week == week
                && event.text@ == text,
            Err(error) => r == Err::<Option<Event>, EventError>(error),
        },
{
    let v = chars_of(line);
    let n: usize = v.len();
    if n == 0 || v[0] == '#' || (n >= 2 && v[0] == '/' && v[1] == '/') {
        return Ok(None);
    }
    assert(v@.subrange(0, n as int) =~= line@);
    let k: usize = match find_char(&v, 0, n, ' ') {
        Some(k) => k,
        None => {
            return Err(EventError::MissingText);
        },
    };
    assert(line@.take(k as int) =~= v@.subrange(0, k as int));
    let week = match parse_week_chars(&v, 0, k, current_year) {
        Ok(week) => week,
        Err(error) => {
            return Err(EventError::Week(error));
        },
    };
    let (a, b): (usize, usize) = trim_bounds(&v, k + 1);
    let text = String::from_str(line.substring_char(a, b));
    Ok(Some(Event { week, text }))
}

/// Reads a line. A week written without a year is one of the ISO year of the day that
/// the clock reports.
pub fn parse_event(line: &str) -> (r: Result<Option<Event>, EventError>)
    ensures
        exists|current_year: i32|
            MIN_YEAR - 1 <= current_year <= MAX_YEAR + 1 && match #[trigger] spec_parse_event(
                line@,
                current_year,
            ) {
                Ok(None) => r == Ok::<Option<Event>, EventError>(None),
                Ok(Some((week, text))) => r matches Ok(Some(event)) && event.week == week
                    && event.text@ == text,
                Err(error) => r == Err::<Option<Event>, EventError>(error),
            },
{
    let current_year: i32 = Date::today().iso_week().year;
    parse_event_in(line, current_year)
}

} // verus!
