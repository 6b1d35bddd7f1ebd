//! Weeks and ranges of weeks written as text.
//!
//! A week is written `w<N>`, week `N` of the current year, or `<YYYY>-w<N>`, week `N` of
//! the year `YYYY`. A range is written `A..B`, `A..` or `..B`.

use crate::error::ParseError;
use crate::iso::{week_of_day, Date, IsoWeek, WeekRange, MAX_DAY, MAX_YEAR, MIN_DAY, MIN_YEAR};
use crate::text::{
    all_digits, chars_of, decimal, decimal_text, digits_only, four_digits, is_digit,
    lemma_decimal_text, lemma_four_digits, lemma_four_digits_text, push_decimal,
    push_four_digits, read_decimal, read_unsigned, unsigned,
};
use vstd::prelude::*;

verus! {

/// The week of the given year and number, or the error that says the calendar has none.
pub open spec fn week_or_error(year: i32, week: u32) -> Result<IsoWeek, ParseError> {
    if (IsoWeek { year, week }).is_week() {
        Ok(IsoWeek { year, week })
    } else {
        Err(ParseError::InvalidCalendarWeek { year, week })
    }
}

/// The week that the text `s` names when the current year is `current_year`, or what is
/// wrong with `s`.
pub open spec fn spec_parse_week(s: Seq<char>, current_year: i32) -> Result<IsoWeek, ParseError> {
    if s.len() == 0 {
        Err(ParseError::EmptyInput)
    } else if s[0] == 'w' || s[0] == 'W' {
        match unsigned(s.skip(1)) {
            Some(week) => week_or_error(current_year, week),
            None => Err(ParseError::MalformedWeekNumber),
        }
    } else if s.len() < 4 || !all_digits(s.take(4)) {
        Err(ParseError::MalformedYear)
    } else if s.len() < 6 || s[4] != '-' || s[5] != 'w' {
        Err(ParseError::MissingSeparator)
    } else {
        match unsigned(s.skip(6)) {
            Some(week) => week_or_error(decimal(s.take(4)) as i32, week),
            None => Err(ParseError::MalformedWeekNumber),
        }
    }
}

/// The week of the given year and number, if the calendar has it.
fn week_at(year: i32, week: u32) -> (r: Result<IsoWeek, ParseError>)
    ensures
        r == week_or_error(year, week),
{
    match IsoWeek::new(year, week) {
        Some(found) => Ok(found),
        None => Err(ParseError::InvalidCalendarWeek { year, week }),
    }
}

/// Reads the week that the characters of `v` from `from` to `to` name.
pub fn parse_week_chars(v: &Vec<char>, from: usize, to: usize, current_year: i32) -> (r: Result<
    IsoWeek,
    ParseError,
>)
    requires
        from <= to <= v.len(),
    ensures
        r == spec_parse_week(v@.subrange(from as int, to as int), current_year),
{
    let ghost s = v@.subrange(from as int, to as int);
    if from == to {
        return Err(ParseError::EmptyInput);
    }
    assert(s[0] == v@[from as int]);
    if v[from] == 'w' || v[from] == 'W' {
        assert(s.skip(1) =~= v@.subrange(from + 1, to as int));
        return match read_unsigned(v, from + 1, to) {
            Some(week) => week_at(current_year, week),
            None => Err(ParseError::MalformedWeekNumber),
        };
    }
    if to - from < 4 {
        return Err(ParseError::MalformedYear);
    }
    assert(s.take(4) =~= v@.subrange(from as int, from + 4));
    if !digits_only(v, from, from + 4) {
        return Err(ParseError::MalformedYear);
    }
    if to - from < 6 || v[from + 4] != '-' || v[from + 5] != 'w' {
        assert(s.len() >= 6 ==> s[4] == v@[from + 4] && s[5] == v@[from + 5]);
        return Err(ParseError::MissingSeparator);
    }
    assert(s[4] == v@[from + 4] && s[5] == v@[from + 5]);
    assert(s.skip(6) =~= v@.subrange(from + 6, to as int));
    proof {
        lemma_four_digits(s.take(4));
    }
    let year: u32 = match read_decimal(v, from, from + 4) {
        Some(year) => year,
        None => vstd::pervasive::unreached(),
    };
    match read_unsigned(v, from + 6, to) {
        Some(week) => week_at(year as i32, week),
        None => Err(ParseError::MalformedWeekNumber),
    }
}

/// Reads the week that `i` names, where `current_year` is the year of a week written
/// without one.
pub fn parse_one_week_in(i: &str, current_year: i32) -> (r: Result<IsoWeek, ParseError>)
    ensures
        r == spec_parse_week(i@, current_year),
{
    let v = chars_of(i);
    assert(v@.subrange(0, v.len() as int) =~= v@);
    parse_week_chars(&v, 0, v.len(), current_year)
}

/// Reads the week that `i` names. A week written without a year is one of the ISO year
/// of the day that the clock reports.
pub fn parse_one_week(i: &str) -> (r: Result<IsoWeek, ParseError>)
    ensures
        exists|current_year: i32|
            MIN_YEAR - 1 <= current_year <= MAX_YEAR + 1 && r == spec_parse_week(i@, current_year),
{
    let current_year: i32 = Date::today().iso_week().year;
    parse_one_week_in(i, current_year)
}

/// Whether `..` stands at index `i` of `s`.
pub open spec fn dots_at(s: Seq<char>, i: int) -> bool {
    0 <= i && i + 1 < s.len() && s[i] == '.' && s[i + 1] == '.'
}

/// Whether `..` stands somewhere in `s`.
pub open spec fn has_dots(s: Seq<char>) -> bool {
    exists|i: int| dots_at(s, i)
}

/// Whether `k` is the first index of `s` at which `..` stands.
pub open spec fn first_dots_at(s: Seq<char>, k: int) -> bool {
    dots_at(s, k) && forall|i: int| 0 <= i < k ==> !dots_at(s, i)
}

/// The first index of `s` at which `..` stands, where it stands somewhere.
pub open spec fn first_dots(s: Seq<char>) -> int {
    choose|k: int| first_dots_at(s, k)
}

/// A week or a range of weeks as it was written, with the end that was left out still
/// open.
#[derive(Debug, Clone, Copy, PartialEq, Eq, Structural)]
pub enum WeeksSpec {
    /// One week.
    Single(IsoWeek),
    /// From the first week to the second.
    Range(IsoWeek, IsoWeek),
    /// From the week to the current week.
    From(IsoWeek),
    /// From the current week to the week.
    To(IsoWeek),
}

/// `Single` of a week that was read, or the error of reading it.
pub open spec fn single_of(week: Result<IsoWeek, ParseError>) -> Result<WeeksSpec, ParseError> {
    match week {
        Ok(week) => Ok(WeeksSpec::Single(week)),
        Err(error) => Err(error),
    }
}

/// `From` of a week that was read, or the error of reading it.
pub open spec fn from_of(week: Result<IsoWeek, ParseError>) -> Result<WeeksSpec, ParseError> {
    match week {
        Ok(week) => Ok(WeeksSpec::From(week)),
        Err(error) => Err(error),
    }
}

/// `To` of a week that was read, or the error of reading it.
pub open spec fn to_of(week: Result<IsoWeek, ParseError>) -> Result<WeeksSpec, ParseError> {
    match week {
        Ok(week) => Ok(WeeksSpec::To(week)),
        Err(error) => Err(error),
    }
}

/// `Range` of two weeks that were read, or the error of reading the first, or else that
/// of reading the second.
pub open spec fn range_of(
    from: Result<IsoWeek, ParseError>,
    to: Result<IsoWeek, ParseError>,
) -> Result<WeeksSpec, ParseError> {
    match from {
        Err(error) => Err(error),
        Ok(from) => match to {
            Err(error) => Err(error),
            Ok(to) => Ok(WeeksSpec::Range(from, to)),
        },
    }
}

/// Finds the first `..` among the characters of `v` from `from` to `to`.
pub fn find_dots(v: &Vec<char>, from: usize, to: usize) -> (r: Option<usize>)
    requires
        from <= to <= v.len(),
    ensures
        r is Some <==> has_dots(v@.subrange(from as int, to as int)),
        r matches Some(k) ==> from <= k && k + 2 <= to && first_dots_at(
            v@.subrange(from as int, to as int),
            k - from,
        ) && first_dots(v@.subrange(from as int, to as int)) == k - from,
{
    let ghost s = v@.subrange(from as int, to as int);
    let mut k: usize = from;
    while to - k >= 2
        invariant
            from <= k <= to <= v.len(),
            s == v@.subrange(from as int, to as int),
            forall|i: int| 0 <= i < k - from ==> !dots_at(s, i),
        decreases to - k,
    {
        if v[k] == '.' && v[k + 1] == '.' {
            assert(dots_at(s, k - from));
            assert(first_dots_at(s, k - from));
            assert(first_dots_at(s, first_dots(s)));
            return Some(k);
        }
        assert(!dots_at(s, k - from));
        k += 1;
    }
    None
}

impl WeeksSpec {
    /// What the text `s` asks for when the current year is `current_year`, or what is
    /// wrong with `s`.
    ///
    /// Text without `..` names one week. Otherwise a week may stand before the first
    /// `..` and another after it, one of them at least; `..` may not occur again.
    pub open spec fn spec_parse(s: Seq<char>, current_year: i32) -> Result<WeeksSpec, ParseError> {
        if !has_dots(s) {
            single_of(spec_parse_week(s, current_year))
        } else {
            let from = s.take(first_dots(s));
            let to = s.skip(first_dots(s) + 2);
            if has_dots(to) {
                Err(ParseError::TooManyRangeParts)
            } else if to.len() == 0 {
                from_of(spec_parse_week(from, current_year))
            } else if from.len() == 0 {
                to_of(spec_parse_week(to, current_year))
            } else {
                range_of(spec_parse_week(from, current_year), spec_parse_week(to, current_year))
            }
        }
    }

    /// The weeks that this stands for when the current week is `this_week`.
    pub open spec fn spec_range(self, this_week: IsoWeek) -> WeekRange {
        match self {
            WeeksSpec::Single(week) => WeekRange { start: week, end: week },
            WeeksSpec::Range(from, to) => WeekRange { start: from, end: to },
            WeeksSpec::From(from) => WeekRange { start: from, end: this_week },
            WeeksSpec::To(to) => WeekRange { start: this_week, end: to },
        }
    }

    /// Reads what `i` asks for, where `current_year` is the year of a week written
    /// without one.
    pub fn parse_in(i: &str, current_year: i32) -> (r: Result<WeeksSpec, ParseError>)
        ensures
            r == WeeksSpec::spec_parse(i@, current_year),
    {
        let v = chars_of(i);
        let n: usize = v.len();
        assert(v@.subrange(0, n as int) =~= i@);
        let k: usize = match find_dots(&v, 0, n) {
            None => {
                return match parse_week_chars(&v, 0, n, current_year) {
                    Ok(week) => Ok(WeeksSpec::Single(week)),
                    Err(error) => Err(error),
                };
            },
            Some(k) => k,
        };
        assert(i@.take(k as int) =~= v@.subrange(0, k as int));
        assert(i@.skip(k + 2) =~= v@.subrange(k + 2, n as int));
        if find_dots(&v, k + 2, n).is_some() {
            return Err(ParseError::TooManyRangeParts);
        }
        if k + 2 == n {
            return match parse_week_chars(&v, 0, k, current_year) {
                Ok(week) => Ok(WeeksSpec::From(week)),
                Err(error) => Err(error),
            };
        }
        if k == 0 {
            return match parse_week_chars(&v, k + 2, n, current_year) {
                Ok(week) => Ok(WeeksSpec::To(week)),
                Err(error) => Err(error),
            };
        }
        let from = match parse_week_chars(&v, 0, k, current_year) {
            Ok(week) => week,
            Err(error) => {
                return Err(error);
            },
        };
        match parse_week_chars(&v, k + 2, n, current_year) {
            Ok(to) => Ok(WeeksSpec::Range(from, to)),
            Err(error) => Err(error),
        }
    }

    /// Reads what `i` asks for. A week written without a year is one of the ISO year of
    /// the day that the clock reports.
    pub fn parse(i: &str) -> (r: Result<WeeksSpec, ParseError>)
        ensures
            exists|current_year: i32|
                MIN_YEAR - 1 <= current_year <= MAX_YEAR + 1 && r == WeeksSpec::spec_parse(
                    i@,
                    current_year,
                ),
    {
        let current_year: i32 = Date::today().iso_week().year;
        WeeksSpec::parse_in(i, current_year)
    }

    /// The weeks that this stands for when the current week is `this_week`.
    pub fn range_at(&self, this_week: IsoWeek) -> (r: WeekRange)
        ensures
            r == self.spec_range(this_week),
    {
        match *self {
            WeeksSpec::Single(week) => WeekRange { start: week, end: week },
            WeeksSpec::Range(from, to) => WeekRange { start: from, end: to },
            WeeksSpec::From(from) => WeekRange { start: from, end: this_week },
            WeeksSpec::To(to) => WeekRange { start: this_week, end: to },
        }
    }

    /// The weeks that this stands for now: an open end is the week of the day that the
    /// clock reports at this call.
    pub fn range(&self) -> (r: WeekRange)
        ensures
            exists|day: int|
                MIN_DAY <= day <= MAX_DAY && r == self.spec_range(#[trigger] week_of_day(day)),
    {
        let today = Date::today();
        self.range_at(today.iso_week())
    }
}

impl std::str::FromStr for WeeksSpec {
    type Err = ParseError;

    /// Reads what `i` asks for. A week written without a year is one of the ISO year of
    /// the day that the clock reports.
    fn from_str(i: &str) -> (r: Result<WeeksSpec, ParseError>)
        ensures
            exists|current_year: i32|
                MIN_YEAR - 1 <= current_year <= MAX_YEAR + 1 && r == WeeksSpec::spec_parse(
                    i@,
                    current_year,
                ),
    {
        WeeksSpec::parse(i)
    }
}

/// The text `<YYYY>-w<N>` for a week of a year from 0 to 9999.
pub open spec fn week_text(week: IsoWeek) -> Seq<char> {
    four_digits(week.year as nat) + seq!['-', 'w'] + decimal_text(week.week as nat)
}

/// The text `w<N>` for a week, which leaves its year out.
pub open spec fn short_week_text(week: IsoWeek) -> Seq<char> {
    seq!['w'] + decimal_text(week.week as nat)
}

/// Writes `week` as `<YYYY>-w<N>`, if its year is one from 0 to 9999.
pub fn write_week(week: IsoWeek) -> (r: Option<String>)
    ensures
        r is Some <==> 0 <= week.year <= 9999,
        r matches Some(text) ==> text@ == week_text(week),
{
    if week.year < 0 || week.year > 9999 {
        return None;
    }
    proof {
        reveal_strlit("-w");
    }
    let mut text = String::new();
    push_four_digits(&mut text, week.year as u32);
    text.append("-w");
    push_decimal(&mut text, week.week);
    assert(text@ =~= week_text(week));
    Some(text)
}

/// Writes `week` as `w<N>`.
pub fn write_week_short(week: IsoWeek) -> (r: String)
    ensures
        r@ == short_week_text(week),
{
    proof {
        reveal_strlit("w");
    }
    let mut text = String::new();
    text.append("w");
    push_decimal(&mut text, week.week);
    assert(text@ =~= short_week_text(week));
    text
}

/// A week of the calendar, written with its year and read again, is the same week,
/// whatever the current year; read as a range, it is that week alone.
pub proof fn lemma_read_written_week(week: IsoWeek, current_year: i32)
    requires
        week.is_week(),
        0 <= week.year <= 9999,
    ensures
        spec_parse_week(week_text(week), current_year) == Ok::<IsoWeek, ParseError>(week),
        WeeksSpec::spec_parse(week_text(week), current_year) == Ok::<WeeksSpec, ParseError>(
            WeeksSpec::Single(week),
        ),
{
    let s = week_text(week);
    lemma_four_digits_text(week.year as nat);
    lemma_decimal_text(week.week as nat);
    assert(s.take(4) =~= four_digits(week.year as nat));
    assert(s.skip(6) =~= decimal_text(week.week as nat));
    assert(is_digit(four_digits(week.year as nat)[0]));
    assert(is_digit(decimal_text(week.week as nat)[0]));
    assert(s[0] == four_digits(week.year as nat)[0]);
    assert(s[4] == '-' && s[5] == 'w');
    assert forall|i: int| !dots_at(s, i) by {
        if 0 <= i && i + 1 < s.len() {
            if i < 4 {
                assert(is_digit(four_digits(week.year as nat)[i]));
            } else if i >= 6 {
                assert(is_digit(decimal_text(week.week as nat)[i - 6]));
            }
        }
    }
}

/// A week of the calendar, written without its year and read again in that year, is
/// the same week; read as a range, it is that week alone.
pub proof fn lemma_read_short_week(week: IsoWeek)
    requires
        week.is_week(),
    ensures
        spec_parse_week(short_week_text(week), week.year) == Ok::<IsoWeek, ParseError>(week),
        WeeksSpec::spec_parse(short_week_text(week), week.year) == Ok::<WeeksSpec, ParseError>(
            WeeksSpec::Single(week),
        ),
{
    let s = short_week_text(week);
    lemma_decimal_text(week.week as nat);
    assert(s.skip(1) =~= decimal_text(week.week as nat));
    assert(is_digit(decimal_text(week.week as nat)[0]));
    assert(s[0] == 'w');
    assert forall|i: int| !dots_at(s, i) by {
        if 0 <= i && i + 1 < s.len() {
            assert(is_digit(decimal_text(week.week as nat)[i]));
        }
    }
}

} // verus!
