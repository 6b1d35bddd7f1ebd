//! A year, or a part of one, written as text.
//!
//! `2024` is a year, `2024-March` a month, `2024-Lent` a season of the calendar of
//! eight seasons, `2024-w12` a week and `2024-3-14` a day. Where the text does not
//! start with a year, the current year is meant.

use crate::eight::Season;
use crate::iso::{month_from_name, month_named, ymd_day, Date, MAX_YEAR, MIN_YEAR};
use crate::text::{
    chars_of, decimal, digit_value, find_char, first_index, has_char, is_digit,
    lemma_four_digits, read_unsigned, unsigned,
};
use crate::YearSeason;
use vstd::prelude::*;
use vstd::string::StrSliceExecFns;

verus! {

/// A year, or a month, a week, a day or a season of a year.
#[derive(Debug, Clone, Copy, PartialEq)]
pub enum DateObject {
    /// A year.
    Year(i32),
    /// A year and a month, from 1 to 12.
    Month(i32, u32),
    /// A year and the number of a week.
    Week(i32, u8),
    /// A day.
    Day(Date),
    /// A season of a year.
    Season(YearSeason<Season>),
}

/// A `DateObject` with its day, if it holds one, by its number.
pub enum ObjectView {
    Year(int),
    Month(int, int),
    Week(int, int),
    Day(int),
    Season(int, Season),
}

impl View for DateObject {
    type V = ObjectView;

    open spec fn view(&self) -> ObjectView {
        match *self {
            DateObject::Year(year) => ObjectView::Year(year as int),
            DateObject::Month(year, month) => ObjectView::Month(year as int, month as int),
            DateObject::Week(year, week) => ObjectView::Week(year as int, week as int),
            DateObject::Day(date) => ObjectView::Day(date@),
            DateObject::Season(season) => ObjectView::Season(season.year as int, season.season),
        }
    }
}

/// Why a text names no year and no part of one.
#[derive(Debug, Clone, Copy, PartialEq, Eq, Hash, Structural)]
pub enum ObjectError {
    /// What follows the `w` is not a number up to 255.
    MalformedWeekNumber,
    /// What should be a month is neither a name nor a number.
    MalformedMonth,
    /// A number of a month is not followed by `-` and a day.
    MissingDay,
    /// What should be a day of the month is not a number.
    MalformedDay,
    /// The calendar has no such day.
    NoSuchDay,
}

/// The text up to the first `-` of `s`, or all of `s` where it holds none.
pub open spec fn first_token(s: Seq<char>) -> Seq<char> {
    if has_char(s, '-') {
        s.take(first_index(s, '-'))
    } else {
        s
    }
}

/// What follows the first `-` of `s`, if it holds one.
pub open spec fn after_token(s: Seq<char>) -> Option<Seq<char>> {
    if has_char(s, '-') {
        Some(s.skip(first_index(s, '-') + 1))
    } else {
        None
    }
}

/// The year that `token` writes: four characters that are an unsigned number.
pub open spec fn year_of_token(token: Seq<char>) -> Option<i32> {
    if token.len() == 4 && unsigned(token) is Some {
        Some(unsigned(token).unwrap() as i32)
    } else {
        None
    }
}

/// Whether a season has the name `token`.
pub open spec fn names_season(token: Seq<char>) -> bool {
    exists|season: Season| season.spec_name() == token
}

/// The season with the name `token`, where one has it.
pub open spec fn season_named(token: Seq<char>) -> Season {
    choose|season: Season| season.spec_name() == token
}

/// The day that `s` names in `year`, where `s` is the number of a month, `-`, and the
/// number of a day of the month; what follows a further `-` is not looked at.
pub open spec fn spec_parse_day(s: Seq<char>, year: i32) -> Result<ObjectView, ObjectError> {
    match unsigned(first_token(s)) {
        None => Err(ObjectError::MalformedMonth),
        Some(month) => match after_token(s) {
            None => Err(ObjectError::MissingDay),
            Some(rest) => match unsigned(first_token(rest)) {
                None => Err(ObjectError::MalformedDay),
                Some(day) => match ymd_day(year as int, month as int, day as int) {
                    Some(number) => Ok(ObjectView::Day(number)),
                    None => Err(ObjectError::NoSuchDay),
                },
            },
        },
    }
}

/// The part of `year` that `s` names. Its text up to the first `-` is tried as the
/// name of a month, then as the name of a season, then as `w` and the number of a
/// week, and last as the number of a month that a day follows.
pub open spec fn spec_parse_part(s: Seq<char>, year: i32) -> Result<ObjectView, ObjectError> {
    let token = first_token(s);
    if month_named(token) is Some {
        Ok(ObjectView::Month(year as int, month_named(token).unwrap()))
    } else if names_season(token) {
        Ok(ObjectView::Season(year as int, season_named(token)))
    } else if token.len() > 0 && token[0] == 'w' {
        match unsigned(token.skip(1)) {
            Some(week) if week <= u8::MAX => Ok(ObjectView::Week(year as int, week as int)),
            _ => Err(ObjectError::MalformedWeekNumber),
        }
    } else {
        spec_parse_day(s, year)
    }
}

/// What the text `s` names when the current year is `current_year`, or what is wrong
/// with `s`.
pub open spec fn spec_parse_object(s: Seq<char>, current_year: i32) -> Result<
    ObjectView,
    ObjectError,
> {
    match year_of_token(first_token(s)) {
        Some(year) => match after_token(s) {
            Some(rest) => spec_parse_part(rest, year),
            None => Ok(ObjectView::Year(year as int)),
        },
        None => spec_parse_part(s, current_year),
    }
}

/// Finds where the text of `v` from `from` on first holds `-`, or where it ends.
fn token_end(v: &Vec<char>, from: usize) -> (to: usize)
    requires
        from <= v.len(),
    ensures
        from <= to <= v.len(),
        v@.subrange(from as int, to as int) == first_token(v@.skip(from as int)),
        to < v.len() <==> has_char(v@.skip(from as int), '-'),
        to < v.len() ==> after_token(v@.skip(from as int)) == Some(v@.skip(to + 1)),
        to == v.len() ==> after_token(v@.skip(from as int)) is None,
{
    let n: usize = v.len();
    assert(v@.subrange(from as int, n as int) =~= v@.skip(from as int));
    match find_char(v, from, n, '-') {
        Some(k) => {
            assert(v@.skip(from as int).take(k - from) =~= v@.subrange(from as int, k as int));
            assert(v@.skip(from as int).skip(k - from + 1) =~= v@.skip(k + 1));
            k
        },
        None => n,
    }
}

/// Reads the day that the text of `v` from `from` on names in `year`.
fn parse_day(v: &Vec<char>, from: usize, year: i32) -> (r: Result<DateObject, ObjectError>)
    requires
        from <= v.len(),
    ensures
        r matches Ok(object) ==> spec_parse_day(v@.skip(from as int), year) == Ok::<
            ObjectView,
            ObjectError,
        >(object@),
        r matches Err(error) ==> spec_parse_day(v@.skip(from as int), year) == Err::<
            ObjectView,
            ObjectError,
        >(error),
{
    let to: usize = token_end(v, from);
    let month: u32 = match read_unsigned(v, from, to) {
        Some(month) => month,
        None => {
            return Err(ObjectError::MalformedMonth);
        },
    };
    if to == v.len() {
        return Err(ObjectError::MissingDay);
    }
    let end: usize = token_end(v, to + 1);
    let day: u32 = match read_unsigned(v, to + 1, end) {
        Some(day) => day,
        None => {
            return Err(ObjectError::MalformedDay);
        },
    };
    match Date::from_ymd(year, month, day) {
        Some(date) => Ok(DateObject::Day(date)),
        None => Err(ObjectError::NoSuchDay),
    }
}

/// Reads the part of `year` that the text of `v` from `from` on names, where `v` holds
/// the characters of `txt`.
fn parse_part(txt: &str, v: &Vec<char>, from: usize, year: i32) -> (r: Result<
    DateObject,
    ObjectError,
>)
    requires
        v@ == txt@,
        from <= v.len(),
    ensures
        r matches Ok(object) ==> spec_parse_part(v@.skip(from as int), year) == Ok::<
            ObjectView,
            ObjectError,
        >(object@),
        r matches Err(error) ==> spec_parse_part(v@.skip(from as int), year) == Err::<
            ObjectView,
            ObjectError,
        >(error),
{
    let to: usize = token_end(v, from);
    let token: &str = txt.substring_char(from, to);
    if let Some(month) = month_from_name(token) {
        return Ok(DateObject::Month(year, month));
    }
    if let Ok(season) = Season::parse(token) {
        assert(season_named(token@).spec_name() == token@);
        return Ok(DateObject::Season(YearSeason { year, season }));
    }
    assert(!names_season(token@));
    if from < to && v[from] == 'w' {
        assert(token@.skip(1) =~= v@.subrange(from + 1, to as int));
        return match read_unsigned(v, from + 1, to) {
            Some(week) => if week <= 255 {
                Ok(DateObject::Week(year, week as u8))
            } else {
                Err(ObjectError::MalformedWeekNumber)
            },
            None => Err(ObjectError::MalformedWeekNumber),
        };
    }
    assert(from < to ==> token@[0] == v@[from as int]);
    parse_day(v, from, year)
}

impl DateObject {
    /// Reads what `txt` names, where `current_year` is the year of a text that starts
    /// with none.
    pub fn parse_in(txt: &str, current_year: i32) -> (r: Result<DateObject, ObjectError>)
        ensures
            r matches Ok(object) ==> spec_parse_object(txt@, current_year) == Ok::<
                ObjectView,
                ObjectError,
            >(object@),
            r matches Err(error) ==> spec_parse_object(txt@, current_year) == Err::<
                ObjectView,
                ObjectError,
            >(error),
    {
        let v = chars_of(txt);
        assert(v@.skip(0) =~= v@);
        let to: usize = token_end(&v, 0);
        if to == 4 {
            if let Some(year) = read_unsigned(&v, 0, 4) {
                proof {
                    lemma_year_fits(v@.subrange(0, 4));
                }
                if to == v.len() {
                    return Ok(DateObject::Year(year as i32));
                }
                return parse_part(txt, &v, to + 1, year as i32);
            }
        }
        parse_part(txt, &v, 0, current_year)
    }

    /// Reads what `txt` names. A text that starts with no year means the calendar year
    /// of the day that the clock reports.
    pub fn parse(txt: &str) -> (r: Result<DateObject, ObjectError>)
        ensures
            exists|current_year: i32|
                MIN_YEAR <= current_year <= MAX_YEAR && {
                    &&& r matches Ok(object) ==> #[trigger] spec_parse_object(txt@, current_year)
                        == Ok::<ObjectView, ObjectError>(object@)
                    &&& r matches Err(error) ==> spec_parse_object(txt@, current_year) == Err::<
                        ObjectView,
                        ObjectError,
                    >(error)
                },
    {
        let current_year: i32 = Date::today().year();
        DateObject::parse_in(txt, current_year)
    }
}

impl std::str::FromStr for DateObject {
    type Err = ObjectError;

    /// Reads what `txt` names. A text that starts with no year means the calendar year
    /// of the day that the clock reports.
    fn from_str(txt: &str) -> (r: Result<DateObject, ObjectError>)
        ensures
            exists|current_year: i32|
                MIN_YEAR <= current_year <= MAX_YEAR && {
                    &&& r matches Ok(object) ==> #[trigger] spec_parse_object(txt@, current_year)
                        == Ok::<ObjectView, ObjectError>(object@)
                    &&& r matches Err(error) ==> spec_parse_object(txt@, current_year) == Err::<
                        ObjectView,
                        ObjectError,
                    >(error)
                },
    {
        DateObject::parse(txt)
    }
}

/// Four characters that are an unsigned number write one below ten thousand.
pub proof fn lemma_year_fits(token: Seq<char>)
    requires
        token.len() == 4,
        unsigned(token) is Some,
    ensures
        unsigned(token).unwrap() <= 9999,
{
    if token[0] == '+' {
        let digits = token.skip(1);
        let d2 = digits.drop_last();
        let d1 = d2.drop_last();
        assert(d1.drop_last() =~= Seq::<char>::empty());
        assert(decimal(Seq::<char>::empty()) == 0);
        assert(is_digit(digits[0]) && is_digit(digits[1]) && is_digit(digits[2]));
        assert(d1.last() == digits[0] && d2.last() == digits[1] && digits.last() == digits[2]);
        assert(decimal(d1) == digit_value(digits[0]));
        assert(decimal(d2) == decimal(d1) * 10 + digit_value(digits[1]));
    } else {
        lemma_four_digits(token);
    }
}

} // verus!
