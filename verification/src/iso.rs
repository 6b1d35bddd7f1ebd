//! Days and ISO 8601 weeks.
//!
//! A day is held as its number in the proleptic Gregorian calendar, where day 1 is
//! 1 January of year 1. What the calendar says of a day (its year, month and ISO
//! week) is asked of the `chrono` crate, through the small functions at the head of
//! this module whose contracts are taken on trust.

use chrono::{Datelike, Local, NaiveDate};
use vstd::prelude::*;

verus! {

/// The first year whose days are all supported.
pub const MIN_YEAR: i32 = -262_143;

/// The last year whose days are all supported.
pub const MAX_YEAR: i32 = 262_142;

/// The number of the first supported day, 1 January of `MIN_YEAR`.
pub const MIN_DAY: i32 = -95_746_129;

/// The number of the last supported day, 31 December of `MAX_YEAR`.
pub const MAX_DAY: i32 = 95_745_399;

/// A day of the week.
#[derive(Clone, Copy, PartialEq, Eq, Debug, Hash, Structural)]
pub enum Weekday {
    Mon,
    Tue,
    Wed,
    Thu,
    Fri,
    Sat,
    Sun,
}

impl Weekday {
    /// The number of days since Monday.
    pub open spec fn number(self) -> int {
        match self {
            Weekday::Mon => 0,
            Weekday::Tue => 1,
            Weekday::Wed => 2,
            Weekday::Thu => 3,
            Weekday::Fri => 4,
            Weekday::Sat => 5,
            Weekday::Sun => 6,
        }
    }
}

/// The day number that `chrono::NaiveDate::from_isoywd_opt` gives for a year, a week
/// number and a weekday (as days since Monday), or `None` where it gives no date.
pub uninterp spec fn isoywd_day(year: int, week: int, weekday: int) -> Option<int>;

/// The day number that `chrono::NaiveDate::from_ymd_opt` gives for a year, a month and
/// a day of the month, or `None` where it gives no date.
pub uninterp spec fn ymd_day(year: int, month: int, day: int) -> Option<int>;

/// The ISO year and week number that `chrono::Datelike::iso_week` gives for the day
/// with the given number.
pub uninterp spec fn day_iso_week(day: int) -> (int, int);

/// The calendar year that `chrono::Datelike::year` gives for the day with the given
/// number.
pub uninterp spec fn day_year(day: int) -> int;

/// The month that `chrono::Datelike::month` gives for the day with the given number.
pub uninterp spec fn day_month(day: int) -> int;

/// The day of the month that `chrono::Datelike::day` gives for the day with the given
/// number.
pub uninterp spec fn day_of_month(day: int) -> int;

/// Calls `chrono::NaiveDate::from_isoywd_opt` and gives the number of the date it
/// returns. Trusted: the result is `isoywd_day` of the arguments; a date that comes
/// back lies in the supported range, and its ISO week is the year and week asked for.
/// The years left out are those on which chrono's arithmetic on the year may overflow.
#[verifier::external_body]
fn day_from_isoywd(year: i32, week: u32, weekday: Weekday) -> (r: Option<i32>)
    requires
        MIN_YEAR - 1 <= year <= MAX_YEAR + 1,
    ensures
        r is Some <==> isoywd_day(year as int, week as int, weekday.number()) is Some,
        r matches Some(d) ==> isoywd_day(year as int, week as int, weekday.number()) == Some(
            d as int,
        ),
        r matches Some(d) ==> MIN_DAY <= d <= MAX_DAY,
        r matches Some(d) ==> day_iso_week(d as int) == (year as int, week as int),
{
    let day = match weekday {
        Weekday::Mon => chrono::Weekday::Mon,
        Weekday::Tue => chrono::Weekday::Tue,
        Weekday::Wed => chrono::Weekday::Wed,
        Weekday::Thu => chrono::Weekday::Thu,
        Weekday::Fri => chrono::Weekday::Fri,
        Weekday::Sat => chrono::Weekday::Sat,
        Weekday::Sun => chrono::Weekday::Sun,
    };
    match NaiveDate::from_isoywd_opt(year, week, day) {
        Some(date) => Some(date.num_days_from_ce()),
        None => None,
    }
}

/// Calls `chrono::NaiveDate::from_ymd_opt` and gives the number of the date it returns.
/// Trusted: the result is `ymd_day` of the arguments, and a date that comes back lies in
/// the supported range.
#[verifier::external_body]
fn day_from_ymd(year: i32, month: u32, day: u32) -> (r: Option<i32>)
    ensures
        r is Some <==> ymd_day(year as int, month as int, day as int) is Some,
        r matches Some(d) ==> ymd_day(year as int, month as int, day as int) == Some(d as int),
        r matches Some(d) ==> MIN_DAY <= d <= MAX_DAY,
{
    match NaiveDate::from_ymd_opt(year, month, day) {
        Some(date) => Some(date.num_days_from_ce()),
        None => None,
    }
}

/// Calls `chrono::Datelike::iso_week` on the date with the given number. Trusted: the
/// result is `day_iso_week` of the day, the week number is between 1 and 53, and the
/// ISO year is the day's calendar year or a neighbour of it, so at most one year
/// outside the supported years.
#[verifier::external_body]
fn iso_week_of_day(day: i32) -> (r: (i32, u32))
    requires
        MIN_DAY <= day <= MAX_DAY,
    ensures
        (r.0 as int, r.1 as int) == day_iso_week(day as int),
        1 <= r.1 <= 53,
        MIN_YEAR - 1 <= r.0 <= MAX_YEAR + 1,
{
    let week = NaiveDate::from_num_days_from_ce_opt(day).unwrap().iso_week();
    (week.year(), week.week())
}

/// Calls `chrono::Datelike::year` on the date with the given number. Trusted: the
/// result is `day_year` of the day and lies in the supported years.
#[verifier::external_body]
fn year_of_day(day: i32) -> (r: i32)
    requires
        MIN_DAY <= day <= MAX_DAY,
    ensures
        r as int == day_year(day as int),
        MIN_YEAR <= r <= MAX_YEAR,
{
    NaiveDate::from_num_days_from_ce_opt(day).unwrap().year()
}

/// Calls `chrono::Datelike::month` on the date with the given number. Trusted: the
/// result is `day_month` of the day and is between 1 and 12.
#[verifier::external_body]
fn month_of_day(day: i32) -> (r: u32)
    requires
        MIN_DAY <= day <= MAX_DAY,
    ensures
        r as int == day_month(day as int),
        1 <= r <= 12,
{
    NaiveDate::from_num_days_from_ce_opt(day).unwrap().month()
}

/// Calls `chrono::Datelike::day` on the date with the given number. Trusted: the result
/// is `day_of_month` of the day and is between 1 and 31.
#[verifier::external_body]
fn day_of_month_of_day(day: i32) -> (r: u32)
    requires
        MIN_DAY <= day <= MAX_DAY,
    ensures
        r as int == day_of_month(day as int),
        1 <= r <= 31,
{
    NaiveDate::from_num_days_from_ce_opt(day).unwrap().day()
}

/// The number, from 1 to 12, of the month that `chrono::Month` reads from the name
/// `text` through its `FromStr`, or `None` where it reads none.
pub uninterp spec fn month_named(text: Seq<char>) -> Option<int>;

/// Calls `from_str` of `chrono::Month` and gives the number of the month it returns.
/// Trusted: the result is `month_named` of the text, and is between 1 and 12.
#[verifier::external_body]
pub(crate) fn month_from_name(text: &str) -> (r: Option<u32>)
    ensures
        r is Some <==> month_named(text@) is Some,
        r matches Some(month) ==> month_named(text@) == Some(month as int),
        r matches Some(month) ==> 1 <= month <= 12,
{
    match text.parse::<chrono::Month>() {
        Ok(month) => Some(month.number_from_month()),
        Err(_) => None,
    }
}

/// Reads the clock: the number of the local date that `chrono::Local::now` reports.
/// Nothing is promised of it.
#[verifier::external_body]
fn clock_day() -> (r: i32) {
    Local::now().date_naive().num_days_from_ce()
}

/// The ISO week that holds the day with the given number.
pub open spec fn week_of_day(day: int) -> IsoWeek {
    IsoWeek { year: day_iso_week(day).0 as i32, week: day_iso_week(day).1 as u32 }
}

/// The number of the supported day nearest to the day with the number `days`.
pub open spec fn nearest_day(days: int) -> int {
    if days < MIN_DAY {
        MIN_DAY as int
    } else if days > MAX_DAY {
        MAX_DAY as int
    } else {
        days
    }
}

/// A calendar day between `MIN_DAY` and `MAX_DAY`.
#[derive(Clone, Copy, PartialEq, Eq, PartialOrd, Ord, Hash, Debug)]
pub struct Date {
    days: i32,
}

impl View for Date {
    type V = int;

    /// The number of the day.
    closed spec fn view(&self) -> int {
        self.days as int
    }
}

impl Date {
    #[verifier::type_invariant]
    closed spec fn in_range(self) -> bool {
        MIN_DAY <= self.days <= MAX_DAY
    }

    /// The ISO week that holds this day.
    pub open spec fn spec_iso_week(self) -> IsoWeek {
        week_of_day(self@)
    }

    /// The day with the given number, if it is supported.
    pub fn from_days(days: i32) -> (r: Option<Date>)
        ensures
            r is Some <==> MIN_DAY <= days <= MAX_DAY,
            r matches Some(d) ==> d@ == days,
    {
        if MIN_DAY <= days && days <= MAX_DAY {
            Some(Date { days })
        } else {
            None
        }
    }

    /// The number of this day.
    pub fn days(self) -> (r: i32)
        ensures
            r == self@,
            MIN_DAY <= r <= MAX_DAY,
    {
        proof {
            use_type_invariant(&self);
        }
        self.days
    }

    /// The day with the given year, month and day of the month, if the calendar has it.
    pub fn from_ymd(year: i32, month: u32, day: u32) -> (r: Option<Date>)
        ensures
            r is Some <==> ymd_day(year as int, month as int, day as int) is Some,
            r matches Some(d) ==> ymd_day(year as int, month as int, day as int) == Some(d@),
            r matches Some(d) ==> MIN_DAY <= d@ <= MAX_DAY,
    {
        match day_from_ymd(year, month, day) {
            Some(days) => Some(Date { days }),
            None => None,
        }
    }

    /// The supported day nearest to the day with the number `days`: that day itself
    /// where it is supported, else the first or the last supported day.
    pub fn nearest(days: i32) -> (r: Date)
        ensures
            r@ == nearest_day(days as int),
    {
        if days < MIN_DAY {
            Date { days: MIN_DAY }
        } else if days > MAX_DAY {
            Date { days: MAX_DAY }
        } else {
            Date { days }
        }
    }

    /// The day that the clock reports, held to the supported range.
    pub fn today() -> (r: Date)
        ensures
            MIN_DAY <= r@ <= MAX_DAY,
    {
        Date::nearest(clock_day())
    }

    /// The calendar year of this day.
    pub fn year(self) -> (r: i32)
        ensures
            r == day_year(self@),
            MIN_YEAR <= r <= MAX_YEAR,
    {
        proof {
            use_type_invariant(&self);
        }
        year_of_day(self.days)
    }

    /// The month of this day, from 1 to 12.
    pub fn month(self) -> (r: u32)
        ensures
            r == day_month(self@),
            1 <= r <= 12,
    {
        proof {
            use_type_invariant(&self);
        }
        month_of_day(self.days)
    }

    /// The day of the month of this day, from 1 to 31.
    pub fn day(self) -> (r: u32)
        ensures
            r == day_of_month(self@),
            1 <= r <= 31,
    {
        proof {
            use_type_invariant(&self);
        }
        day_of_month_of_day(self.days)
    }

    /// The ISO week that holds this day.
    pub fn iso_week(self) -> (r: IsoWeek)
        ensures
            r == self.spec_iso_week(),
            r@ == day_iso_week(self@),
            1 <= r.week <= 53,
            MIN_YEAR - 1 <= r.year <= MAX_YEAR + 1,
    {
        proof {
            use_type_invariant(&self);
        }
        let (year, week): (i32, u32) = iso_week_of_day(self.days);
        IsoWeek { year, week }
    }

    /// The day `days` days after this one (before it, where `days` is negative), if it
    /// is supported.
    pub fn checked_add_days(self, days: i32) -> (r: Option<Date>)
        ensures
            r is Some <==> MIN_DAY <= self@ + days <= MAX_DAY,
            r matches Some(d) ==> d@ == self@ + days,
    {
        proof {
            use_type_invariant(&self);
        }
        match self.days.checked_add(days) {
            Some(sum) => Date::from_days(sum),
            None => None,
        }
    }
}

/// An ISO 8601 week: a year of the week calendar and a week number in it.
///
/// Weeks are ordered by year, then by week number. Not every pair names a week that
/// the calendar has: see `IsoWeek::spec_day`.
#[derive(Clone, Copy, PartialEq, Eq, PartialOrd, Ord, Hash, Debug, Structural)]
pub struct IsoWeek {
    pub year: i32,
    pub week: u32,
}

impl View for IsoWeek {
    type V = (int, int);

    /// The year and the week number.
    open spec fn view(&self) -> (int, int) {
        (self.year as int, self.week as int)
    }
}

/// Whether the week `a` is the week `b` or comes before it.
pub open spec fn week_le(a: (int, int), b: (int, int)) -> bool {
    a.0 < b.0 || (a.0 == b.0 && a.1 <= b.1)
}

impl IsoWeek {
    /// The number of the given weekday of this week, or `None` where the calendar has
    /// no such day in its supported range.
    pub open spec fn spec_day(self, weekday: Weekday) -> Option<int> {
        if MIN_YEAR - 1 <= self.year <= MAX_YEAR + 1 {
            isoywd_day(self.year as int, self.week as int, weekday.number())
        } else {
            None
        }
    }

    /// Whether this is a week of the calendar: one whose Wednesday is a supported day.
    pub open spec fn is_week(self) -> bool {
        self.spec_day(Weekday::Wed) is Some
    }

    /// The given weekday of this week, if the calendar has it.
    pub fn day(self, weekday: Weekday) -> (r: Option<Date>)
        ensures
            r is Some <==> self.spec_day(weekday) is Some,
            r matches Some(d) ==> self.spec_day(weekday) == Some(d@) && d.spec_iso_week() == self,
            r matches Some(d) ==> MIN_DAY <= d@ <= MAX_DAY,
    {
        if self.year < MIN_YEAR - 1 || self.year > MAX_YEAR + 1 {
            return None;
        }
        match day_from_isoywd(self.year, self.week, weekday) {
            Some(days) => Some(Date { days }),
            None => None,
        }
    }

    /// The week with the given year and number, if it is a week of the calendar.
    pub fn new(year: i32, week: u32) -> (r: Option<IsoWeek>)
        ensures
            r == if (IsoWeek { year, week }).is_week() {
                Some(IsoWeek { year, week })
            } else {
                None
            },
    {
        match (IsoWeek { year, week }).day(Weekday::Wed) {
            Some(date) => Some(date.iso_week()),
            None => None,
        }
    }

    /// Whether this week is `other` or comes before it.
    pub fn le(self, other: IsoWeek) -> (r: bool)
        ensures
            r == week_le(self@, other@),
    {
        self.year < other.year || (self.year == other.year && self.week <= other.week)
    }
}

/// The weeks from `start` to `end`, both included; none where `end` comes before
/// `start`.
#[derive(Clone, Copy, PartialEq, Eq, Hash, Debug, Structural)]
pub struct WeekRange {
    pub start: IsoWeek,
    pub end: IsoWeek,
}

impl WeekRange {
    /// Whether `week` lies in this range.
    pub open spec fn spec_contains(self, week: IsoWeek) -> bool {
        week_le(self.start@, week@) && week_le(week@, self.end@)
    }

    /// Whether this range holds no week: its end comes before its start.
    pub open spec fn spec_is_empty(self) -> bool {
        !week_le(self.start@, self.end@)
    }

    /// Whether `week` lies in this range.
    pub fn contains(self, week: IsoWeek) -> (r: bool)
        ensures
            r == self.spec_contains(week),
    {
        self.start.le(week) && week.le(self.end)
    }

    /// Whether this range holds no week.
    pub fn is_empty(self) -> (r: bool)
        ensures
            r == self.spec_is_empty(),
    {
        !self.start.le(self.end)
    }
}

} // verus!
