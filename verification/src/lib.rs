//! Calendar arithmetic on ISO 8601 weeks: calendars of named seasons that tile the
//! weeks of a year, a year paired with a season, week ranges written as text, and the
//! weeks that a range holds.

use vstd::prelude::*;

pub mod eight;
pub mod error;
pub mod events;
pub mod four;
pub mod group;
pub mod iso;
pub mod object;
pub mod pretty;
pub mod range;
pub mod solar;
pub mod spec;
pub mod text;

use crate::iso::{week_of_day, Date, IsoWeek, WeekRange, Weekday, MAX_DAY, MIN_DAY};

pub use crate::pretty::PrettyWeek;
pub use crate::spec::{parse_one_week, WeeksSpec};

verus! {

/// The week number from 1 to 52 that a season calendar files `week` under.
///
/// Week 53, where a year has one, and week 0, which stands for the last week of the
/// year before, go with week 52. A number above 53 is first reduced modulo 52.
pub open spec fn canonical_week(week: u32) -> int {
    if week == 53 || week % 52 == 0 {
        52
    } else {
        (week % 52) as int
    }
}

/// A calendar of named seasons that tile the weeks 1 to 52 of a year.
///
/// The `spec_` functions are the model of a calendar; the four laws say what makes it
/// one. Every season is a run of weeks, every week from 1 to 52 belongs to exactly one
/// season, and `succ` goes through the seasons in the order of their weeks, from the
/// last one back to the first.
pub trait Seasonlike: PartialEq + Copy {
    /// The first week of the season, in the model.
    spec fn spec_starting_week(self) -> u8;

    /// The last week of the season, in the model.
    spec fn spec_ending_week(self) -> u8;

    /// The season that `week` belongs to, in the model.
    spec fn spec_from_week(week: u32) -> Self;

    /// The season before this one, in the model.
    spec fn spec_prev(self) -> Self;

    /// The season after this one, in the model.
    spec fn spec_succ(self) -> Self;

    /// The first week of the season.
    #[verifier::when_used_as_spec(spec_starting_week)]
    fn starting_week(self) -> (week: u8)
        ensures
            week == self.spec_starting_week(),
    ;

    /// The last week of the season.
    #[verifier::when_used_as_spec(spec_ending_week)]
    fn ending_week(self) -> (week: u8)
        ensures
            week == self.spec_ending_week(),
    ;

    /// The season that `week` belongs to.
    #[verifier::when_used_as_spec(spec_from_week)]
    fn from_week(week: u32) -> (season: Self)
        ensures
            season == Self::spec_from_week(week),
    ;

    /// The season before this one.
    #[verifier::when_used_as_spec(spec_prev)]
    fn prev(self) -> (season: Self)
        ensures
            season == self.spec_prev(),
    ;

    /// The season after this one.
    #[verifier::when_used_as_spec(spec_succ)]
    fn succ(self) -> (season: Self)
        ensures
            season == self.spec_succ(),
    ;

    /// A season is a run of at least one week, within the weeks 1 to 52.
    proof fn law_span(self)
        ensures
            1 <= self.spec_starting_week() <= self.spec_ending_week() <= 52,
    ;

    /// A week belongs to a season exactly if its canonical number lies in the season's
    /// run of weeks. So every week has one season, and no two seasons share a week.
    proof fn law_owner(self, week: u32)
        ensures
            Self::spec_from_week(week) == self <==> self.spec_starting_week() <= canonical_week(
                week,
            ) <= self.spec_ending_week(),
    ;

    /// The next season starts in the week after this one ends; after the season that
    /// ends the year comes the season that starts with week 1.
    proof fn law_succ(self)
        ensures
            self.spec_succ().spec_starting_week() == if self.spec_ending_week() == 52 {
                1
            } else {
                self.spec_ending_week() + 1
            },
    ;

    /// `prev` undoes `succ`, and `succ` undoes `prev`.
    proof fn law_ring(self)
        ensures
            self.spec_succ().spec_prev() == self,
            self.spec_prev().spec_succ() == self,
    ;
}

/// Of any calendar: the season of week 1 starts with week 1, the season of week 52 ends
/// with week 52, and they follow each other across the end of the year.
pub proof fn lemma_year_ends<T: Seasonlike>()
    ensures
        T::spec_from_week(1).spec_starting_week() == 1,
        T::spec_from_week(52).spec_ending_week() == 52,
        T::spec_from_week(52).spec_succ() == T::spec_from_week(1),
        T::spec_from_week(1).spec_prev() == T::spec_from_week(52),
{
    let first = T::spec_from_week(1);
    let last = T::spec_from_week(52);
    first.law_owner(1);
    first.law_span();
    last.law_owner(52);
    last.law_span();
    last.law_succ();
    last.spec_succ().law_span();
    last.spec_succ().law_owner(1);
    last.law_ring();
}

/// Of any calendar: a season is known by its first week, and by its last.
pub proof fn lemma_same_weeks<T: Seasonlike>(a: T, b: T)
    ensures
        a.spec_starting_week() == b.spec_starting_week() ==> a == b,
        a.spec_ending_week() == b.spec_ending_week() ==> a == b,
{
    a.law_span();
    b.law_span();
    a.law_owner(a.spec_starting_week() as u32);
    b.law_owner(a.spec_starting_week() as u32);
    a.law_owner(a.spec_ending_week() as u32);
    b.law_owner(a.spec_ending_week() as u32);
}

/// Of any calendar: every week from 1 to 52 lies in the run of weeks of its season.
pub proof fn lemma_from_week<T: Seasonlike>(week: u32)
    requires
        1 <= week <= 52,
    ensures
        T::spec_from_week(week).spec_starting_week() <= week <= T::spec_from_week(
            week,
        ).spec_ending_week(),
{
    T::spec_from_week(week).law_owner(week);
}

/// The place of the week with the number `week` among the weeks of its season, where
/// the first week of a season has the place 1. Week 53 comes after week 52, in the
/// last season; a number that lies before the first week of its season, as 0 does,
/// has no place.
pub open spec fn spec_week_of_season<T: Seasonlike>(week: u32) -> Option<u32> {
    if T::spec_from_week(week).spec_starting_week() <= week {
        Some((week - T::spec_from_week(week).spec_starting_week() + 1) as u32)
    } else {
        None
    }
}

/// The place of the week with the number `week` among the weeks of its season.
pub fn week_of_season<T: Seasonlike>(week: u32) -> (r: Option<u32>)
    ensures
        r == spec_week_of_season::<T>(week),
        1 <= week <= 53 ==> r is Some,
{
    let start: u32 = T::from_week(week).starting_week() as u32;
    proof {
        T::spec_from_week(week).law_owner(week);
        T::spec_from_week(week).law_span();
    }
    if start <= week {
        Some(week - start + 1)
    } else {
        None
    }
}

/// A season of one year.
#[derive(Debug, PartialEq, Clone, Copy)]
pub struct YearSeason<T> {
    pub year: i32,
    pub season: T,
}

impl<T: Seasonlike> YearSeason<T> {
    /// The season, and its year, that holds `week`.
    pub open spec fn spec_from_week(week: IsoWeek) -> YearSeason<T> {
        YearSeason { year: week.year, season: T::spec_from_week(week.week) }
    }

    /// Whether this is the first season of its year.
    pub open spec fn is_first(self) -> bool {
        self.season == T::spec_from_week(1)
    }

    /// Whether this is the last season of its year.
    pub open spec fn is_last(self) -> bool {
        self.season == T::spec_from_week(52)
    }

    /// The season before this one, in the year before where this one starts its year.
    pub open spec fn spec_prev(self) -> YearSeason<T> {
        YearSeason {
            year: if self.is_first() {
                (self.year - 1) as i32
            } else {
                self.year
            },
            season: self.season.spec_prev(),
        }
    }

    /// The season after this one, in the year after where this one ends its year.
    pub open spec fn spec_succ(self) -> YearSeason<T> {
        YearSeason {
            year: if self.is_last() {
                (self.year + 1) as i32
            } else {
                self.year
            },
            season: self.season.spec_succ(),
        }
    }

    /// The number of the last week of this season in its year: the season's last week,
    /// or week 53 for the season that ends a year which has a week 53.
    pub open spec fn last_week(self) -> u32 {
        if self.is_last() && (IsoWeek { year: self.year, week: 53 }).spec_day(Weekday::Mon)
            is Some {
            53
        } else {
            self.season.spec_ending_week() as u32
        }
    }

    /// The weeks of this season, from its first week to its last, both in `self.year`.
    pub open spec fn spec_weeks(self) -> WeekRange {
        WeekRange {
            start: IsoWeek { year: self.year, week: self.season.spec_starting_week() as u32 },
            end: IsoWeek { year: self.year, week: self.last_week() },
        }
    }

    /// Whether the calendar has the Monday of this season's first week and that of its
    /// last.
    pub open spec fn has_weeks(self) -> bool {
        &&& self.spec_weeks().start.spec_day(Weekday::Mon) is Some
        &&& self.spec_weeks().end.spec_day(Weekday::Mon) is Some
    }

    /// The season of the day that the clock reports.
    pub fn now() -> (r: YearSeason<T>)
        ensures
            exists|day: int|
                MIN_DAY <= day <= MAX_DAY && r == Self::spec_from_week(#[trigger] week_of_day(day)),
    {
        let today = Date::today();
        YearSeason::from_week(today.iso_week())
    }

    /// The number of the last week of this season in its year.
    pub fn last_week_number(self) -> (week: u32)
        ensures
            week == self.last_week(),
    {
        proof {
            lemma_same_weeks(self.season, T::spec_from_week(52));
        }
        let closes_year: bool = self.season.starting_week() == T::from_week(52).starting_week();
        if closes_year && (IsoWeek { year: self.year, week: 53 }).day(Weekday::Mon).is_some() {
            53
        } else {
            self.season.ending_week() as u32
        }
    }

    /// The weeks of this season.
    pub fn weeks(self) -> (r: WeekRange)
        requires
            self.has_weeks(),
        ensures
            r == self.spec_weeks(),
    {
        let first = IsoWeek { year: self.year, week: self.season.starting_week() as u32 };
        let last = IsoWeek { year: self.year, week: self.last_week_number() };
        let start = first.day(Weekday::Mon).unwrap().iso_week();
        let end = last.day(Weekday::Mon).unwrap().iso_week();
        WeekRange { start, end }
    }

    /// The weeks of this season, or `None` where the calendar lacks the Monday of the
    /// first or of the last of them.
    pub fn checked_weeks(self) -> (r: Option<WeekRange>)
        ensures
            r == if self.has_weeks() {
                Some(self.spec_weeks())
            } else {
                None
            },
    {
        let first = IsoWeek { year: self.year, week: self.season.starting_week() as u32 };
        let last = IsoWeek { year: self.year, week: self.last_week_number() };
        if first.day(Weekday::Mon).is_some() && last.day(Weekday::Mon).is_some() {
            Some(self.weeks())
        } else {
            None
        }
    }

    /// The season, and its year, that holds `week`.
    pub fn from_week(week: IsoWeek) -> (r: YearSeason<T>)
        ensures
            r == Self::spec_from_week(week),
    {
        YearSeason { year: week.year, season: T::from_week(week.week) }
    }

    /// The season before this one.
    pub fn prev(self) -> (r: YearSeason<T>)
        requires
            self.is_first() ==> self.year > i32::MIN,
        ensures
            r == self.spec_prev(),
    {
        proof {
            lemma_same_weeks(self.season, T::spec_from_week(1));
        }
        YearSeason {
            year: if self.season.starting_week() == T::from_week(1).starting_week() {
                self.year - 1
            } else {
                self.year
            },
            season: self.season.prev(),
        }
    }

    /// The season after this one.
    pub fn succ(self) -> (r: YearSeason<T>)
        requires
            self.is_last() ==> self.year < i32::MAX,
        ensures
            r == self.spec_succ(),
    {
        proof {
            lemma_same_weeks(self.season, T::spec_from_week(52));
        }
        YearSeason {
            year: if self.season.starting_week() == T::from_week(52).starting_week() {
                self.year + 1
            } else {
                self.year
            },
            season: self.season.succ(),
        }
    }
}

/// Stepping forward and then back, or back and then forward, gives the same season of
/// the same year.
pub proof fn lemma_year_season_round_trip<T: Seasonlike>(x: YearSeason<T>)
    ensures
        !x.is_last() || x.year < i32::MAX ==> x.spec_succ().spec_prev() == x,
        !x.is_first() || x.year > i32::MIN ==> x.spec_prev().spec_succ() == x,
{
    lemma_year_ends::<T>();
    x.season.law_ring();
    x.season.spec_succ().law_ring();
    x.season.spec_prev().law_ring();
}

/// The weeks of a season are a range that is not empty: the last of them does not come
/// before the first.
pub proof fn lemma_weeks_not_empty<T: Seasonlike>(x: YearSeason<T>)
    ensures
        !x.spec_weeks().spec_is_empty(),
        x.spec_weeks().start.year == x.year,
        x.spec_weeks().end.year == x.year,
{
    x.season.law_span();
}

/// The seasons of a year share out its weeks in order. The first season starts with
/// week 1, each season but the last is followed, in the same year, by one that starts
/// in the week after it ends, and the last season ends with week 52, or with week 53
/// in a year that has one; after it comes the first season of the next year.
pub proof fn lemma_year_tiling<T: Seasonlike>(x: YearSeason<T>)
    ensures
        x.is_first() <==> x.spec_weeks().start.week == 1,
        x.is_last() <==> x.spec_weeks().end.week >= 52,
        x.is_last() ==> x.spec_weeks().end.week == if (IsoWeek {
            year: x.year,
            week: 53,
        }).spec_day(Weekday::Mon) is Some {
            53u32
        } else {
            52u32
        },
        !x.is_last() ==> x.spec_succ().year == x.year && x.spec_succ().spec_weeks().start.week
            == x.spec_weeks().end.week + 1,
        x.is_last() && x.year < i32::MAX ==> x.spec_succ().year == x.year + 1
            && x.spec_succ().spec_weeks().start.week == 1,
{
    lemma_year_ends::<T>();
    lemma_same_weeks(x.season, T::spec_from_week(1));
    lemma_same_weeks(x.season, T::spec_from_week(52));
    x.season.law_span();
    x.season.law_succ();
}

/// The first week of a season is a week of that season, of the same year; so is the
/// last.
pub proof fn lemma_weeks_round_trip<T: Seasonlike>(x: YearSeason<T>)
    ensures
        YearSeason::<T>::spec_from_week(x.spec_weeks().start) == x,
        YearSeason::<T>::spec_from_week(x.spec_weeks().end) == x,
{
    x.season.law_span();
    x.season.law_owner(x.season.spec_starting_week() as u32);
    x.season.law_owner(x.season.spec_ending_week() as u32);
    x.season.law_owner(53);
    T::spec_from_week(52).law_owner(52);
}

} // verus!
