//! From a request to a range of weeks, and from a range to the weeks in it.

use crate::eight::Season;
use crate::group::Grouping;
use crate::iso::{
    day_month, day_year, week_le, week_of_day, ymd_day, Date, IsoWeek, WeekRange, Weekday,
    MAX_DAY, MIN_DAY,
};
use crate::spec::WeeksSpec;
use crate::YearSeason;
use vstd::prelude::*;

verus! {

/// How many days before today the default window starts: three weeks.
pub const DAYS_BEFORE: i32 = 21;

/// How many days after today the default window ends: nine weeks.
pub const DAYS_AFTER: i32 = 63;

/// What to show.
#[derive(Debug, Clone, Copy, PartialEq, Eq, Structural)]
pub enum Request {
    /// The weeks that a text asked for.
    Spec(WeeksSpec),
    /// The current calendar year.
    Year,
    /// The current season of the calendar of eight seasons.
    Season,
    /// The current month.
    Month,
    /// The current week.
    Week,
    /// The current season of the calendar of eight seasons, and the season after it.
    TwoSeasons,
    /// Three weeks before the current week to nine weeks after it.
    Default,
}

/// The weeks from that of the day `first` to that of the day `last`.
pub open spec fn weeks_of_days(first: int, last: int) -> WeekRange {
    WeekRange { start: week_of_day(first), end: week_of_day(last) }
}

/// The number of the last day of a month, from 1 to 12: 31 December, or the day before
/// the first of the next month.
pub open spec fn month_end(year: int, month: int) -> Option<int> {
    if month < 1 || month > 12 {
        None
    } else if month == 12 {
        ymd_day(year, 12, 31)
    } else {
        match ymd_day(year, month + 1, 1) {
            Some(day) if day > MIN_DAY => Some(day - 1),
            _ => None,
        }
    }
}

/// The week of `today`, alone.
pub open spec fn spec_this_week(today: Date) -> WeekRange {
    weeks_of_days(today@, today@)
}

/// The default window around `today`, where its first and last day are supported days.
pub open spec fn spec_window(today: Date) -> Option<WeekRange> {
    if MIN_DAY <= today@ - DAYS_BEFORE && today@ + DAYS_AFTER <= MAX_DAY {
        Some(weeks_of_days(today@ - DAYS_BEFORE, today@ + DAYS_AFTER))
    } else {
        None
    }
}

/// The weeks of the calendar year of `today`: to 31 December, from 4 January where the
/// weeks will be shown in groups, so that the first of them is week 1, and from
/// 1 January where they will not.
pub open spec fn spec_this_year(today: Date, grouped: bool) -> Option<WeekRange> {
    let first = ymd_day(day_year(today@), 1, if grouped { 4 } else { 1 });
    let last = ymd_day(day_year(today@), 12, 31);
    if first is Some && last is Some {
        Some(weeks_of_days(first.unwrap(), last.unwrap()))
    } else {
        None
    }
}

/// The weeks of the month of `today`, from that of its first day to that of its last.
pub open spec fn spec_this_month(today: Date) -> Option<WeekRange> {
    let first = ymd_day(day_year(today@), day_month(today@), 1);
    let last = month_end(day_year(today@), day_month(today@));
    if first is Some && last is Some {
        Some(weeks_of_days(first.unwrap(), last.unwrap()))
    } else {
        None
    }
}

/// The weeks of the season of `today`, in the calendar of eight seasons.
pub open spec fn spec_this_season(today: Date) -> Option<WeekRange> {
    let season = YearSeason::<Season>::spec_from_week(today.spec_iso_week());
    if season.has_weeks() {
        Some(season.spec_weeks())
    } else {
        None
    }
}

/// The weeks of the season of `today` and of the season after it, in the calendar of
/// eight seasons: from the first week of the one to the last week of the other.
pub open spec fn spec_two_seasons(today: Date) -> Option<WeekRange> {
    let season = YearSeason::<Season>::spec_from_week(today.spec_iso_week());
    if season.has_weeks() && season.spec_succ().has_weeks() {
        Some(WeekRange { start: season.spec_weeks().start, end: season.spec_succ().spec_weeks().end })
    } else {
        None
    }
}

/// The weeks that `request` stands for on the day `today`.
pub open spec fn spec_resolve(request: Request, grouping: Grouping, today: Date) -> Option<
    WeekRange,
> {
    match request {
        Request::Spec(spec) => Some(spec.spec_range(today.spec_iso_week())),
        Request::Year => spec_this_year(today, grouping != Grouping::Continuous),
        Request::Season => spec_this_season(today),
        Request::Month => spec_this_month(today),
        Request::Week => Some(spec_this_week(today)),
        Request::TwoSeasons => spec_two_seasons(today),
        Request::Default => spec_window(today),
    }
}

/// The week of `today`, alone.
pub fn this_week(today: Date) -> (r: WeekRange)
    ensures
        r == spec_this_week(today),
{
    let week = today.iso_week();
    WeekRange { start: week, end: week }
}

/// The default window: from the week of the day three weeks before `today` to the week
/// of the day nine weeks after it. `None` where one of the two days is not supported.
pub fn window(today: Date) -> (r: Option<WeekRange>)
    ensures
        r == spec_window(today),
{
    let first = match today.checked_add_days(-DAYS_BEFORE) {
        Some(day) => day,
        None => {
            return None;
        },
    };
    match today.checked_add_days(DAYS_AFTER) {
        Some(last) => Some(WeekRange { start: first.iso_week(), end: last.iso_week() }),
        None => None,
    }
}

/// The weeks of the calendar year of `today`. `None` where the calendar lacks the first
/// or the last day of that year.
pub fn this_year(today: Date, grouped: bool) -> (r: Option<WeekRange>)
    ensures
        r == spec_this_year(today, grouped),
{
    let year: i32 = today.year();
    let first = match Date::from_ymd(year, 1, if grouped { 4 } else { 1 }) {
        Some(day) => day,
        None => {
            return None;
        },
    };
    match Date::from_ymd(year, 12, 31) {
        Some(last) => Some(WeekRange { start: first.iso_week(), end: last.iso_week() }),
        None => None,
    }
}

/// The last day of the month with the number `month` of `year`, if the calendar has it.
pub fn last_of_month(year: i32, month: u32) -> (r: Option<Date>)
    ensures
        r is Some <==> month_end(year as int, month as int) is Some,
        r matches Some(day) ==> month_end(year as int, month as int) == Some(day@),
{
    if month < 1 || month > 12 {
        return None;
    }
    if month == 12 {
        return Date::from_ymd(year, 12, 31);
    }
    match Date::from_ymd(year, month + 1, 1) {
        Some(next) => next.checked_add_days(-1),
        None => None,
    }
}

/// The weeks of the month of `today`. `None` where the calendar lacks the first or the
/// last day of that month.
pub fn this_month(today: Date) -> (r: Option<WeekRange>)
    ensures
        r == spec_this_month(today),
{
    let year: i32 = today.year();
    let month: u32 = today.month();
    let first = match Date::from_ymd(year, month, 1) {
        Some(day) => day,
        None => {
            return None;
        },
    };
    match last_of_month(year, month) {
        Some(last) => Some(WeekRange { start: first.iso_week(), end: last.iso_week() }),
        None => None,
    }
}

/// The weeks of the season of `today`. `None` where the calendar lacks the Monday of
/// the first or of the last of them.
pub fn this_season(today: Date) -> (r: Option<WeekRange>)
    ensures
        r == spec_this_season(today),
{
    YearSeason::<Season>::from_week(today.iso_week()).checked_weeks()
}

/// The weeks of the season of `today` and of the season after it. `None` where the
/// calendar lacks the Monday of the first or of the last week of one of the two.
pub fn two_seasons(today: Date) -> (r: Option<WeekRange>)
    ensures
        r == spec_two_seasons(today),
{
    let season = YearSeason::<Season>::from_week(today.iso_week());
    let first = match season.checked_weeks() {
        Some(weeks) => weeks,
        None => {
            return None;
        },
    };
    match season.succ().checked_weeks() {
        Some(second) => Some(WeekRange { start: first.start, end: second.end }),
        None => None,
    }
}

/// The weeks that `request` stands for on the day `today`, where they will be shown
/// as `grouping` says. `None` where the calendar lacks a day that the answer rests on.
pub fn resolve(request: Request, grouping: Grouping, today: Date) -> (r: Option<WeekRange>)
    ensures
        r == spec_resolve(request, grouping, today),
{
    match request {
        Request::Spec(spec) => Some(spec.range_at(today.iso_week())),
        Request::Year => this_year(today, grouping != Grouping::Continuous),
        Request::Season => this_season(today),
        Request::Month => this_month(today),
        Request::Week => Some(this_week(today)),
        Request::TwoSeasons => two_seasons(today),
        Request::Default => window(today),
    }
}

/// The weeks of the days `day`, `day + 7`, `day + 14` and so on, up to, and without,
/// the first of them that comes after the week `end` or is no supported day.
pub open spec fn weeks_from(day: int, end: IsoWeek) -> Seq<IsoWeek>
    decreases MAX_DAY + 7 - day,
{
    if day > MAX_DAY || !week_le(week_of_day(day)@, end@) {
        Seq::empty()
    } else {
        seq![week_of_day(day)] + weeks_from(day + 7, end)
    }
}

/// Of `weeks_from(day, end)`: the week at the place `k` is the week of the day `7 * k`
/// days after `day`, that day is a supported day, and the week is `end` or comes before
/// it. There is a first week exactly if `day` is a supported day and its week is `end`
/// or comes before it. The place after the last is that of a day which is not supported
/// or whose week comes after `end`.
pub proof fn lemma_weeks_from(day: int, end: IsoWeek)
    ensures
        forall|k: int|
            0 <= k < weeks_from(day, end).len() ==> {
                &&& #[trigger] weeks_from(day, end)[k] == week_of_day(day + 7 * k)
                &&& day + 7 * k <= MAX_DAY
                &&& week_le(week_of_day(day + 7 * k)@, end@)
            },
        weeks_from(day, end).len() > 0 <==> day <= MAX_DAY && week_le(week_of_day(day)@, end@),
        day + 7 * weeks_from(day, end).len() > MAX_DAY || !week_le(
            week_of_day(day + 7 * weeks_from(day, end).len())@,
            end@,
        ),
    decreases MAX_DAY + 7 - day,
{
    if day <= MAX_DAY && week_le(week_of_day(day)@, end@) {
        lemma_weeks_from(day + 7, end);
        let rest = weeks_from(day + 7, end);
        assert forall|k: int| 0 <= k < weeks_from(day, end).len() implies {
            &&& #[trigger] weeks_from(day, end)[k] == week_of_day(day + 7 * k)
            &&& day + 7 * k <= MAX_DAY
            &&& week_le(week_of_day(day + 7 * k)@, end@)
        } by {
            if k > 0 {
                assert(weeks_from(day, end)[k] == rest[k - 1]);
                assert(day + 7 + 7 * (k - 1) == day + 7 * k);
            }
        }
        assert(day + 7 + 7 * rest.len() == day + 7 * weeks_from(day, end).len());
    }
}

/// The weeks of `range` in order, found by going from the Wednesday of its first week
/// in steps of seven days. `None` where `range.start` is no week of the calendar.
pub fn weeks_in_range(range: WeekRange) -> (r: Option<Vec<IsoWeek>>)
    ensures
        r is Some <==> range.start.is_week(),
        r matches Some(weeks) ==> weeks@ == weeks_from(
            range.start.spec_day(Weekday::Wed).unwrap(),
            range.end,
        ),
        r matches Some(weeks) ==> (weeks.len() > 0 <==> !range.spec_is_empty()),
        r matches Some(weeks) ==> weeks.len() > 0 ==> weeks[0] == range.start,
        r matches Some(weeks) ==> forall|k: int|
            0 <= k < weeks.len() ==> week_le((#[trigger] weeks[k])@, range.end@),
{
    let first = match range.start.day(Weekday::Wed) {
        Some(day) => day,
        None => {
            return None;
        },
    };
    let mut weeks: Vec<IsoWeek> = Vec::new();
    let mut day = first;
    loop
        invariant_except_break
            weeks@ + weeks_from(day@, range.end) == weeks_from(first@, range.end),
        ensures
            weeks@ == weeks_from(first@, range.end),
        decreases MAX_DAY - day@,
    {
        let n: i32 = day.days();
        let week = day.iso_week();
        if !week.le(range.end) {
            assert(weeks@ + Seq::<IsoWeek>::empty() =~= weeks@);
            break;
        }
        let ghost before = weeks@;
        weeks.push(week);
        assert(weeks@ + weeks_from(day@ + 7, range.end) =~= before + weeks_from(
            day@,
            range.end,
        ));
        match day.checked_add_days(7) {
            Some(next) => {
                day = next;
            },
            None => {
                assert(weeks@ + Seq::<IsoWeek>::empty() =~= weeks@);
                break;
            },
        }
    }
    proof {
        lemma_weeks_from(first@, range.end);
        assert(week_of_day(first@) == range.start);
    }
    Some(weeks)
}

} // verus!
