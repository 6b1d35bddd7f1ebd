//! What there is to show of one week: its number, its seven days with their months,
//! and the month that starts in it.

use crate::iso::{day_month, day_of_month, week_of_day, Date, IsoWeek, Weekday};
use vstd::prelude::*;

verus! {

/// The days of a week, from Monday to Sunday.
pub const WEEK: [Weekday; 7] = [
    Weekday::Mon,
    Weekday::Tue,
    Weekday::Wed,
    Weekday::Thu,
    Weekday::Fri,
    Weekday::Sat,
    Weekday::Sun,
];

/// The colour in which the days of a month are shown.
#[derive(Clone, Copy, PartialEq, Eq, Debug, Hash, Structural)]
pub enum Colour {
    Blue,
    Green,
    Yellow,
    Red,
}

/// The colour of a month: blue from December to February, green from March to May,
/// yellow from June to August, red from September to November.
pub open spec fn spec_month_colour(month: u32) -> Colour {
    if month == 12 || month <= 2 {
        Colour::Blue
    } else if month <= 5 {
        Colour::Green
    } else if month <= 8 {
        Colour::Yellow
    } else {
        Colour::Red
    }
}

/// The colour of the month with the number `month`.
pub fn month_colour(month: u32) -> (r: Colour)
    requires
        1 <= month <= 12,
    ensures
        r == spec_month_colour(month),
{
    match month {
        12 | 1 | 2 => Colour::Blue,
        3 | 4 | 5 => Colour::Green,
        6 | 7 | 8 => Colour::Yellow,
        _ => Colour::Red,
    }
}

/// The month, from 1 to 12, of the Sunday of `week`; `None` where the calendar has no
/// such day.
pub fn week_to_month(week: IsoWeek) -> (r: Option<u32>)
    ensures
        r is Some <==> week.spec_day(Weekday::Sun) is Some,
        r matches Some(month) ==> month == day_month(week.spec_day(Weekday::Sun).unwrap()),
        r matches Some(month) ==> 1 <= month <= 12,
{
    match week.day(Weekday::Sun) {
        Some(sunday) => Some(sunday.month()),
        None => None,
    }
}

/// One day as it is shown in the row of its week.
#[derive(Clone, Copy, PartialEq, Eq, Debug, Structural)]
pub struct DayCell {
    /// The day of the month.
    pub day: u32,
    /// The month, from 1 to 12.
    pub month: u32,
    /// The colour of the month.
    pub colour: Colour,
    /// Whether the month is shown dimmed: every second month is.
    pub dimmed: bool,
    /// Whether the day is today.
    pub today: bool,
}

/// One week as it is shown.
#[derive(Clone, PartialEq, Eq, Debug)]
pub struct WeekRow {
    /// The number under which the week is shown.
    pub number: u32,
    /// Whether the week is the current one.
    pub current: bool,
    /// The days of the week, from Monday to Sunday.
    pub days: Vec<DayCell>,
    /// The month that starts in the week, if one does.
    pub new_month: Option<u32>,
}

/// The month of the last of `days` that is the first day of its month.
pub open spec fn month_starting(days: Seq<DayCell>) -> Option<u32>
    decreases days.len(),
{
    if days.len() == 0 {
        None
    } else if days.last().day == 1 {
        Some(days.last().month)
    } else {
        month_starting(days.drop_last())
    }
}

/// A week to show: the week with the number `week` of `year`, counted from
/// `starting_week`, on the day `today`.
#[derive(Clone, Copy, PartialEq, Eq, Debug)]
pub struct PrettyWeek {
    pub year: i32,
    /// The number of the week; 0 stands for week 53 of the year before.
    pub week: u8,
    /// The week that is shown as number 1.
    pub starting_week: u8,
    pub today: Date,
}

impl PrettyWeek {
    /// The week of the calendar that is shown.
    pub open spec fn shown(self) -> IsoWeek {
        if self.week == 0 {
            IsoWeek { year: (self.year - 1) as i32, week: 53 }
        } else {
            IsoWeek { year: self.year, week: self.week as u32 }
        }
    }

    /// Whether the week is the one that holds `today`.
    pub open spec fn is_current(self) -> bool {
        self.week == week_of_day(self.today@).week && self.year == week_of_day(self.today@).year
    }

    /// The given day of the week as it is shown, where the calendar has it.
    pub open spec fn spec_cell(self, weekday: Weekday) -> Option<DayCell> {
        if self.week == 0 && self.year == i32::MIN {
            None
        } else {
            match self.shown().spec_day(weekday) {
                Some(day) => Some(
                    DayCell {
                        day: day_of_month(day) as u32,
                        month: day_month(day) as u32,
                        colour: spec_month_colour(day_month(day) as u32),
                        dimmed: day_month(day) % 2 == 0,
                        today: day == self.today@,
                    },
                ),
                None => None,
            }
        }
    }

    /// Whether the calendar has all seven days of the week.
    pub open spec fn has_cells(self) -> bool {
        forall|k: int| 0 <= k < 7 ==> (#[trigger] self.spec_cell(WEEK[k])) is Some
    }

    /// The seven days of the week as they are shown.
    pub open spec fn spec_cells(self) -> Seq<DayCell> {
        Seq::new(7, |k: int| self.spec_cell(WEEK[k]).unwrap())
    }

    /// The week `week` on the day `today`, counted from week 1. A week number above 255
    /// is cut to its low eight bits.
    pub fn new_on(week: IsoWeek, today: Date) -> (r: PrettyWeek)
        ensures
            r.year == week.year,
            r.week == week.week as u8,
            r.starting_week == 1,
            r.today == today,
    {
        PrettyWeek {
            year: week.year,
            week: #[verifier::truncate]
            (week.week as u8),
            starting_week: 1,
            today,
        }
    }

    /// The week `week` on the day that the clock reports, counted from week 1.
    pub fn new(week: IsoWeek) -> (r: PrettyWeek)
        ensures
            r.year == week.year,
            r.week == week.week as u8,
            r.starting_week == 1,
    {
        PrettyWeek::new_on(week, Date::today())
    }

    /// The given day of the week as it is shown; `None` where the calendar has no such
    /// day.
    pub fn cell(&self, weekday: Weekday) -> (r: Option<DayCell>)
        ensures
            r == self.spec_cell(weekday),
    {
        if self.week == 0 && self.year == i32::MIN {
            return None;
        }
        let shown = if self.week == 0 {
            IsoWeek { year: self.year - 1, week: 53 }
        } else {
            IsoWeek { year: self.year, week: self.week as u32 }
        };
        match shown.day(weekday) {
            Some(date) => {
                let month: u32 = date.month();
                Some(
                    DayCell {
                        day: date.day(),
                        month,
                        colour: month_colour(month),
                        dimmed: month % 2 == 0,
                        today: date.days() == self.today.days(),
                    },
                )
            },
            None => None,
        }
    }

    /// The week as it is shown. `None` where the week comes before `starting_week`, or
    /// the calendar lacks one of its days.
    pub fn row(&self) -> (r: Option<WeekRow>)
        ensures
            r is Some <==> self.starting_week <= self.week && self.has_cells(),
            r matches Some(row) ==> {
                &&& row.number == self.week - self.starting_week + 1
                &&& row.current == self.is_current()
                &&& row.days@ == self.spec_cells()
                &&& row.new_month == month_starting(self.spec_cells())
            },
    {
        if self.week < self.starting_week {
            return None;
        }
        let mut days: Vec<DayCell> = Vec::new();
        let mut new_month: Option<u32> = None;
        let mut k: usize = 0;
        while k < 7
            invariant
                k <= 7,
                days.len() == k,
                forall|j: int| 0 <= j < k ==> self.spec_cell(WEEK[j]) == Some(#[trigger] days[j]),
                new_month == month_starting(days@),
            decreases 7 - k,
        {
            let cell = match self.cell(WEEK[k]) {
                Some(cell) => cell,
                None => {
                    return None;
                },
            };
            let ghost before = days@;
            days.push(cell);
            assert(days@.drop_last() =~= before);
            if cell.day == 1 {
                new_month = Some(cell.month);
            }
            k += 1;
        }
        assert forall|j: int| 0 <= j < 7 implies (#[trigger] self.spec_cell(WEEK[j])) is Some by {
            assert(self.spec_cell(WEEK[j]) == Some(days[j]));
        }
        assert(days@ =~= self.spec_cells());
        let this_week = self.today.iso_week();
        let current: bool = self.week as u32 == this_week.week && self.year == this_week.year;
        Some(
            WeekRow {
                number: (self.week - self.starting_week) as u32 + 1,
                current,
                days,
                new_month,
            },
        )
    }
}

} // verus!
