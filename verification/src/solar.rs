//! The astronomical seasons, which start at the equinoxes and the solstices, and days
//! counted by the week of such a season.

use crate::iso::{day_iso_week, ymd_day, Date, IsoWeek, Weekday};
use vstd::prelude::*;

verus! {

/// The first year that the table of equinoxes and solstices holds.
pub const FIRST_YEAR: i32 = 2001;

/// The last year that the table of equinoxes and solstices holds.
pub const LAST_YEAR: i32 = 2050;

/// For each year from `FIRST_YEAR` to `LAST_YEAR`: the day of the month, the hour and
/// the minute, in universal time, of the equinox of March, the solstice of June, the
/// equinox of September and the solstice of December.
pub const EVENTS: [[(u32, u32, u32); 4]; 50] = [
    [(20, 13, 31), (21, 7, 38), (22, 23, 5), (21, 19, 22)],
    [(20, 19, 16), (21, 13, 25), (23, 4, 56), (22, 1, 15)],
    [(21, 1, 0), (21, 19, 11), (23, 10, 47), (22, 7, 4)],
    [(20, 6, 49), (21, 0, 57), (22, 16, 30), (21, 12, 42)],
    [(20, 12, 34), (21, 6, 46), (22, 22, 23), (21, 18, 35)],
    [(20, 18, 25), (21, 12, 26), (23, 4, 4), (22, 0, 22)],
    [(21, 0, 7), (21, 18, 6), (23, 9, 51), (22, 6, 8)],
    [(20, 5, 49), (21, 0, 0), (22, 15, 45), (21, 12, 4)],
    [(20, 11, 44), (21, 5, 45), (22, 21, 18), (21, 17, 47)],
    [(20, 17, 32), (21, 11, 28), (23, 3, 9), (21, 23, 38)],
    [(20, 23, 21), (21, 17, 16), (23, 9, 5), (22, 5, 30)],
    [(20, 5, 15), (20, 23, 8), (22, 14, 49), (21, 11, 12)],
    [(20, 11, 2), (21, 5, 4), (22, 20, 44), (21, 17, 11)],
    [(20, 16, 57), (21, 10, 52), (23, 2, 30), (21, 23, 3)],
    [(20, 22, 45), (21, 16, 38), (23, 8, 20), (22, 4, 48)],
    [(20, 4, 31), (20, 22, 35), (22, 14, 21), (21, 10, 45)],
    [(20, 10, 29), (21, 4, 25), (22, 20, 2), (21, 16, 29)],
    [(20, 16, 15), (21, 10, 7), (23, 1, 54), (21, 22, 22)],
    [(20, 21, 58), (21, 15, 54), (23, 7, 50), (22, 4, 19)],
    [(20, 3, 50), (20, 21, 43), (22, 13, 31), (21, 10, 3)],
    [(20, 9, 37), (21, 3, 32), (22, 19, 21), (21, 15, 59)],
    [(20, 15, 33), (21, 9, 14), (23, 1, 4), (21, 21, 48)],
    [(20, 21, 25), (21, 14, 58), (23, 6, 50), (22, 3, 28)],
    [(20, 3, 7), (20, 20, 51), (22, 12, 44), (21, 9, 20)],
    [(20, 9, 2), (21, 2, 42), (22, 18, 20), (21, 15, 3)],
    [(20, 14, 46), (21, 8, 25), (23, 0, 6), (21, 20, 50)],
    [(20, 20, 25), (21, 14, 11), (23, 6, 2), (22, 2, 43)],
    [(20, 2, 17), (20, 20, 2), (22, 11, 45), (21, 8, 20)],
    [(20, 8, 1), (21, 1, 48), (22, 17, 37), (21, 14, 14)],
    [(20, 13, 51), (21, 7, 31), (22, 23, 27), (21, 20, 9)],
    [(20, 19, 41), (21, 13, 17), (23, 5, 15), (22, 1, 56)],
    [(20, 1, 23), (20, 19, 9), (22, 11, 11), (21, 7, 57)],
    [(20, 7, 23), (21, 1, 1), (22, 16, 52), (21, 13, 45)],
    [(20, 13, 18), (21, 6, 45), (22, 22, 41), (21, 19, 35)],
    [(20, 19, 3), (21, 12, 33), (23, 4, 39), (22, 1, 31)],
    [(20, 1, 2), (20, 18, 31), (22, 10, 23), (21, 7, 12)],
    [(20, 6, 50), (21, 0, 22), (22, 16, 13), (21, 13, 8)],
    [(20, 12, 40), (21, 6, 9), (22, 22, 2), (21, 19, 1)],
    [(20, 18, 32), (21, 11, 58), (23, 3, 50), (22, 0, 41)],
    [(20, 0, 11), (20, 17, 46), (22, 9, 44), (21, 6, 33)],
    [(20, 6, 7), (20, 23, 37), (22, 15, 27), (21, 12, 19)],
    [(20, 11, 53), (21, 5, 16), (22, 21, 11), (21, 18, 4)],
    [(20, 17, 29), (21, 10, 59), (23, 3, 7), (22, 0, 2)],
    [(19, 23, 20), (20, 16, 50), (22, 8, 47), (21, 5, 43)],
    [(20, 5, 8), (20, 22, 34), (22, 14, 33), (21, 11, 36)],
    [(20, 10, 58), (21, 4, 15), (22, 20, 22), (21, 17, 28)],
    [(20, 16, 52), (21, 10, 2), (23, 2, 7), (21, 23, 7)],
    [(19, 22, 34), (20, 15, 54), (22, 8, 1), (21, 5, 2)],
    [(20, 4, 28), (20, 21, 47), (22, 13, 42), (21, 10, 51)],
    [(20, 10, 20), (21, 3, 33), (22, 19, 29), (21, 16, 39)],
];

/// One of the four astronomical seasons of the northern hemisphere, in the order in
/// which they start within a year.
#[derive(Clone, Copy, PartialEq, Eq, Debug, Hash, Structural)]
pub enum Season {
    Spring,
    Summer,
    Autumn,
    Winter,
}

impl Season {
    /// The place of the season in the year, from 0 for spring to 3 for winter.
    pub open spec fn spec_index(self) -> int {
        match self {
            Season::Spring => 0,
            Season::Summer => 1,
            Season::Autumn => 2,
            Season::Winter => 3,
        }
    }

    /// The place of the season in the year, from 0 for spring to 3 for winter.
    pub fn index(self) -> (r: usize)
        ensures
            r == self.spec_index(),
    {
        match self {
            Season::Spring => 0,
            Season::Summer => 1,
            Season::Autumn => 2,
            Season::Winter => 3,
        }
    }

    /// The season that the other hemisphere has at the same time: the one half a year
    /// away.
    pub open spec fn spec_flip_hemisphere(self) -> Season {
        match self {
            Season::Spring => Season::Autumn,
            Season::Summer => Season::Winter,
            Season::Autumn => Season::Spring,
            Season::Winter => Season::Summer,
        }
    }

    /// The season that the other hemisphere has at the same time.
    #[verifier::when_used_as_spec(spec_flip_hemisphere)]
    pub fn flip_hemisphere(self) -> (r: Season)
        ensures
            r == self.spec_flip_hemisphere(),
            r.spec_index() == (self.spec_index() + 2) % 4,
    {
        match self {
            Season::Spring => Season::Autumn,
            Season::Summer => Season::Winter,
            Season::Autumn => Season::Spring,
            Season::Winter => Season::Summer,
        }
    }
}

/// Going to the other hemisphere and back gives the same season, and never the season
/// one started from.
pub proof fn lemma_flip_twice(s: Season)
    ensures
        s.flip_hemisphere().flip_hemisphere() == s,
        s.flip_hemisphere() != s,
{
}

/// A minute of a day, in universal time.
#[derive(Clone, Copy, PartialEq, Eq, Debug, Hash, Structural)]
pub struct Moment {
    pub year: i32,
    pub month: u32,
    pub day: u32,
    pub hour: u32,
    pub minute: u32,
}

/// The moment at which the astronomical season with the place `index` starts in
/// `year`, as the table has it.
pub open spec fn spec_event(year: int, index: int) -> Moment {
    Moment {
        year: year as i32,
        month: (3 * (index + 1)) as u32,
        day: EVENTS[year - FIRST_YEAR][index].0,
        hour: EVENTS[year - FIRST_YEAR][index].1,
        minute: EVENTS[year - FIRST_YEAR][index].2,
    }
}

/// The moment at which `season` starts in `year`.
pub fn event(year: i32, season: Season) -> (r: Moment)
    requires
        FIRST_YEAR <= year <= LAST_YEAR,
    ensures
        r == spec_event(year as int, season.spec_index()),
{
    let index: usize = season.index();
    let row: [(u32, u32, u32); 4] = EVENTS[(year - FIRST_YEAR) as usize];
    let (day, hour, minute): (u32, u32, u32) = row[index];
    Moment { year, month: 3 * (index as u32 + 1), day, hour, minute }
}

/// The moments at which the four astronomical seasons start in `year`: the equinox of
/// March, the solstice of June, the equinox of September and the solstice of December.
pub fn dates(year: i32) -> (r: [Moment; 4])
    requires
        FIRST_YEAR <= year <= LAST_YEAR,
    ensures
        forall|index: int| 0 <= index < 4 ==> r[index] == spec_event(year as int, index),
{
    [
        event(year, Season::Spring),
        event(year, Season::Summer),
        event(year, Season::Autumn),
        event(year, Season::Winter),
    ]
}

/// A day named by an astronomical season of a year, a week counted from the week in
/// which the season starts (that week is week 1), and a day of the week.
#[derive(Clone, Copy, PartialEq, Eq, Debug, Structural)]
pub struct Seasonal {
    pub year: i32,
    pub season: Season,
    pub week: u8,
    pub day: Weekday,
}

impl Seasonal {
    /// The ISO week that this day lies in, where the calendar has the day on which the
    /// season starts: the week of `self.year` whose number is that of the week in which
    /// the season starts, and `self.week - 1` more.
    pub open spec fn spec_week(self) -> Option<IsoWeek> {
        let start = spec_event(self.year as int, self.season.spec_index());
        match ymd_day(start.year as int, start.month as int, start.day as int) {
            Some(first) => Some(
                IsoWeek {
                    year: self.year,
                    week: (day_iso_week(first).1 + self.week - 1) as u32,
                },
            ),
            None => None,
        }
    }

    /// The number of this day, where the table holds the year and the calendar has the
    /// day.
    pub open spec fn spec_to_date(self) -> Option<int> {
        if FIRST_YEAR <= self.year <= LAST_YEAR && self.spec_week() is Some {
            self.spec_week().unwrap().spec_day(self.day)
        } else {
            None
        }
    }

    /// This day as a day of the calendar. `None` where the table does not hold the
    /// year, or the calendar has no such day.
    pub fn to_date(self) -> (r: Option<Date>)
        ensures
            r is Some <==> self.spec_to_date() is Some,
            r matches Some(date) ==> self.spec_to_date() == Some(date@),
    {
        if self.year < FIRST_YEAR || self.year > LAST_YEAR {
            return None;
        }
        let start = event(self.year, self.season);
        let first = match Date::from_ymd(start.year, start.month, start.day) {
            Some(first) => first,
            None => {
                return None;
            },
        };
        let week: u32 = first.iso_week().week + self.week as u32 - 1;
        (IsoWeek { year: self.year, week }).day(self.day)
    }
}

} // verus!
