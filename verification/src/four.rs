//! The calendar of four seasons.

use crate::iso::Date;
use crate::{canonical_week, Seasonlike};
use std::ops::Range;
use vstd::prelude::*;

verus! {

/// One of the four seasons, in the order of the year.
#[derive(Debug, PartialEq, Eq, Clone, Copy, Hash, Structural)]
pub enum Season {
    Winter,
    Spring,
    Summer,
    Autumn,
}

impl Seasonlike for Season {
    open spec fn spec_starting_week(self) -> u8 {
        match self {
            Season::Winter => 1,
            Season::Spring => 7,
            Season::Summer => 20,
            Season::Autumn => 33,
        }
    }

    open spec fn spec_ending_week(self) -> u8 {
        match self {
            Season::Winter => 6,
            Season::Spring => 19,
            Season::Summer => 32,
            Season::Autumn => 52,
        }
    }

    open spec fn spec_from_week(week: u32) -> Season {
        let w = canonical_week(week);
        if w < 7 {
            Season::Winter
        } else if w < 20 {
            Season::Spring
        } else if w < 33 {
            Season::Summer
        } else {
            Season::Autumn
        }
    }

    open spec fn spec_prev(self) -> Season {
        match self {
            Season::Winter => Season::Autumn,
            Season::Spring => Season::Winter,
            Season::Summer => Season::Spring,
            Season::Autumn => Season::Summer,
        }
    }

    open spec fn spec_succ(self) -> Season {
        match self {
            Season::Winter => Season::Spring,
            Season::Spring => Season::Summer,
            Season::Summer => Season::Autumn,
            Season::Autumn => Season::Winter,
        }
    }

    fn starting_week(self) -> u8 {
        Season::starting_week(self)
    }

    fn ending_week(self) -> u8 {
        match self {
            Season::Winter => 6,
            Season::Spring => 19,
            Season::Summer => 32,
            Season::Autumn => 52,
        }
    }

    fn from_week(week: u32) -> Season {
        Season::from_week(week)
    }

    fn prev(self) -> Season {
        match self {
            Season::Spring => Season::Winter,
            Season::Summer => Season::Spring,
            Season::Autumn => Season::Summer,
            Season::Winter => Season::Autumn,
        }
    }

    fn succ(self) -> Season {
        Season::succ(self)
    }

    proof fn law_span(self) {
    }

    proof fn law_owner(self, week: u32) {
    }

    proof fn law_succ(self) {
    }

    proof fn law_ring(self) {
    }
}

impl Season {
    /// The seasons in the order of the year.
    pub const ALL: [Season; 4] = [Season::Winter, Season::Spring, Season::Summer, Season::Autumn];

    /// Whether the week with the number `week` is one of the season.
    pub open spec fn owns(self, week: int) -> bool {
        self.spec_starting_week() <= week <= self.spec_ending_week()
    }

    /// The season of the day that the clock reports.
    pub fn now() -> (r: Season)
        ensures
            exists|week: u32| 1 <= week <= 53 && r == #[trigger] Season::spec_from_week(week),
    {
        Season::from_week(Date::today().iso_week().week)
    }

    /// The first week of the season.
    pub fn starting_week(self) -> (week: u8)
        ensures
            week == self.spec_starting_week(),
    {
        match self {
            Season::Winter => 1,
            Season::Spring => 7,
            Season::Summer => 20,
            Season::Autumn => 33,
        }
    }

    /// The season of the week with the number `week`.
    pub fn from_week(week: u32) -> (season: Season)
        ensures
            season == Season::spec_from_week(week),
            season.owns(canonical_week(week)),
    {
        if week == 53 {
            return Season::Autumn;
        }
        match week % 52 {
            0 => Season::Autumn,
            x if x < 7 => Season::Winter,
            x if x < 20 => Season::Spring,
            x if x < 33 => Season::Summer,
            _ => Season::Autumn,
        }
    }

    /// The weeks of the season, from its first week up to, and without, the first week
    /// of the next season; for the last season of the year, up to and with week 52.
    pub fn weeks(self) -> (r: Range<u8>)
        ensures
            r.start == self.spec_starting_week(),
            r.end == self.spec_ending_week() + 1,
            forall|week: int| self.owns(week) <==> r.start <= week < r.end,
    {
        if self == Season::Autumn {
            self.starting_week()..53
        } else {
            self.starting_week()..self.succ().starting_week()
        }
    }

    /// The season after this one.
    pub fn succ(self) -> (season: Season)
        ensures
            season == self.spec_succ(),
    {
        match self {
            Season::Winter => Season::Spring,
            Season::Spring => Season::Summer,
            Season::Summer => Season::Autumn,
            Season::Autumn => Season::Winter,
        }
    }
}

/// Every season stands in `ALL`, at the place of its order in the year, and each but
/// the first comes after the one before it.
pub proof fn lemma_all(s: Season)
    ensures
        exists|k: int| 0 <= k < 4 && Season::ALL[k] == s,
        forall|k: int| 0 <= k < 3 ==> #[trigger] Season::ALL[k].spec_succ() == Season::ALL[k + 1],
        Season::ALL[3].spec_succ() == Season::ALL[0],
{
    assert(Season::ALL[0] == Season::Winter);
    assert(Season::ALL[1] == Season::Spring);
    assert(Season::ALL[2] == Season::Summer);
    assert(Season::ALL[3] == Season::Autumn);
}

/// Four steps forward lead back to the season they started from, and so do four steps
/// back.
pub proof fn lemma_four_steps(s: Season)
    ensures
        s.spec_succ().spec_succ().spec_succ().spec_succ() == s,
        s.spec_prev().spec_prev().spec_prev().spec_prev() == s,
{
}

/// Every week from 1 to 52 is one of the weeks of the season that `from_week` gives
/// for it.
pub proof fn lemma_week_in_season(week: u32)
    requires
        1 <= week <= 52,
    ensures
        Season::spec_from_week(week).owns(week as int),
{
}

/// The weeks of the seasons, taken in the order of the year, are the weeks 1 to 52
/// without a gap and without a week counted twice: the first season starts with
/// week 1, each season starts in the week after the one before it ends, the last ends
/// with week 52, and no week is of two seasons.
pub proof fn lemma_tiling()
    ensures
        Season::ALL[0].spec_starting_week() == 1,
        forall|k: int|
            0 <= k < 3 ==> #[trigger] Season::ALL[k + 1].spec_starting_week()
                == Season::ALL[k].spec_ending_week() + 1,
        Season::ALL[3].spec_ending_week() == 52,
        forall|k: int|
            0 <= k < 4 ==> #[trigger] Season::ALL[k].spec_starting_week()
                <= Season::ALL[k].spec_ending_week(),
        forall|a: Season, b: Season, week: int| a.owns(week) && b.owns(week) ==> a == b,
{
    lemma_all(Season::Winter);
}

/// Week 53 of a long year, and week 0, which stands for the last week of the year
/// before, are weeks of the last season, as week 52 is.
pub proof fn lemma_year_end()
    ensures
        Season::spec_from_week(52) == Season::Autumn,
        Season::spec_from_week(53) == Season::Autumn,
        Season::spec_from_week(0) == Season::Autumn,
{
}

} // verus!
