//! The calendar of eight seasons.

use crate::error::ParseError;
use crate::text::same_text;
use crate::{canonical_week, Seasonlike};
use std::ops::Range;
use vstd::prelude::*;

verus! {

/// One of the eight seasons, in the order of the year.
#[derive(Debug, PartialEq, Eq, Clone, Copy, Hash, Structural)]
pub enum Season {
    Winter,
    Lent,
    Spring,
    Tsuyu,
    Summer,
    Obon,
    Autumn,
    Advent,
}

impl Seasonlike for Season {
    open spec fn spec_starting_week(self) -> u8 {
        match self {
            Season::Winter => 1,
            Season::Lent => 8,
            Season::Spring => 14,
            Season::Tsuyu => 21,
            Season::Summer => 27,
            Season::Obon => 34,
            Season::Autumn => 40,
            Season::Advent => 47,
        }
    }

    open spec fn spec_ending_week(self) -> u8 {
        match self {
            Season::Winter => 7,
            Season::Lent => 13,
            Season::Spring => 20,
            Season::Tsuyu => 26,
            Season::Summer => 33,
            Season::Obon => 39,
            Season::Autumn => 46,
            Season::Advent => 52,
        }
    }

    open spec fn spec_from_week(week: u32) -> Season {
        let w = canonical_week(week);
        if w <= 7 {
            Season::Winter
        } else if w <= 13 {
            Season::Lent
        } else if w <= 20 {
            Season::Spring
        } else if w <= 26 {
            Season::Tsuyu
        } else if w <= 33 {
            Season::Summer
        } else if w <= 39 {
            Season::Obon
        } else if w <= 46 {
            Season::Autumn
        } else {
            Season::Advent
        }
    }

    open spec fn spec_prev(self) -> Season {
        match self {
            Season::Winter => Season::Advent,
            Season::Lent => Season::Winter,
            Season::Spring => Season::Lent,
            Season::Tsuyu => Season::Spring,
            Season::Summer => Season::Tsuyu,
            Season::Obon => Season::Summer,
            Season::Autumn => Season::Obon,
            Season::Advent => Season::Autumn,
        }
    }

    open spec fn spec_succ(self) -> Season {
        match self {
            Season::Winter => Season::Lent,
            Season::Lent => Season::Spring,
            Season::Spring => Season::Tsuyu,
            Season::Tsuyu => Season::Summer,
            Season::Summer => Season::Obon,
            Season::Obon => Season::Autumn,
            Season::Autumn => Season::Advent,
            Season::Advent => Season::Winter,
        }
    }

    fn starting_week(self) -> u8 {
        match self {
            Season::Winter => 1,
            Season::Lent => 8,
            Season::Spring => 14,
            Season::Tsuyu => 21,
            Season::Summer => 27,
            Season::Obon => 34,
            Season::Autumn => 40,
            Season::Advent => 47,
        }
    }

    fn ending_week(self) -> u8 {
        match self {
            Season::Winter => 7,
            Season::Lent => 13,
            Season::Spring => 20,
            Season::Tsuyu => 26,
            Season::Summer => 33,
            Season::Obon => 39,
            Season::Autumn => 46,
            Season::Advent => 52,
        }
    }

    fn from_week(week: u32) -> Season {
        if week == 53 {
            return Season::Advent;
        }
        match week % 52 {
            0 => Season::Advent,
            1..=7 => Season::Winter,
            8..=13 => Season::Lent,
            14..=20 => Season::Spring,
            21..=26 => Season::Tsuyu,
            27..=33 => Season::Summer,
            34..=39 => Season::Obon,
            40..=46 => Season::Autumn,
            _ => Season::Advent,
        }
    }

    fn prev(self) -> Season {
        match self {
            Season::Lent => Season::Winter,
            Season::Spring => Season::Lent,
            Season::Tsuyu => Season::Spring,
            Season::Summer => Season::Tsuyu,
            Season::Obon => Season::Summer,
            Season::Autumn => Season::Obon,
            Season::Advent => Season::Autumn,
            Season::Winter => Season::Advent,
        }
    }

    fn succ(self) -> Season {
        match self {
            Season::Winter => Season::Lent,
            Season::Lent => Season::Spring,
            Season::Spring => Season::Tsuyu,
            Season::Tsuyu => Season::Summer,
            Season::Summer => Season::Obon,
            Season::Obon => Season::Autumn,
            Season::Autumn => Season::Advent,
            Season::Advent => Season::Winter,
        }
    }

    proof fn law_span(self) {
    }

    proof fn law_owner(self, week: u32) {
    }

    proof fn law_succ(self) {
    }

    proof fn law_ring(self) {
    }
}

impl Season {
    /// The seasons in the order of the year.
    pub const ALL: [Season; 8] = [
        Season::Winter,
        Season::Lent,
        Season::Spring,
        Season::Tsuyu,
        Season::Summer,
        Season::Obon,
        Season::Autumn,
        Season::Advent,
    ];

    /// Whether the week with the number `week` is one of the season.
    pub open spec fn owns(self, week: int) -> bool {
        self.spec_starting_week() <= week <= self.spec_ending_week()
    }

    /// The name of the season.
    pub open spec fn spec_name(self) -> Seq<char> {
        match self {
            Season::Winter => "Winter"@,
            Season::Lent => "Lent"@,
            Season::Spring => "Spring"@,
            Season::Tsuyu => "Tsuyu"@,
            Season::Summer => "Summer"@,
            Season::Obon => "Obon"@,
            Season::Autumn => "Autumn"@,
            Season::Advent => "Advent"@,
        }
    }

    /// The weeks of the season, from its first week up to, and without, the first week
    /// of the next season; for the last season of the year, up to and with week 52.
    pub fn weeks(self) -> (r: Range<u8>)
        ensures
            r.start == self.spec_starting_week(),
            r.end == self.spec_ending_week() + 1,
            forall|week: int| self.owns(week) <==> r.start <= week < r.end,
    {
        if self == Season::Advent {
            self.starting_week()..53
        } else {
            self.starting_week()..self.succ().starting_week()
        }
    }

    /// The name of the season.
    pub fn name(self) -> (r: &'static str)
        ensures
            r@ == self.spec_name(),
    {
        match self {
            Season::Winter => "Winter",
            Season::Lent => "Lent",
            Season::Spring => "Spring",
            Season::Tsuyu => "Tsuyu",
            Season::Summer => "Summer",
            Season::Obon => "Obon",
            Season::Autumn => "Autumn",
            Season::Advent => "Advent",
        }
    }

    /// The season with the name `txt`, or the error that says no season has that name.
    pub fn parse(txt: &str) -> (r: Result<Season, ParseError>)
        ensures
            forall|season: Season| txt@ == season.spec_name() <==> r == Ok::<Season, ParseError>(season),
            (forall|season: Season| txt@ != season.spec_name()) <==> r == Err::<Season, ParseError>(
                ParseError::UnknownSeasonName,
            ),
    {
        let mut i: usize = 0;
        while i < 8
            invariant
                i <= 8,
                forall|k: int| 0 <= k < i ==> Season::ALL[k].spec_name() != txt@,
            decreases 8 - i,
        {
            let season = Season::ALL[i];
            if same_text(txt, season.name()) {
                assert forall|other: Season| txt@ == other.spec_name() implies other == season by {
                    lemma_names_differ(other, season);
                }
                return Ok(season);
            }
            i += 1;
        }
        assert forall|season: Season| season.spec_name() != txt@ by {
            lemma_all(season);
        }
        Err(ParseError::UnknownSeasonName)
    }
}

impl std::str::FromStr for Season {
    type Err = ParseError;

    /// The season with the name `txt`, or the error that says no season has that name.
    fn from_str(txt: &str) -> (r: Result<Season, ParseError>)
        ensures
            forall|season: Season| txt@ == season.spec_name() <==> r == Ok::<Season, ParseError>(season),
            (forall|season: Season| txt@ != season.spec_name()) <==> r == Err::<Season, ParseError>(
                ParseError::UnknownSeasonName,
            ),
    {
        Season::parse(txt)
    }
}

/// Every season stands in `ALL`, at the place of its order in the year, and each but
/// the first comes after the one before it.
pub proof fn lemma_all(s: Season)
    ensures
        exists|k: int| 0 <= k < 8 && Season::ALL[k] == s,
        forall|k: int| 0 <= k < 7 ==> #[trigger] Season::ALL[k].spec_succ() == Season::ALL[k + 1],
        Season::ALL[7].spec_succ() == Season::ALL[0],
{
    assert(Season::ALL[0] == Season::Winter);
    assert(Season::ALL[1] == Season::Lent);
    assert(Season::ALL[2] == Season::Spring);
    assert(Season::ALL[3] == Season::Tsuyu);
    assert(Season::ALL[4] == Season::Summer);
    assert(Season::ALL[5] == Season::Obon);
    assert(Season::ALL[6] == Season::Autumn);
    assert(Season::ALL[7] == Season::Advent);
}

/// Eight steps forward lead back to the season they started from, and so do eight
/// steps back.
pub proof fn lemma_eight_steps(s: Season)
    ensures
        s.succ().succ().succ().succ().succ().succ().succ().succ() == s,
        s.prev().prev().prev().prev().prev().prev().prev().prev() == s,
{
}

/// Every week from 1 to 52 is one of the weeks of the season that `from_week` gives
/// for it.
pub proof fn lemma_week_in_season(week: u32)
    requires
        1 <= week <= 52,
    ensures
        Season::from_week(week).owns(week as int),
{
}

/// The weeks of the seasons, taken in the order of the year, are the weeks 1 to 52
/// without a gap and without a week counted twice: the first season starts with
/// week 1, each season starts in the week after the one before it ends, the last ends
/// with week 52, and no week is of two seasons.
pub proof fn lemma_tiling()
    ensures
        Season::ALL[0].spec_starting_week() == 1,
        forall|k: int|
            0 <= k < 7 ==> #[trigger] Season::ALL[k + 1].spec_starting_week()
                == Season::ALL[k].spec_ending_week() + 1,
        Season::ALL[7].spec_ending_week() == 52,
        forall|k: int|
            0 <= k < 8 ==> #[trigger] Season::ALL[k].spec_starting_week()
                <= Season::ALL[k].spec_ending_week(),
        forall|a: Season, b: Season, week: int| a.owns(week) && b.owns(week) ==> a == b,
{
    lemma_all(Season::Winter);
}

/// Week 53 of a long year, and week 0, which stands for the last week of the year
/// before, are weeks of the last season, as week 52 is.
pub proof fn lemma_year_end()
    ensures
        Season::from_week(52) == Season::Advent,
        Season::from_week(53) == Season::Advent,
        Season::from_week(0) == Season::Advent,
{
}

/// No two seasons have the same name.
pub proof fn lemma_names_differ(a: Season, b: Season)
    ensures
        a.spec_name() == b.spec_name() ==> a == b,
{
    reveal_strlit("Winter");
    reveal_strlit("Lent");
    reveal_strlit("Spring");
    reveal_strlit("Tsuyu");
    reveal_strlit("Summer");
    reveal_strlit("Obon");
    reveal_strlit("Autumn");
    reveal_strlit("Advent");
    if a.spec_name() == b.spec_name() {
        assert(a.spec_name().len() == b.spec_name().len());
        assert(a.spec_name()[0] == b.spec_name()[0]);
        assert(a.spec_name()[1] == b.spec_name()[1]);
    }
}

} // verus!
