//! Weeks shown in groups: by season, by month, or in one run.

use crate::eight::Season;
use crate::iso::{day_month, IsoWeek, Weekday};
use crate::pretty::week_to_month;
use crate::Seasonlike;
use vstd::prelude::*;

verus! {

/// How weeks are put into groups.
#[derive(Clone, Copy, PartialEq, Eq, Debug, Hash, Structural)]
pub enum Grouping {
    /// All weeks in one run.
    Continuous,
    /// A group for each month.
    Months,
    /// A group for each season of the calendar of eight seasons.
    Seasons,
}

/// What a group of weeks is named after.
#[derive(Clone, Copy, PartialEq, Eq, Debug, Hash, Structural)]
pub enum Label {
    /// A season.
    Season(Season),
    /// A month, from 1 to 12.
    Month(u32),
}

/// Whether `grouping` gives `week` a label: by month, only a week whose Sunday the
/// calendar has gets one.
pub open spec fn has_label(week: IsoWeek, grouping: Grouping) -> bool {
    grouping == Grouping::Months ==> week.spec_day(Weekday::Sun) is Some
}

/// The group that `grouping` puts `week` in: its season, the month of its Sunday, or
/// none where all weeks are shown in one run.
pub open spec fn spec_label(week: IsoWeek, grouping: Grouping) -> Option<Label> {
    match grouping {
        Grouping::Continuous => None,
        Grouping::Months => match week.spec_day(Weekday::Sun) {
            Some(sunday) => Some(Label::Month(day_month(sunday) as u32)),
            None => None,
        },
        Grouping::Seasons => Some(Label::Season(Season::spec_from_week(week.week))),
    }
}

/// For the week at the place `k` of `weeks`: the label of its group where a group
/// starts with it, that is, where it is the first week or its label is not that of the
/// week before it; `None` where it goes on with the group of the week before.
pub open spec fn spec_heading(weeks: Seq<IsoWeek>, grouping: Grouping, k: int) -> Option<Label> {
    if k == 0 || spec_label(weeks[k], grouping) != spec_label(weeks[k - 1], grouping) {
        spec_label(weeks[k], grouping)
    } else {
        None
    }
}

/// The group that `grouping` puts `week` in.
pub fn label(week: IsoWeek, grouping: Grouping) -> (r: Option<Label>)
    ensures
        r == spec_label(week, grouping),
{
    match grouping {
        Grouping::Continuous => None,
        Grouping::Months => match week_to_month(week) {
            Some(month) => Some(Label::Month(month)),
            None => None,
        },
        Grouping::Seasons => Some(Label::Season(Season::from_week(week.week))),
    }
}

/// Whether two labels are the same.
fn same_label(a: Option<Label>, b: Option<Label>) -> (r: bool)
    ensures
        r == (a == b),
{
    match (a, b) {
        (None, None) => true,
        (Some(Label::Month(x)), Some(Label::Month(y))) => x == y,
        (Some(Label::Season(x)), Some(Label::Season(y))) => x == y,
        _ => false,
    }
}

/// For each of `weeks`, in order: the label of its group where a group starts with it,
/// `None` where it goes on with the group of the week before. `None` in all where one
/// of `weeks` is to be put under a month and the calendar lacks its Sunday.
pub fn headings(weeks: &Vec<IsoWeek>, grouping: Grouping) -> (r: Option<Vec<Option<Label>>>)
    ensures
        r is Some <==> forall|k: int| 0 <= k < weeks.len() ==> has_label(#[trigger] weeks[k], grouping),
        r matches Some(found) ==> found.len() == weeks.len() && forall|k: int|
            0 <= k < weeks.len() ==> #[trigger] found[k] == spec_heading(weeks@, grouping, k),
{
    let mut found: Vec<Option<Label>> = Vec::new();
    let mut before: Option<Label> = None;
    let mut k: usize = 0;
    while k < weeks.len()
        invariant
            k <= weeks.len(),
            found.len() == k,
            forall|j: int| 0 <= j < k ==> has_label(#[trigger] weeks[j], grouping),
            forall|j: int| 0 <= j < k ==> #[trigger] found[j] == spec_heading(weeks@, grouping, j),
            k > 0 ==> before == spec_label(weeks[k - 1], grouping),
        decreases weeks.len() - k,
    {
        let this = label(weeks[k], grouping);
        if this.is_none() && grouping == Grouping::Months {
            assert(!has_label(weeks[k as int], grouping));
            return None;
        }
        if k == 0 || !same_label(this, before) {
            found.push(this);
        } else {
            found.push(None);
        }
        before = this;
        k += 1;
    }
    Some(found)
}

} // verus!
