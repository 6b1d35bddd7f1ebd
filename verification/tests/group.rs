use wcal::eight::Season;
use wcal::group::{headings, label, Grouping, Label};
use wcal::iso::IsoWeek;

fn week(year: i32, week: u32) -> IsoWeek {
    IsoWeek { year, week }
}

#[test]
fn label_of_a_week() {
    assert_eq!(label(week(2024, 5), Grouping::Continuous), None);
    assert_eq!(label(week(2024, 5), Grouping::Months), Some(Label::Month(2)));
    assert_eq!(label(week(2024, 5), Grouping::Seasons), Some(Label::Season(Season::Winter)));
    assert_eq!(label(week(2020, 53), Grouping::Seasons), Some(Label::Season(Season::Advent)));
    assert_eq!(label(week(2020, 53), Grouping::Months), Some(Label::Month(1)));
}

#[test]
fn label_of_a_week_that_is_none() {
    assert_eq!(label(week(2024, 53), Grouping::Months), None);
    assert_eq!(label(week(2024, 53), Grouping::Seasons), Some(Label::Season(Season::Advent)));
    assert_eq!(label(week(2024, 53), Grouping::Continuous), None);
}

#[test]
fn headings_by_season() {
    let weeks = vec![week(2024, 6), week(2024, 7), week(2024, 8), week(2024, 9), week(2024, 14)];
    assert_eq!(
        headings(&weeks, Grouping::Seasons),
        Some(vec![
            Some(Label::Season(Season::Winter)),
            None,
            Some(Label::Season(Season::Lent)),
            None,
            Some(Label::Season(Season::Spring)),
        ])
    );
}

#[test]
fn headings_by_month() {
    let weeks = vec![week(2024, 4), week(2024, 5), week(2024, 6), week(2024, 9), week(2024, 10)];
    assert_eq!(
        headings(&weeks, Grouping::Months),
        Some(vec![
            Some(Label::Month(1)),
            Some(Label::Month(2)),
            None,
            Some(Label::Month(3)),
            None,
        ])
    );
}

#[test]
fn headings_in_one_run() {
    let weeks = vec![week(2024, 4), week(2024, 5), week(2024, 53)];
    assert_eq!(headings(&weeks, Grouping::Continuous), Some(vec![None, None, None]));
}

#[test]
fn headings_of_no_weeks() {
    assert_eq!(headings(&vec![], Grouping::Seasons), Some(vec![]));
    assert_eq!(headings(&vec![], Grouping::Months), Some(vec![]));
}

#[test]
fn headings_start_again_with_the_same_season_of_another_year() {
    let weeks = vec![week(2024, 52), week(2025, 1), week(2025, 52), week(2026, 52)];
    assert_eq!(
        headings(&weeks, Grouping::Seasons),
        Some(vec![
            Some(Label::Season(Season::Advent)),
            Some(Label::Season(Season::Winter)),
            Some(Label::Season(Season::Advent)),
            None,
        ])
    );
}

#[test]
fn headings_by_month_need_the_sunday_of_each_week() {
    let weeks = vec![week(2024, 52), week(2024, 53)];
    assert_eq!(headings(&weeks, Grouping::Months), None);
    assert!(headings(&weeks, Grouping::Seasons).is_some());
}
