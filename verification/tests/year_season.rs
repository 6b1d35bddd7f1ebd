use wcal::eight::Season;
use wcal::four;
use wcal::iso::{Date, IsoWeek, WeekRange, MAX_YEAR};
use wcal::{week_of_season, YearSeason};

fn week(year: i32, week: u32) -> IsoWeek {
    IsoWeek { year, week }
}

#[test]
fn year_season_succ_within_a_year() {
    let x = YearSeason { year: 2024, season: Season::Lent };
    assert_eq!(x.succ(), YearSeason { year: 2024, season: Season::Spring });
    let x = YearSeason { year: 2024, season: Season::Autumn };
    assert_eq!(x.succ(), YearSeason { year: 2024, season: Season::Advent });
}

#[test]
fn year_season_succ_into_the_next_year() {
    let x = YearSeason { year: 2024, season: Season::Advent };
    assert_eq!(x.succ(), YearSeason { year: 2025, season: Season::Winter });
}

#[test]
fn year_season_prev_within_a_year() {
    let x = YearSeason { year: 2024, season: Season::Lent };
    assert_eq!(x.prev(), YearSeason { year: 2024, season: Season::Winter });
    let x = YearSeason { year: 2024, season: Season::Advent };
    assert_eq!(x.prev(), YearSeason { year: 2024, season: Season::Autumn });
}

#[test]
fn year_season_prev_into_the_year_before() {
    let x = YearSeason { year: 2024, season: Season::Winter };
    assert_eq!(x.prev(), YearSeason { year: 2023, season: Season::Advent });
}

#[test]
fn year_season_round_trip_over_years() {
    for year in 2022..=2026 {
        for season in Season::ALL {
            let x = YearSeason { year, season };
            assert_eq!(x.succ().prev(), x);
            assert_eq!(x.prev().succ(), x);
        }
    }
}

#[test]
fn year_season_a_full_cycle_is_one_year() {
    let start = YearSeason { year: 2024, season: Season::Tsuyu };
    let mut x = start;
    for _ in 0..8 {
        x = x.succ();
    }
    assert_eq!(x, YearSeason { year: 2025, season: Season::Tsuyu });
    for _ in 0..8 {
        x = x.prev();
    }
    assert_eq!(x, start);
}

#[test]
fn year_season_at_the_ends_of_the_years() {
    let x = YearSeason { year: i32::MAX, season: Season::Autumn };
    assert_eq!(x.succ(), YearSeason { year: i32::MAX, season: Season::Advent });
    let x = YearSeason { year: i32::MIN, season: Season::Lent };
    assert_eq!(x.prev(), YearSeason { year: i32::MIN, season: Season::Winter });
}

#[test]
fn year_season_from_week() {
    assert_eq!(
        YearSeason::<Season>::from_week(week(2024, 12)),
        YearSeason { year: 2024, season: Season::Lent }
    );
    assert_eq!(
        YearSeason::<Season>::from_week(week(2025, 1)),
        YearSeason { year: 2025, season: Season::Winter }
    );
    assert_eq!(
        YearSeason::<Season>::from_week(week(2020, 53)),
        YearSeason { year: 2020, season: Season::Advent }
    );
}

#[test]
fn year_season_weeks() {
    let x = YearSeason { year: 2024, season: Season::Winter };
    assert_eq!(x.weeks(), WeekRange { start: week(2024, 1), end: week(2024, 7) });
    let x = YearSeason { year: 2024, season: Season::Tsuyu };
    assert_eq!(x.weeks(), WeekRange { start: week(2024, 21), end: week(2024, 26) });
    let x = YearSeason { year: 2020, season: Season::Autumn };
    assert_eq!(x.weeks(), WeekRange { start: week(2020, 40), end: week(2020, 46) });
}

#[test]
fn year_season_weeks_of_the_last_season() {
    let x = YearSeason { year: 2024, season: Season::Advent };
    assert_eq!(x.weeks(), WeekRange { start: week(2024, 47), end: week(2024, 52) });
    assert_eq!(x.checked_weeks(), Some(x.weeks()));
}

#[test]
fn year_season_weeks_of_the_last_season_of_a_long_year() {
    let x = YearSeason { year: 2020, season: Season::Advent };
    assert_eq!(x.weeks(), WeekRange { start: week(2020, 47), end: week(2020, 53) });
    let x = YearSeason { year: 2026, season: Season::Advent };
    assert_eq!(x.weeks(), WeekRange { start: week(2026, 47), end: week(2026, 53) });
}

#[test]
fn year_season_weeks_keep_to_the_year_named() {
    let x = YearSeason { year: 2015, season: Season::Winter };
    let weeks = x.weeks();
    assert_eq!(weeks.start, week(2015, 1));
    assert_eq!(weeks.start.day(wcal::iso::Weekday::Mon), Date::from_ymd(2014, 12, 29));
}

#[test]
fn year_season_checked_weeks_out_of_range() {
    for season in Season::ALL {
        assert_eq!(YearSeason { year: i32::MAX, season }.checked_weeks(), None);
        assert_eq!(YearSeason { year: i32::MIN, season }.checked_weeks(), None);
        assert_eq!(YearSeason { year: MAX_YEAR + 2, season }.checked_weeks(), None);
        assert!(YearSeason { year: MAX_YEAR - 1, season }.checked_weeks().is_some());
    }
}

#[test]
fn year_season_of_the_first_week_is_the_same_season() {
    for year in 2019..=2027 {
        for season in Season::ALL {
            let x = YearSeason { year, season };
            let weeks = x.weeks();
            assert_eq!(YearSeason::<Season>::from_week(weeks.start).season, season);
            assert_eq!(YearSeason::<Season>::from_week(weeks.start), x);
            assert_eq!(YearSeason::<Season>::from_week(weeks.end), x);
        }
    }
}

#[test]
fn year_season_now_is_the_season_of_today() {
    let before = Date::today().iso_week();
    let now = YearSeason::<Season>::now();
    let after = Date::today().iso_week();
    assert!(
        now == YearSeason::<Season>::from_week(before)
            || now == YearSeason::<Season>::from_week(after)
    );
}

#[test]
fn year_season_of_four_seasons() {
    let x = YearSeason { year: 2024, season: four::Season::Autumn };
    assert_eq!(x.succ(), YearSeason { year: 2025, season: four::Season::Winter });
    assert_eq!(x.prev(), YearSeason { year: 2024, season: four::Season::Summer });
    assert_eq!(x.weeks(), WeekRange { start: week(2024, 33), end: week(2024, 52) });
    let x = YearSeason { year: 2020, season: four::Season::Autumn };
    assert_eq!(x.weeks(), WeekRange { start: week(2020, 33), end: week(2020, 53) });
    let x = YearSeason { year: 2024, season: four::Season::Winter };
    assert_eq!(x.prev(), YearSeason { year: 2023, season: four::Season::Autumn });
    assert_eq!(x.weeks(), WeekRange { start: week(2024, 1), end: week(2024, 6) });
    assert_eq!(
        YearSeason::<four::Season>::from_week(week(2024, 20)),
        YearSeason { year: 2024, season: four::Season::Summer }
    );
}

#[test]
fn year_season_of_four_seasons_round_trip() {
    for year in 2022..=2026 {
        for season in four::Season::ALL {
            let x = YearSeason { year, season };
            assert_eq!(x.succ().prev(), x);
            assert_eq!(x.prev().succ(), x);
            assert_eq!(YearSeason::<four::Season>::from_week(x.weeks().start), x);
            assert_eq!(YearSeason::<four::Season>::from_week(x.weeks().end), x);
        }
    }
}

#[test]
fn week_counted_within_its_season() {
    assert_eq!(week_of_season::<Season>(1), Some(1));
    assert_eq!(week_of_season::<Season>(7), Some(7));
    assert_eq!(week_of_season::<Season>(8), Some(1));
    assert_eq!(week_of_season::<Season>(23), Some(3));
    assert_eq!(week_of_season::<Season>(47), Some(1));
    assert_eq!(week_of_season::<Season>(52), Some(6));
    assert_eq!(week_of_season::<Season>(53), Some(7));
    assert_eq!(week_of_season::<Season>(0), None);
    assert_eq!(week_of_season::<Season>(60), Some(53));
    assert_eq!(week_of_season::<four::Season>(33), Some(1));
    assert_eq!(week_of_season::<four::Season>(53), Some(21));
    for week in 1..=53 {
        assert!(week_of_season::<Season>(week).unwrap() >= 1);
        assert!(week_of_season::<Season>(week).unwrap() <= 7);
    }
}
