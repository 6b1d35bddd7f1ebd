use std::str::FromStr;
use wcal::error::ParseError;
use wcal::iso::{Date, IsoWeek, WeekRange};
use wcal::range::weeks_in_range;
use wcal::spec::{
    parse_one_week, parse_one_week_in, write_week, write_week_short, WeeksSpec,
};

fn week(year: i32, week: u32) -> IsoWeek {
    IsoWeek { year, week }
}

#[test]
fn week_without_a_year_is_one_of_the_current_year() {
    assert_eq!(parse_one_week_in("w12", 2024), Ok(week(2024, 12)));
    assert_eq!(parse_one_week_in("w12", 2025), Ok(week(2025, 12)));
    assert_eq!(parse_one_week_in("w1", 1999), Ok(week(1999, 1)));
}

#[test]
fn week_without_a_year_for_any_day_of_iso_year_2024() {
    for (month, day) in [(1, 1), (6, 15), (12, 29)] {
        let today = Date::from_ymd(2024, month, day).unwrap();
        assert_eq!(today.iso_week().year, 2024);
        assert_eq!(parse_one_week_in("w12", today.iso_week().year), Ok(week(2024, 12)));
    }
    let today = Date::from_ymd(2024, 12, 30).unwrap();
    assert_eq!(parse_one_week_in("w12", today.iso_week().year), Ok(week(2025, 12)));
}

#[test]
fn week_with_a_year() {
    assert_eq!(parse_one_week_in("2024-w12", 1999), Ok(week(2024, 12)));
    assert_eq!(parse_one_week_in("2023-w52", 1999), Ok(week(2023, 52)));
    assert_eq!(parse_one_week_in("0001-w1", 1999), Ok(week(1, 1)));
    assert_eq!(parse_one_week_in("9999-w52", 1999), Ok(week(9999, 52)));
}

#[test]
fn week_number_may_have_zeros_or_a_plus_in_front() {
    assert_eq!(parse_one_week_in("w05", 2024), Ok(week(2024, 5)));
    assert_eq!(parse_one_week_in("w+5", 2024), Ok(week(2024, 5)));
    assert_eq!(parse_one_week_in("w0000000000000012", 2024), Ok(week(2024, 12)));
    assert_eq!(parse_one_week_in("2024-w+07", 2024), Ok(week(2024, 7)));
}

#[test]
fn capital_w_only_without_a_year() {
    assert_eq!(parse_one_week_in("W12", 2024), Ok(week(2024, 12)));
    assert_eq!(parse_one_week_in("2024-W12", 2024), Err(ParseError::MissingSeparator));
}

#[test]
fn empty_text_is_an_error() {
    assert_eq!(parse_one_week_in("", 2024), Err(ParseError::EmptyInput));
    assert_eq!(WeeksSpec::parse_in("", 2024), Err(ParseError::EmptyInput));
    assert_eq!(WeeksSpec::parse_in("..", 2024), Err(ParseError::EmptyInput));
}

#[test]
fn year_must_be_four_digits() {
    assert_eq!(parse_one_week_in("202-w1", 2024), Err(ParseError::MalformedYear));
    assert_eq!(parse_one_week_in("24-w1", 2024), Err(ParseError::MalformedYear));
    assert_eq!(parse_one_week_in("abcd-w1", 2024), Err(ParseError::MalformedYear));
    assert_eq!(parse_one_week_in("+123-w5", 2024), Err(ParseError::MalformedYear));
    assert_eq!(parse_one_week_in("-123-w5", 2024), Err(ParseError::MalformedYear));
    assert_eq!(parse_one_week_in("12", 2024), Err(ParseError::MalformedYear));
    assert_eq!(parse_one_week_in("x", 2024), Err(ParseError::MalformedYear));
    assert_eq!(parse_one_week_in(" w12", 2024), Err(ParseError::MalformedYear));
    assert_eq!(parse_one_week_in("２０２４-w1", 2024), Err(ParseError::MalformedYear));
}

#[test]
fn year_must_be_followed_by_the_separator() {
    assert_eq!(parse_one_week_in("2024", 2024), Err(ParseError::MissingSeparator));
    assert_eq!(parse_one_week_in("2024-", 2024), Err(ParseError::MissingSeparator));
    assert_eq!(parse_one_week_in("2024w12", 2024), Err(ParseError::MissingSeparator));
    assert_eq!(parse_one_week_in("2024 w12", 2024), Err(ParseError::MissingSeparator));
    assert_eq!(parse_one_week_in("20245-w1", 2024), Err(ParseError::MissingSeparator));
    assert_eq!(parse_one_week_in("2024-12", 2024), Err(ParseError::MissingSeparator));
    assert_eq!(parse_one_week_in("2024é", 2024), Err(ParseError::MissingSeparator));
}

#[test]
fn week_number_must_be_a_number() {
    assert_eq!(parse_one_week_in("w", 2024), Err(ParseError::MalformedWeekNumber));
    assert_eq!(parse_one_week_in("wxx", 2024), Err(ParseError::MalformedWeekNumber));
    assert_eq!(parse_one_week_in("w-1", 2024), Err(ParseError::MalformedWeekNumber));
    assert_eq!(parse_one_week_in("w+", 2024), Err(ParseError::MalformedWeekNumber));
    assert_eq!(parse_one_week_in("w1 ", 2024), Err(ParseError::MalformedWeekNumber));
    assert_eq!(parse_one_week_in("w12a", 2024), Err(ParseError::MalformedWeekNumber));
    assert_eq!(parse_one_week_in("wé", 2024), Err(ParseError::MalformedWeekNumber));
    assert_eq!(parse_one_week_in("2024-w", 2024), Err(ParseError::MalformedWeekNumber));
    assert_eq!(parse_one_week_in("2024-w1.5", 2024), Err(ParseError::MalformedWeekNumber));
}

#[test]
fn week_number_must_fit_in_32_bits() {
    assert_eq!(
        parse_one_week_in("w4294967295", 2024),
        Err(ParseError::InvalidCalendarWeek { year: 2024, week: 4294967295 })
    );
    assert_eq!(parse_one_week_in("w4294967296", 2024), Err(ParseError::MalformedWeekNumber));
    assert_eq!(
        parse_one_week_in("w99999999999999999999", 2024),
        Err(ParseError::MalformedWeekNumber)
    );
}

#[test]
fn week_must_be_one_of_the_calendar() {
    assert_eq!(
        parse_one_week_in("w0", 2024),
        Err(ParseError::InvalidCalendarWeek { year: 2024, week: 0 })
    );
    assert_eq!(
        parse_one_week_in("w54", 2024),
        Err(ParseError::InvalidCalendarWeek { year: 2024, week: 54 })
    );
    assert_eq!(
        parse_one_week_in("2023-w60", 2024),
        Err(ParseError::InvalidCalendarWeek { year: 2023, week: 60 })
    );
}

#[test]
fn week_53_only_in_a_long_year() {
    assert_eq!(
        parse_one_week_in("2024-w53", 2024),
        Err(ParseError::InvalidCalendarWeek { year: 2024, week: 53 })
    );
    assert_eq!(parse_one_week_in("2020-w53", 2024), Ok(week(2020, 53)));
    assert_eq!(parse_one_week_in("w53", 2020), Ok(week(2020, 53)));
    assert_eq!(
        parse_one_week_in("w53", 2021),
        Err(ParseError::InvalidCalendarWeek { year: 2021, week: 53 })
    );
    assert!(matches!(
        WeeksSpec::parse_in("2024-w53", 2024),
        Err(ParseError::InvalidCalendarWeek { year: 2024, week: 53 })
    ));
    assert_eq!(WeeksSpec::parse_in("2020-w53", 2024), Ok(WeeksSpec::Single(week(2020, 53))));
}

#[test]
fn current_year_out_of_range_has_no_weeks() {
    assert_eq!(
        parse_one_week_in("w1", i32::MAX),
        Err(ParseError::InvalidCalendarWeek { year: i32::MAX, week: 1 })
    );
    assert_eq!(
        parse_one_week_in("w1", i32::MIN),
        Err(ParseError::InvalidCalendarWeek { year: i32::MIN, week: 1 })
    );
}

#[test]
fn week_read_with_the_clock() {
    let before = Date::today().iso_week().year;
    let read = parse_one_week("w12").unwrap();
    let after = Date::today().iso_week().year;
    assert_eq!(read.week, 12);
    assert!(read.year == before || read.year == after);
    assert_eq!(parse_one_week("2024-w12"), Ok(week(2024, 12)));
    assert_eq!(parse_one_week(""), Err(ParseError::EmptyInput));
}

#[test]
fn single_week_spec() {
    assert_eq!(WeeksSpec::parse_in("w12", 2024), Ok(WeeksSpec::Single(week(2024, 12))));
    assert_eq!(WeeksSpec::parse_in("2023-w7", 2024), Ok(WeeksSpec::Single(week(2023, 7))));
}

#[test]
fn range_across_the_turn_of_the_year() {
    let spec = WeeksSpec::parse_in("2023-w52..2024-w2", 1999).unwrap();
    assert_eq!(spec, WeeksSpec::Range(week(2023, 52), week(2024, 2)));
    let range = spec.range_at(week(1999, 30));
    assert_eq!(range, WeekRange { start: week(2023, 52), end: week(2024, 2) });
    assert_eq!(
        weeks_in_range(range),
        Some(vec![week(2023, 52), week(2024, 1), week(2024, 2)])
    );
}

#[test]
fn range_of_weeks_without_years() {
    assert_eq!(
        WeeksSpec::parse_in("w3..w10", 2024),
        Ok(WeeksSpec::Range(week(2024, 3), week(2024, 10)))
    );
    assert_eq!(
        WeeksSpec::parse_in("2023-w50..w2", 2024),
        Ok(WeeksSpec::Range(week(2023, 50), week(2024, 2)))
    );
}

#[test]
fn open_end_is_bound_when_the_range_is_asked_for() {
    let spec = WeeksSpec::parse_in("w52..", 2024).unwrap();
    assert_eq!(spec, WeeksSpec::From(week(2024, 52)));
    let range = spec.range_at(week(2024, 3));
    assert_eq!(range.start, week(2024, 52));
    assert_eq!(range.end, week(2024, 3));
    let later = spec.range_at(week(2025, 3));
    assert_eq!(later, WeekRange { start: week(2024, 52), end: week(2025, 3) });
}

#[test]
fn open_start_is_bound_when_the_range_is_asked_for() {
    let spec = WeeksSpec::parse_in("..2024-w30", 2024).unwrap();
    assert_eq!(spec, WeeksSpec::To(week(2024, 30)));
    assert_eq!(
        spec.range_at(week(2024, 23)),
        WeekRange { start: week(2024, 23), end: week(2024, 30) }
    );
}

#[test]
fn single_week_is_a_range_of_one() {
    let spec = WeeksSpec::Single(week(2024, 12));
    assert_eq!(
        spec.range_at(week(2030, 1)),
        WeekRange { start: week(2024, 12), end: week(2024, 12) }
    );
    assert_eq!(spec.range(), WeekRange { start: week(2024, 12), end: week(2024, 12) });
}

#[test]
fn range_with_the_clock() {
    let spec = WeeksSpec::From(week(2020, 1));
    let before = Date::today().iso_week();
    let range = spec.range();
    let after = Date::today().iso_week();
    assert_eq!(range.start, week(2020, 1));
    assert!(range.end == before || range.end == after);
    let spec = WeeksSpec::To(week(2300, 1));
    let range = spec.range();
    assert_eq!(range.end, week(2300, 1));
    assert!(range.start == before || range.start == after);
    let spec = WeeksSpec::Range(week(2020, 1), week(2020, 5));
    assert_eq!(spec.range(), WeekRange { start: week(2020, 1), end: week(2020, 5) });
}

#[test]
fn too_many_range_parts() {
    assert_eq!(WeeksSpec::parse_in("w1..w2..w3", 2024), Err(ParseError::TooManyRangeParts));
    assert_eq!(WeeksSpec::parse_in("w1....w3", 2024), Err(ParseError::TooManyRangeParts));
    assert_eq!(WeeksSpec::parse_in("....", 2024), Err(ParseError::TooManyRangeParts));
    assert_eq!(WeeksSpec::parse_in("w1....", 2024), Err(ParseError::TooManyRangeParts));
    assert_eq!(WeeksSpec::parse_in("a..b..c", 2024), Err(ParseError::TooManyRangeParts));
}

#[test]
fn three_dots_leave_one_with_the_second_week() {
    assert_eq!(WeeksSpec::parse_in("w1...w3", 2024), Err(ParseError::MalformedYear));
    assert_eq!(WeeksSpec::parse_in("w1...", 2024), Err(ParseError::MalformedYear));
    assert_eq!(WeeksSpec::parse_in("...w3", 2024), Err(ParseError::MalformedYear));
}

#[test]
fn error_of_the_first_week_comes_first() {
    assert_eq!(WeeksSpec::parse_in("wx..2024", 2024), Err(ParseError::MalformedWeekNumber));
    assert_eq!(WeeksSpec::parse_in("w1..2024", 2024), Err(ParseError::MissingSeparator));
    assert_eq!(WeeksSpec::parse_in("x..", 2024), Err(ParseError::MalformedYear));
    assert_eq!(WeeksSpec::parse_in("..x", 2024), Err(ParseError::MalformedYear));
    assert_eq!(
        WeeksSpec::parse_in("w60..w70", 2024),
        Err(ParseError::InvalidCalendarWeek { year: 2024, week: 60 })
    );
}

#[test]
fn one_dot_is_no_range() {
    assert_eq!(WeeksSpec::parse_in("w1.w2", 2024), Err(ParseError::MalformedWeekNumber));
    assert_eq!(WeeksSpec::parse_in(".", 2024), Err(ParseError::MalformedYear));
}

#[test]
fn reversed_range_is_read_as_written() {
    let spec = WeeksSpec::parse_in("2024-w10..2024-w5", 2024).unwrap();
    let range = spec.range_at(week(2024, 1));
    assert_eq!(range, WeekRange { start: week(2024, 10), end: week(2024, 5) });
    assert!(range.is_empty());
    assert_eq!(weeks_in_range(range), Some(vec![]));
}

#[test]
fn from_str_reads_with_the_clock() {
    assert_eq!(WeeksSpec::from_str("2024-w12"), Ok(WeeksSpec::Single(week(2024, 12))));
    assert_eq!(
        "2023-w52..2024-w2".parse::<WeeksSpec>(),
        Ok(WeeksSpec::Range(week(2023, 52), week(2024, 2)))
    );
    assert_eq!(WeeksSpec::parse("2024-w12.."), Ok(WeeksSpec::From(week(2024, 12))));
    assert_eq!("".parse::<WeeksSpec>(), Err(ParseError::EmptyInput));
    let year = Date::today().iso_week().year;
    let read = WeeksSpec::parse("w2").unwrap();
    assert!(
        read == WeeksSpec::Single(week(year, 2)) || read == WeeksSpec::Single(week(year + 1, 2))
    );
}

#[test]
fn written_week() {
    assert_eq!(write_week(week(2024, 12)), Some("2024-w12".to_string()));
    assert_eq!(write_week(week(2024, 1)), Some("2024-w1".to_string()));
    assert_eq!(write_week(week(5, 7)), Some("0005-w7".to_string()));
    assert_eq!(write_week(week(0, 52)), Some("0000-w52".to_string()));
    assert_eq!(write_week(week(9999, 52)), Some("9999-w52".to_string()));
    assert_eq!(write_week(week(10000, 1)), None);
    assert_eq!(write_week(week(-1, 1)), None);
    assert_eq!(write_week_short(week(2024, 12)), "w12");
    assert_eq!(write_week_short(week(2024, 5)), "w5");
    assert_eq!(write_week_short(week(-77, 4294967295)), "w4294967295");
}

#[test]
fn written_week_reads_back_as_the_same_week() {
    for year in [0, 1, 999, 1000, 1999, 2020, 2024, 9999] {
        for number in 1..=53 {
            let Some(week) = IsoWeek::new(year, number) else {
                continue;
            };
            let text = write_week(week).unwrap();
            assert_eq!(parse_one_week_in(&text, 1234), Ok(week));
            assert_eq!(WeeksSpec::parse_in(&text, 1234), Ok(WeeksSpec::Single(week)));
            let short = write_week_short(week);
            assert_eq!(parse_one_week_in(&short, year), Ok(week));
            assert_eq!(WeeksSpec::parse_in(&short, year), Ok(WeeksSpec::Single(week)));
        }
    }
}

#[test]
fn error_messages() {
    assert_eq!(ParseError::EmptyInput.message(), "Empty string");
    assert_eq!(ParseError::MalformedYear.message(), "Expected a 4-digit year");
    assert_eq!(ParseError::MalformedWeekNumber.message(), "Expected a week number after w");
    assert_eq!(ParseError::MissingSeparator.message(), "Expected -w after the year");
    assert_eq!(ParseError::TooManyRangeParts.message(), "Too many weeks given");
    assert_eq!(ParseError::UnknownSeasonName.message(), "Unknown season name");
    assert_eq!(
        ParseError::InvalidCalendarWeek { year: 2024, week: 53 }.message(),
        "There is no w53 in 2024"
    );
    assert_eq!(
        ParseError::InvalidCalendarWeek { year: -5, week: 0 }.message(),
        "There is no w0 in -5"
    );
    assert_eq!(
        ParseError::InvalidCalendarWeek { year: i32::MIN, week: u32::MAX }.message(),
        "There is no w4294967295 in -2147483648"
    );
    assert_eq!(
        ParseError::InvalidCalendarWeek { year: i32::MAX, week: 10 }.message(),
        "There is no w10 in 2147483647"
    );
}
