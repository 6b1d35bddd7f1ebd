//! What can be wrong with a piece of text that should name a week, a range of weeks or
//! a season.

use crate::text::{decimal_text, push_decimal, push_signed, signed_text};
use vstd::prelude::*;
use vstd::string::StringExecFns;

verus! {

/// Why a text was not understood.
#[derive(Debug, Clone, Copy, PartialEq, Eq, Hash, Structural)]
pub enum ParseError {
    /// The text is empty.
    EmptyInput,
    /// The text does not start with `w` and its first four characters are not all
    /// digits.
    MalformedYear,
    /// What follows the `w` is not an unsigned number.
    MalformedWeekNumber,
    /// The year is not followed by `-w`.
    MissingSeparator,
    /// The text holds `..` more than once.
    TooManyRangeParts,
    /// The calendar has no week of this number in this year.
    InvalidCalendarWeek { year: i32, week: u32 },
    /// No season has this name.
    UnknownSeasonName,
}

impl ParseError {
    /// What the error says to a reader.
    pub open spec fn spec_message(self) -> Seq<char> {
        match self {
            ParseError::EmptyInput => "Empty string"@,
            ParseError::MalformedYear => "Expected a 4-digit year"@,
            ParseError::MalformedWeekNumber => "Expected a week number after w"@,
            ParseError::MissingSeparator => "Expected -w after the year"@,
            ParseError::TooManyRangeParts => "Too many weeks given"@,
            ParseError::InvalidCalendarWeek { year, week } => "There is no w"@ + decimal_text(
                week as nat,
            ) + " in "@ + signed_text(year as int),
            ParseError::UnknownSeasonName => "Unknown season name"@,
        }
    }

    /// What the error says to a reader.
    pub fn message(&self) -> (r: String)
        ensures
            r@ == self.spec_message(),
    {
        match *self {
            ParseError::EmptyInput => String::from_str("Empty string"),
            ParseError::MalformedYear => String::from_str("Expected a 4-digit year"),
            ParseError::MalformedWeekNumber => String::from_str("Expected a week number after w"),
            ParseError::MissingSeparator => String::from_str("Expected -w after the year"),
            ParseError::TooManyRangeParts => String::from_str("Too many weeks given"),
            ParseError::InvalidCalendarWeek { year, week } => {
                let mut text = String::from_str("There is no w");
                push_decimal(&mut text, week);
                text.append(" in ");
                push_signed(&mut text, year);
                text
            },
            ParseError::UnknownSeasonName => String::from_str("Unknown season name"),
        }
    }
}

} // verus!
