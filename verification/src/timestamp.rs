//! Timezone-naive points in time, and the one textual format in which the
//! meter reports them.

use chrono::{Datelike, NaiveDateTime, Timelike};
use vstd::prelude::*;

verus! {

/// A timezone-naive date and time, by its calendar fields.
#[derive(Clone, Copy, Debug, PartialEq, Eq, Structural)]
pub struct Timestamp {
    pub year: i32,
    pub month: u32,
    pub day: u32,
    pub hour: u32,
    pub minute: u32,
    pub second: u32,
    pub nanosecond: u32,
}

/// What parsing `text` by the strftime pattern `format` yields: the date and
/// time, or the parser's message.
pub uninterp spec fn parsed_date_time(text: Seq<char>, format: Seq<char>) -> Result<
    Timestamp,
    Seq<char>,
>;

/// The outcome of a parse, with the message by its characters.
pub open spec fn parse_outcome(parsed: Result<Timestamp, String>) -> Result<Timestamp, Seq<char>> {
    match parsed {
        Ok(timestamp) => Ok(timestamp),
        Err(message) => Err(message@),
    }
}

/// The pattern of the meter's timestamps, `YYYY-MM-DDTHH:MM:SSZ`.
pub fn timestamp_format() -> (format: &'static str)
    ensures
        format@ == timestamp_pattern(),
{
    "%Y-%m-%dT%H:%M:%SZ"
}

/// The characters of the timestamp pattern.
pub open spec fn timestamp_pattern() -> Seq<char> {
    "%Y-%m-%dT%H:%M:%SZ"@
}

/// Calls `chrono::NaiveDateTime::parse_from_str` and takes the date and
/// time apart into its calendar fields, or renders the error as its message.
/// The result is a function of the two texts alone, so it carries the name
/// `parsed_date_time`; nothing else is claimed of it.
#[verifier::external_body]
fn parse_date_time(text: &str, format: &str) -> (parsed: Result<Timestamp, String>)
    ensures
        parse_outcome(parsed) == parsed_date_time(text@, format@),
{
    match NaiveDateTime::parse_from_str(text, format) {
        Ok(moment) => Ok(
            Timestamp {
                year: moment.year(),
                month: moment.month(),
                day: moment.day(),
                hour: moment.hour(),
                minute: moment.minute(),
                second: moment.second(),
                nanosecond: moment.nanosecond(),
            },
        ),
        Err(error) => Err(error.to_string()),
    }
}

impl Timestamp {
    /// What `text` stands for when read by the meter's pattern.
    pub open spec fn of_text(text: Seq<char>) -> Result<Timestamp, Seq<char>> {
        parsed_date_time(text, timestamp_pattern())
    }

    /// Reads a timestamp in the meter's format.
    pub fn parse(text: &str) -> (parsed: Result<Timestamp, String>)
        ensures
            parse_outcome(parsed) == Timestamp::of_text(text@),
    {
        parse_date_time(text, timestamp_format())
    }
}

} // verus!
