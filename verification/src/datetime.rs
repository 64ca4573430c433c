//! Instants as text. Reading and writing a calendar date is the work of
//! the `chrono` crate; what is proved here rests on the contracts stated
//! for it.

use crate::models::Timestamp;
use crate::text::{append_integer, signed_decimal};
use vstd::prelude::*;
use vstd::string::StringExecFns;

verus! {

/// The instant that `chrono::NaiveDateTime::parse_from_str` reads from a
/// text under a format, in microseconds from 1970-01-01 00:00:00, or `None`
/// where it refuses the text.
pub uninterp spec fn chrono_parsed(text: Seq<char>, format: Seq<char>) -> Option<i64>;

/// The text that `chrono` writes for the instant so many microseconds from
/// 1970-01-01 00:00:00, or `None` where its calendar does not reach.
pub uninterp spec fn chrono_rendered(micros: i64) -> Option<Seq<char>>;

/// Calls `chrono::NaiveDateTime::parse_from_str` and takes the instant that
/// it reads as microseconds, through `and_utc` and `timestamp_micros`. The
/// contract names the result.
#[verifier::external_body]
fn parse_datetime(text: &str, format: &str) -> (micros: Option<i64>)
    ensures
        micros == chrono_parsed(text@, format@),
{
    match chrono::NaiveDateTime::parse_from_str(text, format) {
        Ok(instant) => Some(instant.and_utc().timestamp_micros()),
        Err(_) => None,
    }
}

/// Calls `chrono::DateTime::from_timestamp_micros` and writes the instant
/// without its time zone, as `chrono::NaiveDateTime` displays it. The
/// contract names the result.
#[verifier::external_body]
fn render_datetime(micros: i64) -> (text: Option<String>)
    ensures
        match text {
            Some(text) => chrono_rendered(micros) == Some(text@),
            None => chrono_rendered(micros) is None,
        },
{
    match chrono::DateTime::from_timestamp_micros(micros) {
        Some(instant) => Some(instant.naive_utc().to_string()),
        None => None,
    }
}

/// The format in which an instant is read: year, month, day, `T`, hour,
/// minute, second.
pub open spec fn datetime_format() -> Seq<char> {
    "%Y-%m-%dT%H:%M:%S"@
}

/// An instant as it is shown: as a calendar date and a time of day, or,
/// where the calendar does not reach, as its count of microseconds.
pub open spec fn shown_instant(instant: Timestamp) -> Seq<char> {
    match chrono_rendered(instant.micros) {
        Some(text) => text,
        None => signed_decimal(instant.micros as int),
    }
}

impl Timestamp {
    /// Reads an instant such as `2024-01-01T10:00:00`.
    pub fn parse(text: &str) -> (instant: Option<Timestamp>)
        ensures
            instant == match chrono_parsed(text@, datetime_format()) {
                Some(micros) => Some(Timestamp { micros }),
                None => None,
            },
    {
        match parse_datetime(text, "%Y-%m-%dT%H:%M:%S") {
            Some(micros) => Some(Timestamp { micros }),
            None => None,
        }
    }

    /// The instant as it is shown.
    pub fn render(&self) -> (text: String)
        ensures
            text@ == shown_instant(*self),
    {
        match render_datetime(self.micros) {
            Some(text) => text,
            None => {
                let mut text = String::new();
                append_integer(&mut text, self.micros);
                proof {
                    assert(text@ =~= signed_decimal(self.micros as int));
                }
                text
            },
        }
    }
}

} // verus!
