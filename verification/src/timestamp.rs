//! Calendar date-times read from text with chrono.

use chrono::{Datelike, Timelike};
use vstd::prelude::*;

verus! {

/// A calendar date and time of day, as chrono's `NaiveDateTime` holds it.
#[derive(Clone, Copy, Debug, PartialEq, Eq, Structural)]
pub struct Timestamp {
    pub year: i32,
    pub month: u32,
    pub day: u32,
    pub hour: u32,
    pub minute: u32,
    pub second: u32,
    pub nanosecond: u32,
}

/// chrono's error for text that a format does not accept.
#[verifier::external_type_specification]
#[verifier::external_body]
pub struct ExChronoParseError(chrono::format::ParseError);

/// What `chrono::NaiveDateTime::parse_from_str(s, fmt)` reads from `s` with
/// the strftime-style format `fmt`: the date-time on success, `None` when
/// chrono refuses the text.
pub uninterp spec fn naive_datetime_parse(s: Seq<char>, fmt: Seq<char>) -> Option<Timestamp>;

/// Calls `chrono::NaiveDateTime::parse_from_str(s, fmt)` and gives its fields.
/// Trusted: the result is `Ok` exactly when the name `naive_datetime_parse`
/// is `Some` for the same text and format, and then holds that date-time.
/// Which error chrono reports on failure is left unsaid.
#[verifier::external_body]
fn chrono_parse_naive_datetime(s: &str, fmt: &str) -> (r: Result<Timestamp, chrono::format::ParseError>)
    ensures
        r is Ok <==> naive_datetime_parse(s@, fmt@) is Some,
        r matches Ok(t) ==> naive_datetime_parse(s@, fmt@) == Some(t),
{
    match chrono::NaiveDateTime::parse_from_str(s, fmt) {
        Ok(dt) => Ok(
            Timestamp {
                year: dt.year(),
                month: dt.month(),
                day: dt.day(),
                hour: dt.hour(),
                minute: dt.minute(),
                second: dt.second(),
                nanosecond: dt.nanosecond(),
            },
        ),
        Err(e) => Err(e),
    }
}

/// The format of the time column of a WeeChat log line.
pub open spec fn log_time_format() -> Seq<char> {
    "%Y-%m-%d %H:%M:%S"@
}

/// The format of the `time` field of an Open-Meteo forecast.
pub open spec fn forecast_time_format() -> Seq<char> {
    "%Y-%m-%dT%H:%M"@
}

/// Reads the time column of a WeeChat log line (`2024-01-31 23:59:01`).
pub fn parse_log_time(s: &str) -> (r: Result<Timestamp, chrono::format::ParseError>)
    ensures
        r is Ok <==> naive_datetime_parse(s@, log_time_format()) is Some,
        r matches Ok(t) ==> naive_datetime_parse(s@, log_time_format()) == Some(t),
{
    chrono_parse_naive_datetime(s, "%Y-%m-%d %H:%M:%S")
}

/// A forecast time that chrono did not accept, with chrono's reason.
#[derive(Debug)]
pub struct ForecastTimeError {
    pub cause: chrono::format::ParseError,
}

/// Reads the `time` of an Open-Meteo forecast (`2024-01-31T23:45`), a UTC
/// date-time to the minute.
pub fn parse_forecast_time(s: &str) -> (r: Result<Timestamp, ForecastTimeError>)
    ensures
        r is Ok <==> naive_datetime_parse(s@, forecast_time_format()) is Some,
        r matches Ok(t) ==> naive_datetime_parse(s@, forecast_time_format()) == Some(t),
{
    match chrono_parse_naive_datetime(s, "%Y-%m-%dT%H:%M") {
        Ok(t) => Ok(t),
        Err(e) => Err(ForecastTimeError { cause: e }),
    }
}

} // verus!
