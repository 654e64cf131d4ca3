//! The dates of the Twitter API, such as `Mon May 01 00:01:02 +0000 2017`, read with chrono.

use vstd::prelude::*;

use chrono::format::{parse, Parsed, StrftimeItems};
use chrono::{ParseError, Utc};

verus! {

#[verifier::external_type_specification]
#[verifier::external_body]
pub struct ExParseError(ParseError);

/// The format of the dates: weekday, month, day, time, UTC offset and year.
pub const TWITTER_DATE_FORMAT: &'static str = "%a %b %e %H:%M:%S %z %Y";

/// The instant that chrono reads from `s` in the format `fmt`, as seconds since the Unix
/// epoch, when it reads one and the offset that `s` gives is that of UTC.
pub uninterp spec fn parsed_utc_timestamp(s: Seq<char>, fmt: Seq<char>) -> Option<i64>;

/// Reads a date with chrono: `chrono::format::parse` of `s` into a `Parsed`, with the items of
/// `StrftimeItems::new(fmt)`, then `Parsed::to_datetime_with_timezone(&Utc)` (which fails when
/// the offset read is not that of UTC), and the instant as seconds since the epoch. What the
/// error says is not stated.
#[verifier::external_body]
fn chrono_parse_utc(s: &str, fmt: &str) -> (r: Result<i64, ParseError>)
    ensures
        r is Ok <==> parsed_utc_timestamp(s@, fmt@) is Some,
        r matches Ok(t) ==> parsed_utc_timestamp(s@, fmt@) == Some(t),
{
    let mut parsed = Parsed::new();
    parse(&mut parsed, s, StrftimeItems::new(fmt))?;
    parsed.to_datetime_with_timezone(&Utc).map(|d| d.timestamp())
}

/// Reads a date of the Twitter API (such as `Mon May 01 00:01:02 +0000 2017`), as seconds
/// since the Unix epoch.
pub fn parse_datetime(s: &str) -> (r: Result<i64, ParseError>)
    ensures
        r is Ok <==> parsed_utc_timestamp(s@, TWITTER_DATE_FORMAT@) is Some,
        r matches Ok(t) ==> parsed_utc_timestamp(s@, TWITTER_DATE_FORMAT@) == Some(t),
{
    chrono_parse_utc(s, TWITTER_DATE_FORMAT)
}

} // verus!
