//! Instants on the UTC time line.
use vstd::prelude::*;

verus! {

/// An instant, as whole seconds since 1970-01-01T00:00:00Z and the nanoseconds past that second.
///
/// Forecast times are given in UTC, so an instant is all that a zoned time in UTC holds.
#[derive(Debug, Clone, Copy, PartialEq, Eq)]
pub struct UtcTime {
    pub second: i64,
    pub nanosecond: i32,
}

/// The instant that `jiff` reads from an RFC 3339 timestamp text, as (seconds, nanoseconds), or
/// `None` where the text is not such a timestamp.
pub uninterp spec fn timestamp_of_text(s: Seq<char>) -> Option<(i64, i32)>;

/// The instant that `text` denotes, if any.
pub open spec fn utc_time_of(text: Seq<char>) -> Option<UtcTime> {
    match timestamp_of_text(text) {
        Some((second, nanosecond)) => Some(UtcTime { second, nanosecond }),
        None => None,
    }
}

/// Relies on `jiff::Timestamp`'s `FromStr`, `as_second` and `subsec_nanosecond`: reads a
/// timestamp such as `2023-07-05T10:00Z`.
#[verifier::external_body]
fn parse_timestamp(s: &str) -> (r: Option<(i64, i32)>)
    ensures
        r == timestamp_of_text(s@),
{
    s.parse::<jiff::Timestamp>().ok().map(|t| (t.as_second(), t.subsec_nanosecond()))
}

impl UtcTime {
    /// Reads an instant from an RFC 3339 timestamp; minutes without seconds, as in
    /// `2023-07-05T10:00Z`, are accepted.
    pub fn parse(text: &str) -> (r: Option<UtcTime>)
        ensures
            r == utc_time_of(text@),
    {
        match parse_timestamp(text) {
            Some((second, nanosecond)) => Some(UtcTime { second, nanosecond }),
            None => None,
        }
    }
}

} // verus!
