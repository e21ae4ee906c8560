use vstd::prelude::*;

verus! {

/// An instant, in nanoseconds since the Unix epoch.
pub type Timestamp = i128;

/// Seconds since the epoch and the nanoseconds within the second, as one
/// count of nanoseconds.
pub open spec fn instant_of(secs: i64, nanos: u32) -> int {
    secs * 1_000_000_000 + nanos
}

/// The instant lies in the range of `chrono::DateTime<Utc>`: from the
/// first day of year -262143 to the last nanosecond of year 262142.
pub open spec fn within_chrono_range(t: int) -> bool {
    -8_334_601_315_200_000_000_000 <= t <= 8_210_266_876_799_999_999_999
}

/// What `chrono::DateTime::parse_from_rfc3339` gives for a text: the
/// instant's seconds and nanoseconds, or nothing when the text is not an
/// RFC 3339 date and time.
pub uninterp spec fn rfc3339_instant(s: Seq<char>) -> Option<(i64, u32)>;

/// Calls `chrono::DateTime::parse_from_rfc3339`; the contract claims only
/// that the result is a function of the text: `rfc3339_instant`.
#[verifier::external_body]
fn parse_rfc3339_parts(s: &str) -> (r: Option<(i64, u32)>)
    ensures
        r == rfc3339_instant(s@),
{
    chrono::DateTime::parse_from_rfc3339(s).ok().map(|dt| (dt.timestamp(), dt.timestamp_subsec_nanos()))
}

/// Combines seconds and nanoseconds into one instant.
pub fn instant(secs: i64, nanos: u32) -> (t: Timestamp)
    ensures
        t == instant_of(secs, nanos),
{
    (secs as i128) * 1_000_000_000 + (nanos as i128)
}

/// The instant that an RFC 3339 text denotes, if it is one.
pub fn parse_rfc3339(s: &str) -> (r: Option<Timestamp>)
    ensures
        match rfc3339_instant(s@) {
            Some((secs, nanos)) => r == Some(instant_of(secs, nanos) as Timestamp),
            None => r is None,
        },
{
    match parse_rfc3339_parts(s) {
        Some((secs, nanos)) => Some(instant(secs, nanos)),
        None => None,
    }
}

} // verus!
