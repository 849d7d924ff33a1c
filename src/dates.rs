use vstd::prelude::*;

verus! {

/// The instant that an RFC 3339 text denotes, in microseconds since the Unix
/// epoch, as chrono reads it; `None` when the text is no RFC 3339 date-time.
pub uninterp spec fn rfc3339_micros_of(s: Seq<char>) -> Option<i64>;

/// Relies on chrono::DateTime::parse_from_rfc3339, with the instant taken by
/// DateTime::timestamp_micros.
#[verifier::external_body]
pub(crate) fn parse_rfc3339_micros(s: &str) -> (r: Option<i64>)
    ensures
        r == rfc3339_micros_of(s@),
{
    match chrono::DateTime::parse_from_rfc3339(s) {
        Ok(t) => Some(t.timestamp_micros()),
        Err(_) => None,
    }
}

} // verus!
