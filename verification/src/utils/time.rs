//! Moments in time, read and written through `chrono`.

use vstd::prelude::*;

verus! {

/// The moment that `text` denotes under RFC 3339, in seconds since the
/// epoch, as `chrono` reads it; `None` where `chrono` refuses the text.
pub uninterp spec fn rfc3339_seconds(text: Seq<char>) -> Option<i64>;

/// Reads a moment with `chrono::DateTime::parse_from_rfc3339` and takes its
/// `timestamp`. What is read is a function of the text alone; the library
/// knows it as [`rfc3339_seconds`].
#[verifier::external_body]
pub(crate) fn parse_rfc3339(text: &str) -> (r: Option<i64>)
    ensures
        r == rfc3339_seconds(text@),
{
    match chrono::DateTime::parse_from_rfc3339(text) {
        Ok(moment) => Some(moment.timestamp()),
        Err(_) => None,
    }
}

} // verus!
