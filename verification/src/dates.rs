//! Timestamp parsing, done by `chrono` behind a named result.

use vstd::prelude::*;

verus! {

/// The epoch milliseconds that `chrono` reads out of the string `s`
/// under the strftime format `fmt`, or nothing where `s` does not parse
/// under `fmt`. Parsing is a function of the two strings alone.
pub uninterp spec fn spec_parsed_epoch_ms(s: Seq<char>, fmt: Seq<char>) -> Option<i64>;

/// Relies on chrono's `DateTime::parse_from_str`, and on
/// `DateTime::timestamp_millis` to read the parsed instant out as epoch
/// milliseconds; both depend on their arguments alone.
#[verifier::external_body]
pub fn parse_epoch_ms(s: &str, fmt: &str) -> (r: Option<i64>)
    ensures
        r matches Some(t) ==> spec_parsed_epoch_ms(s@, fmt@) == Some(t),
        r is None ==> spec_parsed_epoch_ms(s@, fmt@) is None,
{
    match chrono::DateTime::parse_from_str(s, fmt) {
        Ok(d) => Some(d.timestamp_millis()),
        Err(_) => None,
    }
}

} // verus!
