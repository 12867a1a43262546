//! The wall clock and the calendar, both taken from `chrono`.

use vstd::prelude::*;
use crate::pinger::Timestamp;

verus! {

/// The text of a point in time, read in UTC, as `chrono` writes it under a
/// `strftime` pattern; `None` for a point that `chrono` cannot represent and
/// for a pattern that it cannot write.
pub uninterp spec fn utc_text(secs: i64, nanos: u32, pattern: Seq<char>) -> Option<Seq<char>>;

/// Reads the wall clock through `chrono::Utc::now` and takes the seconds
/// and nanoseconds of the answer apart with `DateTime::timestamp` and
/// `DateTime::timestamp_subsec_nanos`. Nothing is claimed of the value.
#[verifier::external_body]
pub(crate) fn utc_now() -> (now: Timestamp) {
    let now = chrono::Utc::now();
    Timestamp { secs: now.timestamp(), nanos: now.timestamp_subsec_nanos() }
}

/// Builds the point in time with `chrono::DateTime::from_timestamp` and
/// writes it with `DateTime::format` and `DelayedFormat::write_to` under
/// the given pattern. The contract claims only that the answer is the one
/// that goes by the name [`utc_text`]: the same for the same point in time
/// and pattern, and absent exactly where `from_timestamp` finds the point
/// out of range or `write_to` reports an error.
#[verifier::external_body]
pub(crate) fn format_utc(at: Timestamp, pattern: &str) -> (text: Option<String>)
    ensures
        match text {
            Some(t) => utc_text(at.secs, at.nanos, pattern@) == Some(t@),
            None => utc_text(at.secs, at.nanos, pattern@) is None,
        },
{
    match chrono::DateTime::from_timestamp(at.secs, at.nanos) {
        Some(moment) => {
            let mut text = String::new();
            match moment.format(pattern).write_to(&mut text) {
                Ok(()) => Some(text),
                Err(_) => None,
            }
        },
        None => None,
    }
}

} // verus!
