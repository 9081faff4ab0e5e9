//! The wall clock.

use vstd::prelude::*;

verus! {

/// Trusted: `chrono::Utc::now` followed by `DateTime::timestamp_millis`, the
/// current time in milliseconds since 1970-01-01T00:00:00Z. `Utc::now`
/// measures the system clock from the Unix epoch onward, so the result is
/// never negative; it stops the program if the system clock is set before
/// 1970. Nothing else is claimed: two calls may return different values.
#[verifier::external_body]
pub(crate) fn now_millis() -> (now: i64)
    ensures
        now >= 0,
{
    chrono::Utc::now().timestamp_millis()
}

/// The RFC 3339 text of the instant that lies the given number of seconds
/// after 1970-01-01T00:00:00Z, as `chrono` writes it; none for an instant
/// that `chrono` cannot represent.
pub uninterp spec fn rfc3339_text(seconds: i64) -> Option<Seq<char>>;

/// Trusted: `chrono::DateTime::from_timestamp` with no nanoseconds, followed
/// by `DateTime::to_rfc3339`. The first returns nothing for a number of
/// seconds out of its range; the second writes the instant as a text and
/// does not fail. Both depend on the number of seconds alone.
#[verifier::external_body]
pub(crate) fn rfc3339_of_seconds(seconds: i64) -> (r: Option<String>)
    ensures
        match rfc3339_text(seconds) {
            Some(text) => r is Some && r->0@ == text,
            None => r is None,
        },
{
    match chrono::DateTime::from_timestamp(seconds, 0) {
        Some(instant) => Some(instant.to_rfc3339()),
        None => None,
    }
}

} // verus!
