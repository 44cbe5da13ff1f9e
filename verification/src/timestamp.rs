//! Points in time, as the user's configuration writes them.

use vstd::prelude::*;

verus! {

/// The last second of the last year that `chrono` can represent, counted from 1970.
pub const LAST_SECOND: i64 = 8_210_266_876_799;

/// What `chrono` writes for the instant that many seconds after the start of 1970 in UTC, in the
/// form of RFC 3339, to the second and with a `Z` at the end.
pub uninterp spec fn rfc3339_utc(unix_seconds: i64) -> Seq<char>;

/// Calls `chrono::DateTime::to_rfc3339_opts` with `SecondsFormat::Secs` and `use_z`, for the
/// instant that `from_timestamp` finds for the seconds. There is one from 1970 up to
/// [`LAST_SECOND`]. What is written depends on the seconds alone: [`rfc3339_utc`] names it.
#[verifier::external_body]
pub(crate) fn format_utc(unix_seconds: i64) -> (text: String)
    requires
        0 <= unix_seconds <= LAST_SECOND,
    ensures
        text@ == rfc3339_utc(unix_seconds),
{
    chrono::DateTime::from_timestamp(unix_seconds, 0)
        .unwrap()
        .to_rfc3339_opts(chrono::SecondsFormat::Secs, true)
}

} // verus!
