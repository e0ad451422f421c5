//! The time column of a row.

use vstd::prelude::*;
use chrono::{SecondsFormat, TimeZone, Utc};

verus! {

/// Whether `s` has the shape `YYYY-MM-DDThh:mm:ss.ffffffZ`: 27 characters,
/// the punctuation at its places and a decimal digit at every other.
pub open spec fn is_utc_micros_text(s: Seq<char>) -> bool {
    &&& s.len() == 27
    &&& s[4] == '-'
    &&& s[7] == '-'
    &&& s[10] == 'T'
    &&& s[13] == ':'
    &&& s[16] == ':'
    &&& s[19] == '.'
    &&& s[26] == 'Z'
    &&& forall|i: int|
        0 <= i < 26 && i != 4 && i != 7 && i != 10 && i != 13 && i != 16 && i != 19 ==> '0'
            <= #[trigger] s[i] <= '9'
}

/// The RFC 3339 text, in UTC with six fractional digits and a closing `Z`, of
/// the instant `nanos` nanoseconds after the start of 1970.  It is what
/// chrono's `Utc.timestamp_nanos(nanos).to_rfc3339_opts(SecondsFormat::Micros,
/// true)` returns; the calendar arithmetic behind it is chrono's and is not
/// restated here.
pub uninterp spec fn rfc3339_micros(nanos: i64) -> Seq<char>;

/// Calls chrono's `TimeZone::timestamp_nanos` on `Utc` and then
/// `DateTime::to_rfc3339_opts` with `SecondsFormat::Micros` and `use_z` set.
/// The first never fails, whatever `nanos` is, and gives a time between the
/// years 1677 and 2262; the second writes the year in four digits, `-`, the
/// month, `-`, the day, `T`, the hour, `:`, the minute, `:`, the second, `.`,
/// six fractional digits and `Z`.  The contract gives that text its name:
/// the same `nanos` always has the same text.  It states the shape of the
/// text and leaves the digits to chrono.
#[verifier::external_body]
fn format_rfc3339_micros(nanos: i64) -> (text: String)
    ensures
        text@ == rfc3339_micros(nanos),
        is_utc_micros_text(text@),
{
    Utc.timestamp_nanos(nanos).to_rfc3339_opts(SecondsFormat::Micros, true)
}

/// Writes the instant `nanos` nanoseconds after the start of 1970 as RFC 3339
/// text in UTC with microsecond precision.
pub fn time_utc(nanos: i64) -> (text: String)
    ensures
        text@ == rfc3339_micros(nanos),
        is_utc_micros_text(text@),
{
    format_rfc3339_micros(nanos)
}

} // verus!
