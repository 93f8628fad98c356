//! Wall-clock timestamps: instants as integer milliseconds since the Unix
//! epoch, the local midnight of a date in a named time zone, and the RFC 3339
//! text of an instant in that zone.
use vstd::prelude::*;
use chrono::TimeZone;

verus! {

/// The instant, in milliseconds since the Unix epoch, of local midnight of
/// `year`-`month`-`day` in the time zone named `zone` (an IANA name); `None`
/// where the zone is unknown or that midnight does not fall on one instant.
pub uninterp spec fn local_midnight_ms(zone: Seq<char>, year: int, month: int, day: int) -> Option<i64>;

/// The RFC 3339 text, with its UTC offset, of the instant `millis`
/// milliseconds after the Unix epoch, as a clock in the time zone named
/// `zone` shows it; `None` where the zone is unknown or the instant cannot be
/// represented.
pub uninterp spec fn zoned_time_text(zone: Seq<char>, millis: int) -> Option<Seq<char>>;

/// The view of an optional text.
pub open spec fn opt_text(o: Option<String>) -> Option<Seq<char>> {
    match o {
        Some(s) => Some(s@),
        None => None,
    }
}

/// Relies on chrono_tz's `Tz::from_str` (a zone by name, from the tables
/// compiled into chrono_tz), chrono's `TimeZone::with_ymd_and_hms` and
/// `DateTime::timestamp_millis`: the instant depends on the arguments alone.
#[verifier::external_body]
pub(crate) fn midnight_millis(zone: &str, year: i32, month: u32, day: u32) -> (r: Option<i64>)
    ensures
        r == local_midnight_ms(zone@, year as int, month as int, day as int),
{
    let tz = zone.parse::<chrono_tz::Tz>().ok()?;
    Some(tz.with_ymd_and_hms(year, month, day, 0, 0, 0).single()?.timestamp_millis())
}

/// Relies on chrono_tz's `Tz::from_str`, chrono's
/// `DateTime::from_timestamp_millis`, `DateTime::with_timezone` and
/// `DateTime::to_rfc3339`: the text depends on the arguments alone.
#[verifier::external_body]
pub(crate) fn instant_text(zone: &str, millis: i64) -> (r: Option<String>)
    ensures
        opt_text(r) == zoned_time_text(zone@, millis as int),
{
    let tz = zone.parse::<chrono_tz::Tz>().ok()?;
    Some(chrono::DateTime::from_timestamp_millis(millis)?.with_timezone(&tz).to_rfc3339())
}

} // verus!
