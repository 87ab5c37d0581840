use vstd::prelude::*;
use chrono::TimeZone;
use chrono::Utc;

verus! {

/// Smallest epoch timestamp (seconds) that chrono can place on its
/// proleptic Gregorian calendar: 00:00:00 on the first day of year -262143.
pub const MIN_DATE_TIMESTAMP: i64 = -8334601228800;

/// Largest epoch timestamp (seconds) that chrono can place on its proleptic
/// Gregorian calendar: 23:59:59 on the last day of year 262142.
pub const MAX_DATE_TIMESTAMP: i64 = 8210266876799;

/// The timestamps that convert to a calendar date; outside this window date
/// conversion fails.
pub open spec fn timestamp_in_range(ts: int) -> bool {
    MIN_DATE_TIMESTAMP <= ts <= MAX_DATE_TIMESTAMP
}

/// The `YYYY-MM-DD` UTC date label of an epoch timestamp, as the calendar
/// library formats it. The label depends on the timestamp alone.
pub uninterp spec fn date_label_of(ts: int) -> Seq<char>;

/// Relies on chrono: `Utc.timestamp_opt(ts, 0)` is `Single` exactly when
/// `ts` lies in chrono's representable range, and `%Y-%m-%d` formatting of
/// the resulting UTC datetime depends on the timestamp alone.
#[verifier::external_body]
fn chrono_date_label(ts: i64) -> (r: Option<String>)
    ensures
        r is Some <==> timestamp_in_range(ts as int),
        r matches Some(s) ==> s@ == date_label_of(ts as int),
{
    match Utc.timestamp_opt(ts, 0).single() {
        Some(dt) => Some(dt.format("%Y-%m-%d").to_string()),
        None => None,
    }
}

/// Formats an epoch timestamp as its `YYYY-MM-DD` UTC date label, or `None`
/// when the timestamp lies outside the representable calendar range.
pub fn timestamp_to_date_string(ts: i64) -> (r: Option<String>)
    ensures
        r is Some <==> timestamp_in_range(ts as int),
        r matches Some(s) ==> s@ == date_label_of(ts as int),
{
    chrono_date_label(ts)
}

} // verus!
