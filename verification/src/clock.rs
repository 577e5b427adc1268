//! Reading the clock.
//!
//! The engine's decisions are verified over a sampled instant passed in as
//! a plain value; these functions only take the sample, and never panic:
//! a clock before the Unix epoch becomes a negative second count, and one
//! outside the calendar's range becomes a sentinel date the callers
//! reject. The civil date is taken in Coordinated Universal Time: the
//! month-attribution cutoff absorbs zone differences around month
//! boundaries, and this crate's locked chrono can only resolve the local
//! zone through calls that may panic.

use vstd::prelude::*;

use chrono::Datelike;

use crate::date::{date_from_parts, Date};
use crate::naming::{playlist_target, PlaylistTarget};
use crate::naming::{spec_playlist_description, spec_playlist_name};
use crate::date::spec_attributed_month;

verus! {

/// Relies on std::time::SystemTime::now and duration_since: the number of
/// seconds since the Unix epoch, negative when the clock lies before it,
/// saturated at the ends of the signed range. Nothing more is assumed of
/// the value, and no path panics.
#[verifier::external_body]
pub(crate) fn unix_now_seconds() -> (r: i64) {
    match std::time::SystemTime::now().duration_since(std::time::UNIX_EPOCH) {
        Ok(d) => i64::try_from(d.as_secs()).unwrap_or(i64::MAX),
        Err(e) => i64::try_from(e.duration().as_secs()).map_or(i64::MIN, |s| -s),
    }
}

/// Relies on the same clock acquisition and on chrono's
/// `DateTime::from_timestamp` and `Datelike`: the civil date of the
/// current instant in Coordinated Universal Time, with `month` from 1 to
/// 12 and `day` from 1 to 31. An instant chrono cannot represent becomes
/// the sentinel `(0, 1, 1)`, whose year the callers reject; no path
/// panics.
#[verifier::external_body]
fn utc_date_parts() -> (r: (i32, u32, u32))
    ensures
        1 <= r.1 <= 12,
        1 <= r.2 <= 31,
{
    match chrono::DateTime::<chrono::Utc>::from_timestamp(unix_now_seconds(), 0) {
        Some(dt) => (dt.year(), dt.month(), dt.day()),
        None => (0, 1, 1),
    }
}

/// The current date, as far as the engine accepts it: `None` exactly when
/// the clock reports a year outside four decimal digits. The acceptance
/// decision itself is `date_from_parts`, verified for every clock
/// reading.
pub fn current_date() -> (r: Option<Date>)
    ensures
        r matches Some(d) ==> d.valid(),
{
    let (year, month, day) = utc_date_parts();
    date_from_parts(year, month, day)
}

/// Samples the date and derives the run's playlist target from it.
/// Returns the sampled date alongside, so callers can relate the target
/// to the run; `None` exactly when `current_date` rejects the clock's
/// year.
pub fn playlist_target_today() -> (r: Option<(Date, PlaylistTarget)>)
    ensures
        r matches Some((d, t)) ==> {
            &&& d.valid()
            &&& t.name@ == spec_playlist_name(spec_attributed_month(d))
            &&& t.description@ == spec_playlist_description(spec_attributed_month(d), d)
        },
{
    match current_date() {
        Some(d) => {
            let t = playlist_target(&d);
            Some((d, t))
        },
        None => None,
    }
}

} // verus!
