//! Calendar dates and the month-attribution rule.
//!
//! A playlist generated early in a month mostly contains plays from the
//! month before, so a run whose day-of-month is below the cutoff is
//! attributed to the previous calendar month, with year rollover at January.

use vstd::prelude::*;

verus! {

/// Day-of-month cutoff: runs strictly before this day are attributed to the
/// previous month.
pub const ATTRIBUTION_CUTOFF_DAY: u32 = 15;

/// A calendar date as plain year, month and day numbers.
#[derive(Clone, Copy, PartialEq, Eq, Structural, Debug)]
pub struct Date {
    pub year: u32,
    pub month: u32,
    pub day: u32,
}

/// A calendar month within a year.
#[derive(Clone, Copy, PartialEq, Eq, Structural, Debug)]
pub struct YearMonth {
    pub year: u32,
    pub month: u32,
}

impl Date {
    /// A date the engine accepts: a month and day in calendar range, and a
    /// year within four decimal digits, so that names always format the
    /// year with exactly four digits.
    pub open spec fn valid(self) -> bool {
        &&& 1 <= self.year <= 9999
        &&& 1 <= self.month <= 12
        &&& 1 <= self.day <= 31
    }
}

impl YearMonth {
    pub open spec fn valid(self) -> bool {
        &&& self.year <= 9999
        &&& 1 <= self.month <= 12
    }
}

/// Accepts a clock reading as an engine date: exactly the years of four
/// decimal digits are accepted, so that names always format the year with
/// exactly four digits.
pub fn date_from_parts(year: i32, month: u32, day: u32) -> (r: Option<Date>)
    requires
        1 <= month <= 12,
        1 <= day <= 31,
    ensures
        (r is Some) == (1 <= year <= 9999),
        r matches Some(d) ==> d == (Date { year: year as u32, month, day }),
{
    if 1 <= year && year <= 9999 {
        Some(Date { year: year as u32, month, day })
    } else {
        None
    }
}

/// The month a run on date `d` is attributed to.
pub open spec fn spec_attributed_month(d: Date) -> YearMonth {
    if d.day < ATTRIBUTION_CUTOFF_DAY {
        if d.month == 1 {
            YearMonth { year: (d.year - 1) as u32, month: 12 }
        } else {
            YearMonth { year: d.year, month: (d.month - 1) as u32 }
        }
    } else {
        YearMonth { year: d.year, month: d.month }
    }
}

/// Computes the month a run on date `d` is attributed to: the previous
/// calendar month when the day lies before the cutoff (rolling over to
/// December of the prior year in January), and `d`'s own month otherwise.
pub fn attributed_month(d: &Date) -> (m: YearMonth)
    requires
        d.valid(),
    ensures
        m == spec_attributed_month(*d),
        m.valid(),
        d.day >= ATTRIBUTION_CUTOFF_DAY ==> m.year == d.year && m.month == d.month,
        d.day < ATTRIBUTION_CUTOFF_DAY && d.month > 1 ==> m.year == d.year && m.month == d.month
            - 1,
        d.day < ATTRIBUTION_CUTOFF_DAY && d.month == 1 ==> m.year == d.year - 1 && m.month == 12,
{
    if d.day < ATTRIBUTION_CUTOFF_DAY {
        if d.month == 1 {
            YearMonth { year: d.year - 1, month: 12 }
        } else {
            YearMonth { year: d.year, month: d.month - 1 }
        }
    } else {
        YearMonth { year: d.year, month: d.month }
    }
}

} // verus!
