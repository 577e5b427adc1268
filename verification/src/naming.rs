//! Deriving the playlist name and description for a batch run.
//!
//! The name is `"<YYYY>-<MM> (<Mon>) BOTM"` for the attributed month; the
//! description names the attributed month in full and records the actual
//! invocation date, which may differ near month boundaries.

use vstd::prelude::*;
use vstd::string::StringExecFns;

use crate::date::{spec_attributed_month, attributed_month, Date, YearMonth};

verus! {

/// The decimal digit character for `d % 10`.
pub open spec fn digit_char(d: u32) -> char {
    let r = d % 10;
    if r == 0 {
        '0'
    } else if r == 1 {
        '1'
    } else if r == 2 {
        '2'
    } else if r == 3 {
        '3'
    } else if r == 4 {
        '4'
    } else if r == 5 {
        '5'
    } else if r == 6 {
        '6'
    } else if r == 7 {
        '7'
    } else if r == 8 {
        '8'
    } else {
        '9'
    }
}

/// `n` written with exactly two decimal digits (modulo 100).
pub open spec fn spec_pad2(n: u32) -> Seq<char> {
    seq![digit_char(n / 10), digit_char(n)]
}

/// `n` written with exactly four decimal digits (modulo 10000).
pub open spec fn spec_pad4(n: u32) -> Seq<char> {
    seq![digit_char(n / 1000), digit_char(n / 100), digit_char(n / 10), digit_char(n)]
}

fn digit_str(d: u32) -> (r: &'static str)
    requires
        d < 10,
    ensures
        r@ == seq![digit_char(d)],
{
    proof {
        reveal_strlit("0");
        reveal_strlit("1");
        reveal_strlit("2");
        reveal_strlit("3");
        reveal_strlit("4");
        reveal_strlit("5");
        reveal_strlit("6");
        reveal_strlit("7");
        reveal_strlit("8");
        reveal_strlit("9");
    }
    if d == 0 {
        proof { assert("0"@ =~= seq![digit_char(0)]); }
        "0"
    } else if d == 1 {
        proof { assert("1"@ =~= seq![digit_char(1)]); }
        "1"
    } else if d == 2 {
        proof { assert("2"@ =~= seq![digit_char(2)]); }
        "2"
    } else if d == 3 {
        proof { assert("3"@ =~= seq![digit_char(3)]); }
        "3"
    } else if d == 4 {
        proof { assert("4"@ =~= seq![digit_char(4)]); }
        "4"
    } else if d == 5 {
        proof { assert("5"@ =~= seq![digit_char(5)]); }
        "5"
    } else if d == 6 {
        proof { assert("6"@ =~= seq![digit_char(6)]); }
        "6"
    } else if d == 7 {
        proof { assert("7"@ =~= seq![digit_char(7)]); }
        "7"
    } else if d == 8 {
        proof { assert("8"@ =~= seq![digit_char(8)]); }
        "8"
    } else {
        proof { assert("9"@ =~= seq![digit_char(9)]); }
        "9"
    }
}

fn append_pad2(s: &mut String, n: u32)
    ensures
        final(s)@ == old(s)@ + spec_pad2(n),
{
    s.append(digit_str((n / 10) % 10));
    s.append(digit_str(n % 10));
    proof {
        assert(digit_char((n / 10) % 10) == digit_char(n / 10));
        assert(s@ =~= old(s)@ + spec_pad2(n));
    }
}

fn append_pad4(s: &mut String, n: u32)
    ensures
        final(s)@ == old(s)@ + spec_pad4(n),
{
    s.append(digit_str((n / 1000) % 10));
    s.append(digit_str((n / 100) % 10));
    s.append(digit_str((n / 10) % 10));
    s.append(digit_str(n % 10));
    proof {
        assert(digit_char((n / 1000) % 10) == digit_char(n / 1000));
        assert(digit_char((n / 100) % 10) == digit_char(n / 100));
        assert(digit_char((n / 10) % 10) == digit_char(n / 10));
        assert(s@ =~= old(s)@ + spec_pad4(n));
    }
}

/// `n` written in decimal without leading zeros.
pub open spec fn spec_decimal(n: u32) -> Seq<char>
    decreases n,
{
    if n < 10 {
        seq![digit_char(n)]
    } else {
        spec_decimal((n / 10) as u32).push(digit_char(n))
    }
}

pub(crate) fn append_decimal(s: &mut String, n: u16)
    ensures
        final(s)@ == old(s)@ + spec_decimal(n as u32),
    decreases n,
{
    if n >= 10 {
        append_decimal(s, n / 10);
    }
    s.append(digit_str((n % 10) as u32));
    proof {
        assert(digit_char((n % 10) as u32) == digit_char(n as u32));
        assert((n as u32 / 10) == ((n / 10) as u32));
        assert(s@ =~= old(s)@ + spec_decimal(n as u32));
    }
}

/// The three-letter abbreviation of month `m`.
pub open spec fn spec_month_abbrev(m: u32) -> Seq<char> {
    if m == 1 {
        "Jan"@
    } else if m == 2 {
        "Feb"@
    } else if m == 3 {
        "Mar"@
    } else if m == 4 {
        "Apr"@
    } else if m == 5 {
        "May"@
    } else if m == 6 {
        "Jun"@
    } else if m == 7 {
        "Jul"@
    } else if m == 8 {
        "Aug"@
    } else if m == 9 {
        "Sep"@
    } else if m == 10 {
        "Oct"@
    } else if m == 11 {
        "Nov"@
    } else {
        "Dec"@
    }
}

/// The full English name of month `m`.
pub open spec fn spec_month_name(m: u32) -> Seq<char> {
    if m == 1 {
        "January"@
    } else if m == 2 {
        "February"@
    } else if m == 3 {
        "March"@
    } else if m == 4 {
        "April"@
    } else if m == 5 {
        "May"@
    } else if m == 6 {
        "June"@
    } else if m == 7 {
        "July"@
    } else if m == 8 {
        "August"@
    } else if m == 9 {
        "September"@
    } else if m == 10 {
        "October"@
    } else if m == 11 {
        "November"@
    } else {
        "December"@
    }
}

pub fn month_abbrev(m: u32) -> (r: &'static str)
    requires
        1 <= m <= 12,
    ensures
        r@ == spec_month_abbrev(m),
{
    if m == 1 {
        "Jan"
    } else if m == 2 {
        "Feb"
    } else if m == 3 {
        "Mar"
    } else if m == 4 {
        "Apr"
    } else if m == 5 {
        "May"
    } else if m == 6 {
        "Jun"
    } else if m == 7 {
        "Jul"
    } else if m == 8 {
        "Aug"
    } else if m == 9 {
        "Sep"
    } else if m == 10 {
        "Oct"
    } else if m == 11 {
        "Nov"
    } else {
        "Dec"
    }
}

pub fn month_name(m: u32) -> (r: &'static str)
    requires
        1 <= m <= 12,
    ensures
        r@ == spec_month_name(m),
{
    if m == 1 {
        "January"
    } else if m == 2 {
        "February"
    } else if m == 3 {
        "March"
    } else if m == 4 {
        "April"
    } else if m == 5 {
        "May"
    } else if m == 6 {
        "June"
    } else if m == 7 {
        "July"
    } else if m == 8 {
        "August"
    } else if m == 9 {
        "September"
    } else if m == 10 {
        "October"
    } else if m == 11 {
        "November"
    } else {
        "December"
    }
}

/// The playlist name for the attributed month `m`: `"YYYY-MM (Mon) BOTM"`.
pub open spec fn spec_playlist_name(m: YearMonth) -> Seq<char> {
    spec_pad4(m.year) + "-"@ + spec_pad2(m.month) + " ("@ + spec_month_abbrev(m.month)
        + ") BOTM"@
}

/// The playlist description for attributed month `m` on invocation date
/// `today`: `"Bangers of the month for <Month YYYY>, (generated on
/// <YYYY-MM-DD>)"`.
pub open spec fn spec_playlist_description(m: YearMonth, today: Date) -> Seq<char> {
    "Bangers of the month for "@ + spec_month_name(m.month) + " "@ + spec_pad4(m.year)
        + ", (generated on "@ + spec_pad4(today.year) + "-"@ + spec_pad2(today.month) + "-"@
        + spec_pad2(today.day) + ")"@
}

pub fn playlist_name(m: &YearMonth) -> (r: String)
    requires
        m.valid(),
    ensures
        r@ == spec_playlist_name(*m),
{
    let mut r = String::new();
    append_pad4(&mut r, m.year);
    r.append("-");
    append_pad2(&mut r, m.month);
    r.append(" (");
    r.append(month_abbrev(m.month));
    r.append(") BOTM");
    proof {
        assert(r@ =~= spec_playlist_name(*m));
    }
    r
}

pub fn playlist_description(m: &YearMonth, today: &Date) -> (r: String)
    requires
        m.valid(),
        today.valid(),
    ensures
        r@ == spec_playlist_description(*m, *today),
{
    let mut r = String::new();
    r.append("Bangers of the month for ");
    r.append(month_name(m.month));
    r.append(" ");
    append_pad4(&mut r, m.year);
    r.append(", (generated on ");
    append_pad4(&mut r, today.year);
    r.append("-");
    append_pad2(&mut r, today.month);
    r.append("-");
    append_pad2(&mut r, today.day);
    r.append(")");
    proof {
        assert(r@ =~= spec_playlist_description(*m, *today));
    }
    r
}

/// The name and description shared by every playlist of one batch run.
pub struct PlaylistTarget {
    pub name: String,
    pub description: String,
}

/// Computes the target once per run from the invocation date: the name is
/// derived from the attributed month, the description additionally records
/// the invocation date itself.
pub fn playlist_target(today: &Date) -> (t: PlaylistTarget)
    requires
        today.valid(),
    ensures
        t.name@ == spec_playlist_name(spec_attributed_month(*today)),
        t.description@ == spec_playlist_description(spec_attributed_month(*today), *today),
{
    let m = attributed_month(today);
    let name = playlist_name(&m);
    let description = playlist_description(&m, today);
    PlaylistTarget { name, description }
}

} // verus!
