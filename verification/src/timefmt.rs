//! The snapshot commit message: `Auto-sync: snapshot at YYYY-MM-DD HH:MM:SS`,
//! rendered from a UTC time in seconds since the epoch with a verified
//! proleptic Gregorian calendar.

use vstd::prelude::*;

verus! {

/// Seconds per day.
pub const SECS_PER_DAY: u64 = 86400;

/// A Gregorian leap year.
pub open spec fn is_leap(y: int) -> bool {
    (y % 4 == 0 && y % 100 != 0) || y % 400 == 0
}

/// Days in year `y`.
pub open spec fn days_in_year(y: int) -> int {
    if is_leap(y) {
        366
    } else {
        365
    }
}

/// Days in month `m` (1-based) of year `y`.
pub open spec fn days_in_month(y: int, m: int) -> int {
    if m == 2 {
        if is_leap(y) {
            29
        } else {
            28
        }
    } else if m == 4 || m == 6 || m == 9 || m == 11 {
        30
    } else {
        31
    }
}

/// Days in year `y` before month `m` (1-based).
pub open spec fn days_before_month(y: int, m: int) -> int
    decreases m,
        when m >= 1
{
    if m <= 1 {
        0
    } else {
        days_before_month(y, m - 1) + days_in_month(y, m - 1)
    }
}

/// The twelve months of a year sum to its length.
pub proof fn lemma_year_months(y: int)
    ensures
        days_before_month(y, 13) == days_in_year(y),
{
    reveal_with_fuel(days_before_month, 13);
}

/// The year containing the day `days` after 1970-01-01, and the zero-based
/// day within that year, found by peeling whole years off the day count.
pub open spec fn split_year(y: int, days: int) -> (int, int)
    decreases days,
        when days >= 0
{
    if days < days_in_year(y) {
        (y, days)
    } else {
        split_year(y + 1, days - days_in_year(y))
    }
}

/// The month (1-based) and day-of-month (1-based) for the zero-based day
/// `days` within year `y`, starting the peeling at month `m`.
pub open spec fn split_month(y: int, m: int, days: int) -> (int, int)
    decreases 12 - m,
{
    if m >= 12 || days < days_in_month(y, m) {
        (m, days + 1)
    } else {
        split_month(y, m + 1, days - days_in_month(y, m))
    }
}

/// The decimal digit character for `d` in `0 ..= 9`.
pub open spec fn digit_char(d: int) -> char {
    if d == 0 {
        '0'
    } else if d == 1 {
        '1'
    } else if d == 2 {
        '2'
    } else if d == 3 {
        '3'
    } else if d == 4 {
        '4'
    } else if d == 5 {
        '5'
    } else if d == 6 {
        '6'
    } else if d == 7 {
        '7'
    } else if d == 8 {
        '8'
    } else {
        '9'
    }
}

/// The decimal digits of `n`, most significant first, with no leading zero
/// except for `n == 0` itself.
pub open spec fn dec_digits(n: int) -> Seq<char>
    decreases n,
        when n >= 0
{
    if n < 10 {
        seq![digit_char(n)]
    } else {
        dec_digits(n / 10).push(digit_char(n % 10))
    }
}

/// `n` rendered as exactly two digits, zero-padded (for `n < 100`).
pub open spec fn two_digits(n: int) -> Seq<char> {
    seq![digit_char(n / 10), digit_char(n % 10)]
}

/// The snapshot commit message for the UTC time `ts` (seconds since the
/// epoch): `Auto-sync: snapshot at YYYY-MM-DD HH:MM:SS`. Years at or past
/// 1970 always render with four or more digits; months, days, hours, minutes
/// and seconds are zero-padded to two.
pub open spec fn spec_snapshot_message(ts: int) -> Seq<char> {
    let days = ts / (SECS_PER_DAY as int);
    let sod = ts % (SECS_PER_DAY as int);
    let yd = split_year(1970, days);
    let md = split_month(yd.0, 1, yd.1);
    "Auto-sync: snapshot at "@ + dec_digits(yd.0) + "-"@ + two_digits(md.0) + "-"@ + two_digits(
        md.1,
    ) + " "@ + two_digits(sod / 3600) + ":"@ + two_digits((sod % 3600) / 60) + ":"@ + two_digits(
        sod % 60,
    )
}

/// Days in year `y`, executable.
fn days_in_year_exec(y: u64) -> (r: u64)
    ensures
        r == days_in_year(y as int),
{
    if (y % 4 == 0 && y % 100 != 0) || y % 400 == 0 {
        366
    } else {
        365
    }
}

/// Days in month `m` of year `y`, executable.
fn days_in_month_exec(y: u64, m: u64) -> (r: u64)
    ensures
        r == days_in_month(y as int, m as int),
{
    if m == 2 {
        if (y % 4 == 0 && y % 100 != 0) || y % 400 == 0 {
            29
        } else {
            28
        }
    } else if m == 4 || m == 6 || m == 9 || m == 11 {
        30
    } else {
        31
    }
}

/// The one-character string for a decimal digit.
fn digit_str(d: u64) -> (r: &'static str)
    requires
        d < 10,
    ensures
        r@ == seq![digit_char(d as int)],
{
    proof {
        reveal_strlit("0");
        reveal_strlit("1");
        reveal_strlit("2");
        reveal_strlit("3");
        reveal_strlit("4");
        reveal_strlit("5");
        reveal_strlit("6");
        reveal_strlit("7");
        reveal_strlit("8");
        reveal_strlit("9");
    }
    match d {
        0 => "0",
        1 => "1",
        2 => "2",
        3 => "3",
        4 => "4",
        5 => "5",
        6 => "6",
        7 => "7",
        8 => "8",
        _ => "9",
    }
}

/// Append the decimal digits of `n`, most significant first.
fn push_dec(n: u64, out: &mut String)
    ensures
        final(out)@ == old(out)@ + dec_digits(n as int),
    decreases n,
{
    if n >= 10 {
        push_dec(n / 10, out);
    }
    out.append(digit_str(n % 10));
}

/// Append `n` as exactly two digits, zero-padded.
fn push_two(n: u64, out: &mut String)
    requires
        n < 100,
    ensures
        final(out)@ == old(out)@ + two_digits(n as int),
{
    out.append(digit_str(n / 10));
    out.append(digit_str(n % 10));
}

/// Render the snapshot commit message for the UTC time `ts` (seconds since
/// the epoch): exactly `Auto-sync: snapshot at YYYY-MM-DD HH:MM:SS`.
pub fn snapshot_message(ts: u64) -> (r: String)
    ensures
        r@ == spec_snapshot_message(ts as int),
{
    let days: u64 = ts / SECS_PER_DAY;
    let sod: u64 = ts % SECS_PER_DAY;
    proof {
        vstd::arithmetic::div_mod::lemma_div_is_ordered(
            ts as int,
            u64::MAX as int,
            SECS_PER_DAY as int,
        );
        assert(days <= u64::MAX as int / (SECS_PER_DAY as int));
    }

    // Peel whole years off the day count.
    let mut y: u64 = 1970;
    let mut yrem: u64 = days;
    loop
        invariant
            1970 <= y,
            yrem <= days,
            days <= u64::MAX as int / (SECS_PER_DAY as int),
            y - 1970 <= days - yrem,
            split_year(y as int, yrem as int) == split_year(1970, days as int),
        ensures
            1970 <= y,
            yrem < days_in_year(y as int),
            split_year(y as int, yrem as int) == split_year(1970, days as int),
        decreases yrem,
    {
        let diy = days_in_year_exec(y);
        if yrem < diy {
            break ;
        }
        yrem = yrem - diy;
        y = y + 1;
    }
    assert(split_year(1970, days as int) == (y as int, yrem as int));

    // Peel whole months off the day-of-year.
    let mut m: u64 = 1;
    let mut mrem: u64 = yrem;
    loop
        invariant
            1 <= m <= 12,
            mrem <= yrem,
            yrem < days_in_year(y as int),
            days_before_month(y as int, m as int) + mrem == yrem,
            split_month(y as int, m as int, mrem as int) == split_month(y as int, 1, yrem as int),
        ensures
            1 <= m <= 12,
            mrem <= yrem,
            m as int >= 12 || mrem < days_in_month(y as int, m as int),
            days_before_month(y as int, m as int) + mrem == yrem,
            yrem < days_in_year(y as int),
            split_month(y as int, m as int, mrem as int) == split_month(y as int, 1, yrem as int),
        decreases 12 - m,
    {
        let dim = days_in_month_exec(y, m);
        if m >= 12 || mrem < dim {
            break ;
        }
        mrem = mrem - dim;
        m = m + 1;
    }
    proof {
        // A remainder at December is bounded by December's length.
        if m == 12 {
            lemma_year_months(y as int);
            assert(days_before_month(y as int, 13) == days_before_month(y as int, 12) + 31);
        }
        assert(mrem < 31 || mrem < days_in_month(y as int, m as int));
    }
    let d: u64 = mrem + 1;
    assert(split_month(y as int, 1, yrem as int) == (m as int, d as int));

    let hh: u64 = sod / 3600;
    let mm: u64 = (sod % 3600) / 60;
    let ss: u64 = sod % 60;

    let mut out = String::from_str("Auto-sync: snapshot at ");
    push_dec(y, &mut out);
    out.append("-");
    push_two(m, &mut out);
    out.append("-");
    push_two(d, &mut out);
    out.append(" ");
    push_two(hh, &mut out);
    out.append(":");
    push_two(mm, &mut out);
    out.append(":");
    push_two(ss, &mut out);
    proof {
        assert(out@ =~= spec_snapshot_message(ts as int));
    }
    out
}

/// Relies on chrono's `Utc::now`: the current civil time read from the system
/// clock, returned as whole seconds since the UTC epoch. Nothing is assumed
/// of the value: callers state what holds of every possible reading.
#[verifier::external_body]
pub fn utc_now_secs() -> i64 {
    chrono::Utc::now().timestamp()
}

/// The snapshot commit message for the current UTC time: `Some` message in
/// the exact template whenever the clock reads at or after the epoch, `None`
/// for a clock reading before it.
pub fn message_for_now() -> (r: Option<String>)
    ensures
        r matches Some(s) ==> exists|ts: int| 0 <= ts && s@ == spec_snapshot_message(ts),
{
    let now = utc_now_secs();
    if now >= 0 {
        Some(snapshot_message(now as u64))
    } else {
        None
    }
}

} // verus!
