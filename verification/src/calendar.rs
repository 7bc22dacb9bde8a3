//! Calendar arithmetic and the textual forms of temporal values.
//!
//! Tick counts are split into whole days, seconds-of-day and a fractional
//! part by verified Euclidean division; only the conversion of a day number
//! into a proleptic Gregorian calendar date is delegated to chrono, behind a
//! trusted wrapper whose result is characterized exactly by `days_from_civil`.

use vstd::arithmetic::div_mod::{lemma_fundamental_div_mod, lemma_fundamental_div_mod_converse};
use vstd::prelude::*;

use crate::digits::{
    pad2_of, pad3_of, pad4_of, pad6_of, pad9_of, push_pad2, push_pad3, push_pad4, push_pad6,
    push_pad9,
};
use crate::types::TimeUnit;

verus! {

/// Proleptic Gregorian leap-year rule, over astronomical year numbers.
pub open spec fn is_leap_year(y: int) -> bool {
    (y % 4 == 0 && y % 100 != 0) || y % 400 == 0
}

pub open spec fn days_in_year(y: int) -> int {
    if is_leap_year(y) {
        366
    } else {
        365
    }
}

/// Days from 1970-01-01 to the first day of year `y` (negative for earlier
/// years).
pub open spec fn days_before_year(y: int) -> int
    decreases
            if y >= 1970 {
                y - 1970
            } else {
                1970 - y
            },
{
    if y > 1970 {
        days_before_year(y - 1) + days_in_year(y - 1)
    } else if y < 1970 {
        days_before_year(y + 1) - days_in_year(y)
    } else {
        0
    }
}

pub open spec fn days_in_month(y: int, m: int) -> int {
    if m == 2 {
        if is_leap_year(y) {
            29
        } else {
            28
        }
    } else if m == 4 || m == 6 || m == 9 || m == 11 {
        30
    } else {
        31
    }
}

/// Days from the first of year `y` to the first of month `m` of year `y`.
pub open spec fn days_before_month(y: int, m: int) -> int
    decreases m,
{
    if m <= 1 {
        0
    } else {
        days_before_month(y, m - 1) + days_in_month(y, m - 1)
    }
}

pub open spec fn valid_ymd(y: int, m: int, d: int) -> bool {
    1 <= m <= 12 && 1 <= d <= days_in_month(y, m)
}

/// The day number (days since 1970-01-01) of a calendar date.
pub open spec fn days_from_civil(y: int, m: int, d: int) -> int {
    days_before_year(y) + days_before_month(y, m) + (d - 1)
}

/// The calendar date of a day number: the (unique) date whose day number it
/// is.
pub open spec fn civil_of_day(days: int) -> (int, int, int) {
    choose|ymd: (int, int, int)|
        valid_ymd(ymd.0, ymd.1, ymd.2) && days_from_civil(ymd.0, ymd.1, ymd.2) == days
}

/// Day numbers for which conversion to a calendar date is guaranteed; the
/// wire format rejects temporal values outside this range.
pub open spec fn in_day_range(days: int) -> bool {
    -95000000 <= days <= 95000000
}

/// Relies on `chrono::NaiveDate::from_num_days_from_ce_opt` (day 1 being
/// 0001-01-01, so 1970-01-01 is day 719163) and on the `Datelike` accessors
/// `year`, `month` and `day`: the result is the proleptic Gregorian calendar
/// date `days` days after 1970-01-01, which chrono supports for every day
/// number in `in_day_range`.
#[verifier::external_body]
fn civil_from_days(days: i64) -> (r: (i64, u32, u32))
    requires
        in_day_range(days as int),
    ensures
        (r.0 as int, r.1 as int, r.2 as int) == civil_of_day(days as int),
        valid_ymd(r.0 as int, r.1 as int, r.2 as int),
        days_from_civil(r.0 as int, r.1 as int, r.2 as int) == days as int,
        -270000 <= r.0 <= 270000,
{
    let date = chrono::NaiveDate::from_num_days_from_ce_opt((days + 719_163) as i32).unwrap();
    (
        chrono::Datelike::year(&date) as i64,
        chrono::Datelike::month(&date),
        chrono::Datelike::day(&date),
    )
}

/// The magnitude of a negative value, as an unsigned.
fn neg_magnitude(v: i64) -> (r: u64)
    requires
        v < 0,
    ensures
        r as int == -(v as int),
{
    if v == i64::MIN {
        9223372036854775808u64
    } else {
        (-v) as u64
    }
}

/// Floor (Euclidean) division of a signed value by a small positive divisor:
/// the quotient and the non-negative remainder.
pub fn div_floor_i64(v: i64, d: u64) -> (r: (i64, u64))
    requires
        1 <= d <= 1000000000,
    ensures
        r.0 as int == (v as int) / (d as int),
        r.1 as int == (v as int) % (d as int),
        r.1 < d,
{
    if v >= 0 {
        let q = (v as u64) / d;
        let rem = (v as u64) % d;
        (q as i64, rem)
    } else {
        let mag = neg_magnitude(v);
        let q0 = mag / d;
        let r0 = mag % d;
        proof {
            assert((q0 as int) * (d as int) + (r0 as int) == mag as int) by {
                lemma_fundamental_div_mod(mag as int, d as int);
            }
        }
        if r0 == 0 {
            let q: i64 = if q0 == 9223372036854775808u64 {
                i64::MIN
            } else {
                -(q0 as i64)
            };
            proof {
                assert((q as int) * (d as int) + 0 == v as int) by (nonlinear_arith)
                    requires
                        q as int == -(q0 as int) && (q0 as int) * (d as int) + (r0 as int) == mag
                            as int && r0 == 0 && mag as int == -(v as int),
                ;
                lemma_fundamental_div_mod_converse(v as int, d as int, q as int, 0);
            }
            (q, 0)
        } else {
            proof {
                assert(q0 < 0x8000_0000_0000_0000) by (nonlinear_arith)
                    requires
                        (q0 as int) * (d as int) + (r0 as int) == mag as int && mag as int
                            <= 0x8000_0000_0000_0000 && r0 > 0 && d >= 1 && q0 >= 0,
                ;
            }
            let q: i64 = -(q0 as i64) - 1;
            let rem: u64 = d - r0;
            proof {
                assert((q as int) * (d as int) + (rem as int) == v as int) by (nonlinear_arith)
                    requires
                        q as int == -(q0 as int) - 1 && (q0 as int) * (d as int) + (r0 as int)
                            == mag as int && rem as int == d - r0 && mag as int == -(v as int),
                ;
                lemma_fundamental_div_mod_converse(v as int, d as int, q as int, rem as int);
            }
            (q, rem)
        }
    }
}

/// Whole seconds and the nanosecond fraction of a tick count, per unit.
pub open spec fn split_secs(v: int, unit: TimeUnit) -> (int, int) {
    match unit {
        TimeUnit::Second => (v, 0),
        TimeUnit::Millisecond => (v / 1000, (v % 1000) * 1000000),
        TimeUnit::Microsecond => (v / 1000000, (v % 1000000) * 1000),
        TimeUnit::Nanosecond => (v / 1000000000, v % 1000000000),
    }
}

pub open spec fn day_of_secs(secs: int) -> int {
    secs / 86400
}

pub open spec fn sod_of_secs(secs: int) -> int {
    secs % 86400
}

/// The year component, zero-padded to four digits, with a minus sign for
/// years before year 0.
pub open spec fn year_text(y: int) -> Seq<char> {
    if y < 0 {
        "-"@ + pad4_of(-y)
    } else {
        pad4_of(y)
    }
}

/// `YYYY-MM-DD`.
pub open spec fn date_text(y: int, m: int, d: int) -> Seq<char> {
    year_text(y) + "-"@ + pad2_of(m) + "-"@ + pad2_of(d)
}

/// `HH:MM:SS` of a seconds-of-day value.
pub open spec fn time_hms_text(sod: int) -> Seq<char> {
    pad2_of(sod / 3600) + ":"@ + pad2_of((sod % 3600) / 60) + ":"@ + pad2_of(sod % 60)
}

/// Exactly-millisecond fraction: `.mmm`, truncating finer detail.
pub open spec fn frac_millis_text(nanos: int) -> Seq<char> {
    "."@ + pad3_of(nanos / 1000000)
}

/// Variable-precision fraction: omitted when zero, otherwise the shortest of
/// three, six or nine digits that is exact.
pub open spec fn frac_naive_text(nanos: int) -> Seq<char> {
    if nanos == 0 {
        Seq::empty()
    } else if nanos % 1000000 == 0 {
        "."@ + pad3_of(nanos / 1000000)
    } else if nanos % 1000 == 0 {
        "."@ + pad6_of(nanos / 1000)
    } else {
        "."@ + pad9_of(nanos)
    }
}

/// RFC 3339 extended form normalized to UTC, with exactly millisecond
/// precision and a literal `Z` suffix.
pub open spec fn instant_utc_text(secs: int, nanos: int) -> Seq<char> {
    let ymd = civil_of_day(day_of_secs(secs));
    date_text(ymd.0, ymd.1, ymd.2) + "T"@ + time_hms_text(sod_of_secs(secs)) + frac_millis_text(
        nanos,
    ) + "Z"@
}

/// The same calendar instant without zone indicator, with the
/// variable-precision fraction.
pub open spec fn instant_naive_text(secs: int, nanos: int) -> Seq<char> {
    let ymd = civil_of_day(day_of_secs(secs));
    date_text(ymd.0, ymd.1, ymd.2) + "T"@ + time_hms_text(sod_of_secs(secs)) + frac_naive_text(
        nanos,
    )
}

/// The textual form of a timestamp tick count: zone-attached fields are
/// normalized to UTC with a `Z` suffix, zone-less fields keep the naive form.
pub open spec fn timestamp_text(v: int, unit: TimeUnit, tz: bool) -> Seq<char> {
    let sn = split_secs(v, unit);
    if tz {
        instant_utc_text(sn.0, sn.1)
    } else {
        instant_naive_text(sn.0, sn.1)
    }
}

/// A bare date, rendered as a midnight date-time: the wire format has no
/// date-only type.
pub open spec fn date_only_text(days: int) -> Seq<char> {
    let ymd = civil_of_day(days);
    date_text(ymd.0, ymd.1, ymd.2) + "T00:00"@
}

/// Appends `year_text(y)`.
fn push_year(out: &mut String, y: i64)
    requires
        -270000 <= y <= 270000,
    ensures
        final(out)@ == old(out)@ + year_text(y as int),
{
    if y < 0 {
        out.append("-");
        push_pad4(out, (-y) as u64);
        proof {
            assert(out@ =~= old(out)@ + year_text(y as int));
        }
    } else {
        push_pad4(out, y as u64);
    }
}

/// Appends `date_text(y, m, d)`.
fn push_date(out: &mut String, y: i64, m: u32, d: u32)
    requires
        -270000 <= y <= 270000,
        m <= 99,
        d <= 99,
    ensures
        final(out)@ == old(out)@ + date_text(y as int, m as int, d as int),
{
    push_year(out, y);
    out.append("-");
    push_pad2(out, m as u64);
    out.append("-");
    push_pad2(out, d as u64);
    proof {
        assert(out@ =~= old(out)@ + date_text(y as int, m as int, d as int));
    }
}

/// Appends `time_hms_text(sod)`.
fn push_hms(out: &mut String, sod: u64)
    requires
        sod < 86400,
    ensures
        final(out)@ == old(out)@ + time_hms_text(sod as int),
{
    let h = sod / 3600;
    let rem = sod % 3600;
    let mi = rem / 60;
    let s = sod % 60;
    proof {
        assert((sod as int) % 3600 / 60 == ((sod as int) % 3600) / 60);
        assert(rem as int == (sod as int) % 3600);
    }
    push_pad2(out, h);
    out.append(":");
    push_pad2(out, mi);
    out.append(":");
    push_pad2(out, s);
    proof {
        assert(out@ =~= old(out)@ + time_hms_text(sod as int));
    }
}

/// Appends the date and `HH:MM:SS` time of an instant given as whole seconds;
/// the shared prefix of both timestamp forms.
fn push_instant_base(out: &mut String, secs: i64)
    requires
        in_day_range(day_of_secs(secs as int)),
    ensures
        final(out)@ == old(out)@ + ({
            let ymd = civil_of_day(day_of_secs(secs as int));
            date_text(ymd.0, ymd.1, ymd.2) + "T"@ + time_hms_text(sod_of_secs(secs as int))
        }),
{
    let (days, sod) = div_floor_i64(secs, 86400);
    let ymd = civil_from_days(days);
    push_date(out, ymd.0, ymd.1, ymd.2);
    out.append("T");
    push_hms(out, sod);
    proof {
        let symd = civil_of_day(day_of_secs(secs as int));
        assert(out@ =~= old(out)@ + (date_text(symd.0, symd.1, symd.2) + "T"@ + time_hms_text(
            sod_of_secs(secs as int),
        )));
    }
}

/// Renders an instant in the zone-attached form: UTC-normalized RFC 3339
/// with millisecond precision and a `Z` suffix.
pub fn encode_date_time(secs: i64, nanos: u64) -> (r: String)
    requires
        in_day_range(day_of_secs(secs as int)),
        nanos < 1000000000,
    ensures
        r@ == instant_utc_text(secs as int, nanos as int),
{
    let mut out = String::new();
    push_instant_base(&mut out, secs);
    out.append(".");
    push_pad3(&mut out, nanos / 1000000);
    out.append("Z");
    proof {
        assert(out@ =~= instant_utc_text(secs as int, nanos as int));
    }
    out
}

/// Renders an instant in the zone-less form: the same calendar instant with
/// the variable-precision fraction and no zone suffix.
pub fn encode_date_time_naive(secs: i64, nanos: u64) -> (r: String)
    requires
        in_day_range(day_of_secs(secs as int)),
        nanos < 1000000000,
    ensures
        r@ == instant_naive_text(secs as int, nanos as int),
{
    let mut out = String::new();
    push_instant_base(&mut out, secs);
    if nanos == 0 {
    } else if nanos % 1000000 == 0 {
        out.append(".");
        push_pad3(&mut out, nanos / 1000000);
    } else if nanos % 1000 == 0 {
        out.append(".");
        push_pad6(&mut out, nanos / 1000);
    } else {
        out.append(".");
        push_pad9(&mut out, nanos);
    }
    proof {
        assert(out@ =~= instant_naive_text(secs as int, nanos as int));
    }
    out
}

/// The textual form of a last-modified time given as epoch milliseconds:
/// always the UTC-normalized, millisecond-precision form.
pub open spec fn updated_text(ms: int) -> Seq<char> {
    let sn = split_secs(ms, TimeUnit::Millisecond);
    instant_utc_text(sn.0, sn.1)
}

/// Renders a last-modified time given as epoch milliseconds.
pub fn encode_updated(ms: i64) -> (r: String)
    requires
        in_day_range(day_of_secs((ms as int) / 1000)),
    ensures
        r@ == updated_text(ms as int),
{
    let (secs, rem) = div_floor_i64(ms, 1000);
    encode_date_time(secs, rem * 1000000)
}

/// Renders a date as a midnight date-time, `YYYY-MM-DDT00:00`.
pub fn encode_date(days: i64) -> (r: String)
    requires
        in_day_range(days as int),
    ensures
        r@ == date_only_text(days as int),
{
    let mut out = String::new();
    let ymd = civil_from_days(days);
    push_date(&mut out, ymd.0, ymd.1, ymd.2);
    out.append("T00:00");
    proof {
        assert(out@ =~= date_only_text(days as int));
    }
    out
}

} // verus!
