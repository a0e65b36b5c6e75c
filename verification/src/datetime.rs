//! Timestamps and calendar arithmetic.
//!
//! Instants are carried as 100-nanosecond ticks since the Unix epoch,
//! converted from Windows FILETIME values. Formatting uses a verified
//! proleptic-Gregorian calendar so that equal inputs always give equal text.

use vstd::prelude::*;
use vstd::string::StringSliceAdditionalSpecFns;
use crate::error::Error;
use crate::strutil::{dec_of, push_dec, u64_to_string};

verus! {

/// FILETIME value of the Unix epoch: 100 ns ticks from 1601-01-01 to 1970-01-01.
pub const FILETIME_UNIX_EPOCH: u64 = 116444736000000000;

/// Days from 1970-01-01 back to the calendar origin 0000-03-01.
pub const EPOCH_DAY_SHIFT: u64 = 719468;

/// Seconds of `EPOCH_DAY_SHIFT` days.
pub const EPOCH_SECOND_SHIFT: u64 = 62162035200;

/// A FILETIME converted to 100 ns ticks since the Unix epoch.
/// Values at or before the epoch convert to nothing.
pub open spec fn filetime_to_ticks_spec(ft: u64) -> Option<u64> {
    if ft <= FILETIME_UNIX_EPOCH {
        None
    } else {
        Some((ft - FILETIME_UNIX_EPOCH) as u64)
    }
}

/// Convert a FILETIME to 100 ns ticks since the Unix epoch, at full precision.
pub fn convert_filetime(ft: u64) -> (r: Option<u64>)
    ensures
        r == filetime_to_ticks_spec(ft),
{
    if ft <= FILETIME_UNIX_EPOCH {
        None
    } else {
        Some(ft - FILETIME_UNIX_EPOCH)
    }
}

/// A FILETIME converted to whole seconds since the Unix epoch, with values
/// below the epoch saturating to the epoch itself; zero converts to nothing.
/// This is the coarser conversion the artifact decoders use.
pub open spec fn filetime_to_secs_spec(ft: u64) -> Option<u64> {
    if ft == 0 {
        None
    } else if ft <= FILETIME_UNIX_EPOCH {
        Some(0u64)
    } else {
        Some(((ft - FILETIME_UNIX_EPOCH) / 10000000) as u64)
    }
}

/// Convert a FILETIME to whole seconds since the Unix epoch, saturating below.
pub fn convert_filetime_secs(ft: u64) -> (r: Option<u64>)
    ensures
        r == filetime_to_secs_spec(ft),
{
    if ft == 0 {
        None
    } else if ft <= FILETIME_UNIX_EPOCH {
        Some(0)
    } else {
        Some((ft - FILETIME_UNIX_EPOCH) / 10000000)
    }
}

/// A FILETIME converted to ticks truncated to whole seconds: the coarser
/// conversion, expressed on the tick scale the timeline uses.
pub open spec fn filetime_secs_ticks_spec(ft: u64) -> Option<u64> {
    match filetime_to_secs_spec(ft) {
        Some(s) => Some((s * 10000000) as u64),
        None => None,
    }
}

/// Convert a FILETIME to whole-second ticks, saturating below the epoch.
pub fn convert_filetime_secs_ticks(ft: u64) -> (r: Option<u64>)
    ensures
        r == filetime_secs_ticks_spec(ft),
{
    match convert_filetime_secs(ft) {
        Some(s) => {
            proof {
                assert(s <= 1844674407370) by (nonlinear_arith)
                    requires
                        s == ((ft - FILETIME_UNIX_EPOCH) as int) / 10000000 || s == 0,
                        ft <= 0xFFFFFFFFFFFFFFFFu64,
                        ft >= FILETIME_UNIX_EPOCH || s == 0,
                ;
                assert(s * 10000000 <= 1844674407370i64 * 10000000) by (nonlinear_arith)
                    requires
                        s <= 1844674407370,
                ;
            }
            Some(s * 10000000)
        },
        None => None,
    }
}

/// A whole second count offset from the epoch by FILETIME arithmetic comes
/// back unchanged: converting the FILETIME that lies `s` seconds past the
/// epoch yields exactly `s` seconds worth of ticks.
pub proof fn lemma_filetime_round_trip(s: u64)
    requires
        s <= 0x10000000000,
    ensures
        FILETIME_UNIX_EPOCH + 10000000 * s <= u64::MAX,
        filetime_to_ticks_spec((FILETIME_UNIX_EPOCH + 10000000 * s) as u64) == (
        if s == 0 {
            Option::<u64>::None
        } else {
            Option::<u64>::Some((10000000 * s) as u64)
        }),
        filetime_to_secs_spec((FILETIME_UNIX_EPOCH + 10000000 * s) as u64) == Option::<u64>::Some(
            s,
        ),
{
    assert(10000000 * s <= 10000000 * 0x10000000000) by (nonlinear_arith)
        requires
            s <= 0x10000000000,
    ;
    let ft = (FILETIME_UNIX_EPOCH + 10000000 * s) as u64;
    assert(ft == FILETIME_UNIX_EPOCH + 10000000 * s);
    if s > 0 {
        assert(10000000 * s >= 10000000) by (nonlinear_arith)
            requires
                s >= 1,
        ;
        assert(ft - FILETIME_UNIX_EPOCH == 10000000 * s);
        assert((10000000 * s as int) / 10000000 == s) by (nonlinear_arith);
        assert(((ft - FILETIME_UNIX_EPOCH) / 10000000) as u64 == s);
    }
}

/// A timestamp lies inside the optional [after, before] window; an absent
/// timestamp passes only when no bound is set.
pub open spec fn in_range_spec(ts: Option<u64>, after: Option<u64>, before: Option<u64>) -> bool {
    match ts {
        Some(t) => {
            (match after {
                Some(a) => t >= a,
                None => true,
            }) && (match before {
                Some(b) => t <= b,
                None => true,
            })
        },
        None => after is None && before is None,
    }
}

/// Check whether a timestamp falls within the given date range.
pub fn timestamp_in_range(ts: &Option<u64>, after: &Option<u64>, before: &Option<u64>) -> (r: bool)
    ensures
        r == in_range_spec(*ts, *after, *before),
{
    match ts {
        Some(t) => {
            if let Some(a) = after {
                if *t < *a {
                    return false;
                }
            }
            if let Some(b) = before {
                if *t > *b {
                    return false;
                }
            }
            true
        },
        None => after.is_none() && before.is_none(),
    }
}

/// A record passes the date filter when any of its eight timestamps does.
pub open spec fn record_in_range_spec(
    si: crate::types::EventTimestamps,
    fnts: crate::types::EventTimestamps,
    after: Option<u64>,
    before: Option<u64>,
) -> bool {
    ||| in_range_spec(si.created, after, before)
    ||| in_range_spec(si.modified, after, before)
    ||| in_range_spec(si.mft_modified, after, before)
    ||| in_range_spec(si.accessed, after, before)
    ||| in_range_spec(fnts.created, after, before)
    ||| in_range_spec(fnts.modified, after, before)
    ||| in_range_spec(fnts.mft_modified, after, before)
    ||| in_range_spec(fnts.accessed, after, before)
}

/// Check whether any timestamp of a record falls within the date range.
pub fn record_in_date_range(
    record: &crate::types::Event,
    after: &Option<u64>,
    before: &Option<u64>,
) -> (r: bool)
    ensures
        r == record_in_range_spec(record.timestamps, record.fn_timestamps, *after, *before),
{
    timestamp_in_range(&record.timestamps.created, after, before) || timestamp_in_range(
        &record.timestamps.modified,
        after,
        before,
    ) || timestamp_in_range(&record.timestamps.mft_modified, after, before)
        || timestamp_in_range(&record.timestamps.accessed, after, before) || timestamp_in_range(
        &record.fn_timestamps.created,
        after,
        before,
    ) || timestamp_in_range(&record.fn_timestamps.modified, after, before)
        || timestamp_in_range(&record.fn_timestamps.mft_modified, after, before)
        || timestamp_in_range(&record.fn_timestamps.accessed, after, before)
}

/// `a - b`, floored at zero.
pub open spec fn sub_floor_spec(a: int, b: int) -> int {
    if a >= b {
        a - b
    } else {
        0
    }
}

fn sub_floor(a: u64, b: u64) -> (r: u64)
    ensures
        r == sub_floor_spec(a as int, b as int),
{
    if a >= b {
        a - b
    } else {
        0
    }
}

/// Day number (shifted so that 0000-03-01 is day zero) of a calendar date.
/// Dates that would fall before day zero clamp to it.
pub open spec fn shifted_day_of_civil(y: int, m: int, d: int) -> int {
    let y2 = if m <= 2 {
        y - 1
    } else {
        y
    };
    let era = y2 / 400;
    let yoe = y2 % 400;
    let mp = if m > 2 {
        m - 3
    } else {
        m + 9
    };
    let doy = (153 * mp + 2) / 5 + d - 1;
    let doe = yoe * 365 + yoe / 4 - yoe / 100 + doy;
    era * 146097 + doe
}

/// Compute the shifted day number of a date.
pub fn days_from_civil(y: u64, m: u64, d: u64) -> (days: u64)
    requires
        1 <= y <= 9999,
        1 <= m <= 12,
        1 <= d <= 31,
    ensures
        days == shifted_day_of_civil(y as int, m as int, d as int),
        days <= 3700000,
{
    let y2: u64 = if m <= 2 {
        y - 1
    } else {
        y
    };
    let era: u64 = y2 / 400;
    let yoe: u64 = y2 % 400;
    let mp: u64 = if m > 2 {
        m - 3
    } else {
        m + 9
    };
    let doy: u64 = (153 * mp + 2) / 5 + d - 1;
    let doe: u64 = yoe * 365 + yoe / 4 - yoe / 100 + doy;
    proof {
        assert(yoe < 400);
        assert(yoe * 365 <= 399 * 365) by (nonlinear_arith)
            requires
                yoe < 400,
        ;
        assert(era <= 24);
        assert(era * 146097 <= 24 * 146097) by (nonlinear_arith)
            requires
                era <= 24,
        ;
    }
    era * 146097 + doe
}

/// The calendar date of a shifted day number.
pub open spec fn civil_of_shifted_day(days: int) -> (int, int, int) {
    let era = days / 146097;
    let doe = days % 146097;
    let yoe = (sub_floor_spec(doe - doe / 1460 + doe / 36524, doe / 146096)) / 365;
    let doy = sub_floor_spec(doe, 365 * yoe + yoe / 4 - yoe / 100);
    let mp = (5 * doy + 2) / 153;
    let d = sub_floor_spec(doy, (153 * mp + 2) / 5) + 1;
    let m = if mp < 10 {
        mp + 3
    } else {
        mp - 9
    };
    let y = yoe + era * 400 + (if m <= 2 {
        1int
    } else {
        0int
    });
    (y, m, d)
}

/// Recover the calendar date from a shifted day number.
pub fn civil_from_days(days: u64) -> (r: (u64, u64, u64))
    requires
        days <= 0x10000000000,
    ensures
        (r.0 as int, r.1 as int, r.2 as int) == civil_of_shifted_day(days as int),
{
    let era: u64 = days / 146097;
    let doe: u64 = days % 146097;
    proof {
        assert(doe < 146097);
        assert(doe / 1460 <= doe) by (nonlinear_arith)
            requires
                doe >= 0,
        ;
        assert(doe / 36524 <= doe) by (nonlinear_arith)
            requires
                doe >= 0,
        ;
    }
    let adj: u64 = doe - doe / 1460 + doe / 36524;
    let yoe: u64 = sub_floor(adj, doe / 146096) / 365;
    proof {
        assert(yoe <= adj);
        assert(sub_floor_spec(adj as int, (doe / 146096) as int) / 365 <= adj) by (nonlinear_arith)
            requires
                adj >= 0,
                sub_floor_spec(adj as int, (doe / 146096) as int) <= adj,
        ;
        assert(yoe < 800);
        assert(yoe * 365 <= 799 * 365) by (nonlinear_arith)
            requires
                yoe < 800,
        ;
    }
    let ydays: u64 = yoe * 365 + yoe / 4 - yoe / 100;
    let doy: u64 = sub_floor(doe, ydays);
    let mp: u64 = (5 * doy + 2) / 153;
    proof {
        assert(doy <= doe);
        assert(5 * doy <= 5 * 146096) by (nonlinear_arith)
            requires
                doy <= 146096,
        ;
        assert(mp <= 5 * doy + 2);
        assert(153 * mp <= 153 * (5 * 146096 + 2)) by (nonlinear_arith)
            requires
                mp <= 5 * 146096 + 2,
        ;
    }
    let d: u64 = sub_floor(doy, (153 * mp + 2) / 5) + 1;
    let m: u64 = if mp < 10 {
        mp + 3
    } else {
        mp - 9
    };
    proof {
        assert(era <= 0x10000000000u64 / 146097);
        assert(era * 400 <= (0x10000000000u64 / 146097) * 400) by (nonlinear_arith)
            requires
                era <= 0x10000000000u64 / 146097,
        ;
    }
    let y: u64 = yoe + era * 400 + (if m <= 2 {
        1
    } else {
        0
    });
    (y, m, d)
}

/// Three-letter English weekday of a shifted day number; day zero
/// (0000-03-01) was a Wednesday.
pub open spec fn weekday_of_shifted_day(days: int) -> Seq<char> {
    let w = days % 7;
    if w == 0 {
        "Wed"@
    } else if w == 1 {
        "Thu"@
    } else if w == 2 {
        "Fri"@
    } else if w == 3 {
        "Sat"@
    } else if w == 4 {
        "Sun"@
    } else if w == 5 {
        "Mon"@
    } else {
        "Tue"@
    }
}

/// The weekday name of a shifted day number.
pub fn weekday_name(days: u64) -> (r: &'static str)
    ensures
        r@ == weekday_of_shifted_day(days as int),
{
    let w = days % 7;
    if w == 0 {
        "Wed"
    } else if w == 1 {
        "Thu"
    } else if w == 2 {
        "Fri"
    } else if w == 3 {
        "Sat"
    } else if w == 4 {
        "Sun"
    } else if w == 5 {
        "Mon"
    } else {
        "Tue"
    }
}

/// Decimal rendering padded with leading zeros to two digits.
pub open spec fn pad2_spec(n: int) -> Seq<char> {
    if n < 10 {
        seq!['0'] + dec_of(n)
    } else {
        dec_of(n)
    }
}

/// Decimal rendering padded with leading zeros to four digits.
pub open spec fn pad4_spec(n: int) -> Seq<char> {
    if n < 10 {
        seq!['0', '0', '0'] + dec_of(n)
    } else if n < 100 {
        seq!['0', '0'] + dec_of(n)
    } else if n < 1000 {
        seq!['0'] + dec_of(n)
    } else {
        dec_of(n)
    }
}

/// Append a zero-padded two-digit number.
pub fn push_pad2(s: &mut String, n: u64)
    ensures
        final(s)@ == old(s)@ + pad2_spec(n as int),
{
    if n < 10 {
        s.push('0');
        push_dec(s, n);
        proof {
            assert(old(s)@ + pad2_spec(n as int) =~= old(s)@.push('0') + dec_of(n as int));
        }
    } else {
        push_dec(s, n);
    }
}

/// Append a zero-padded four-digit number.
pub fn push_pad4(s: &mut String, n: u64)
    ensures
        final(s)@ == old(s)@ + pad4_spec(n as int),
{
    if n < 10 {
        s.push('0');
        s.push('0');
        s.push('0');
        push_dec(s, n);
        proof {
            assert(old(s)@ + pad4_spec(n as int) =~= old(s)@.push('0').push('0').push('0')
                + dec_of(n as int));
        }
    } else if n < 100 {
        s.push('0');
        s.push('0');
        push_dec(s, n);
        proof {
            assert(old(s)@ + pad4_spec(n as int) =~= old(s)@.push('0').push('0') + dec_of(
                n as int));
        }
    } else if n < 1000 {
        s.push('0');
        push_dec(s, n);
        proof {
            assert(old(s)@ + pad4_spec(n as int) =~= old(s)@.push('0') + dec_of(n as int));
        }
    } else {
        push_dec(s, n);
    }
}

/// The text `YYYY-MM-DD HH:MM:SS` of a second count shifted by
/// `EPOCH_SECOND_SHIFT` (so that the count is never negative).
pub open spec fn datetime_text_of_shifted(shifted: int) -> Seq<char> {
    let days = shifted / 86400;
    let sod = shifted % 86400;
    let ymd = civil_of_shifted_day(days);
    pad4_spec(ymd.0) + seq!['-'] + pad2_spec(ymd.1) + seq!['-'] + pad2_spec(ymd.2) + seq![' ']
        + pad2_spec(sod / 3600) + seq![':'] + pad2_spec((sod % 3600) / 60) + seq![':'] + pad2_spec(
        sod % 60)
}

/// The same text with the three-letter weekday in front.
pub open spec fn civil_text_of_shifted(shifted: int) -> Seq<char> {
    weekday_of_shifted_day(shifted / 86400) + seq![' '] + datetime_text_of_shifted(shifted)
}

/// Format `YYYY-MM-DD HH:MM:SS` for a shifted second count.
pub fn format_datetime_shifted(shifted: u64) -> (r: String)
    requires
        shifted <= 0x100000000000000,
    ensures
        r@ == datetime_text_of_shifted(shifted as int),
{
    let days: u64 = shifted / 86400;
    let sod: u64 = shifted % 86400;
    proof {
        assert(days <= 0x10000000000) by (nonlinear_arith)
            requires
                shifted <= 0x100000000000000,
                days == shifted / 86400,
        ;
    }
    let (y, m, d) = civil_from_days(days);
    let mut s = String::new();
    push_pad4(&mut s, y);
    s.push('-');
    push_pad2(&mut s, m);
    s.push('-');
    push_pad2(&mut s, d);
    s.push(' ');
    push_pad2(&mut s, sod / 3600);
    s.push(':');
    push_pad2(&mut s, (sod % 3600) / 60);
    s.push(':');
    push_pad2(&mut s, sod % 60);
    proof {
        assert(Seq::<char>::empty() + pad4_spec(y as int) =~= pad4_spec(y as int));
        assert(s@ =~= datetime_text_of_shifted(shifted as int));
    }
    s
}

/// Format `Www YYYY-MM-DD HH:MM:SS` for a shifted second count.
pub fn format_civil_shifted(shifted: u64) -> (r: String)
    requires
        shifted <= 0x100000000000000,
    ensures
        r@ == civil_text_of_shifted(shifted as int),
{
    let days: u64 = shifted / 86400;
    let sod: u64 = shifted % 86400;
    proof {
        assert(days <= 0x10000000000) by (nonlinear_arith)
            requires
                shifted <= 0x100000000000000,
                days == shifted / 86400,
        ;
    }
    let mut s = String::new();
    s.append(weekday_name(days));
    s.push(' ');
    let rest = format_datetime_shifted(shifted);
    s.append(rest.as_str());
    proof {
        assert(s@ =~= civil_text_of_shifted(shifted as int));
    }
    s
}

/// Nine-digit zero-padded rendering, as used for nanosecond fields.
pub open spec fn pad9_spec(n: int) -> Seq<char> {
    if n < 10 {
        seq!['0', '0', '0', '0', '0', '0', '0', '0'] + dec_of(n)
    } else if n < 100 {
        seq!['0', '0', '0', '0', '0', '0', '0'] + dec_of(n)
    } else if n < 1000 {
        seq!['0', '0', '0', '0', '0', '0'] + dec_of(n)
    } else if n < 10000 {
        seq!['0', '0', '0', '0', '0'] + dec_of(n)
    } else if n < 100000 {
        seq!['0', '0', '0', '0'] + dec_of(n)
    } else if n < 1000000 {
        seq!['0', '0', '0'] + dec_of(n)
    } else if n < 10000000 {
        seq!['0', '0'] + dec_of(n)
    } else if n < 100000000 {
        seq!['0'] + dec_of(n)
    } else {
        dec_of(n)
    }
}

/// Append the given count of '0' characters.
fn push_zeros(s: &mut String, count: u8)
    requires
        count <= 8,
    ensures
        final(s)@ == old(s)@ + Seq::<char>::new(count as nat, |i: int| '0'),
{
    let mut k: u8 = 0;
    let ghost base = s@;
    while k < count
        invariant
            k <= count,
            s@ == base + Seq::<char>::new(k as nat, |i: int| '0'),
        decreases count - k,
    {
        s.push('0');
        proof {
            assert(base + Seq::<char>::new((k + 1) as nat, |i: int| '0') =~= (base
                + Seq::<char>::new(k as nat, |i: int| '0')).push('0'));
        }
        k = k + 1;
    }
}

/// Append a zero-padded nine-digit number.
pub fn push_pad9(s: &mut String, n: u64)
    ensures
        final(s)@ == old(s)@ + pad9_spec(n as int),
{
    let zeros: u8 = if n < 10 {
        8
    } else if n < 100 {
        7
    } else if n < 1000 {
        6
    } else if n < 10000 {
        5
    } else if n < 100000 {
        4
    } else if n < 1000000 {
        3
    } else if n < 10000000 {
        2
    } else if n < 100000000 {
        1
    } else {
        0
    };
    push_zeros(s, zeros);
    push_dec(s, n);
    proof {
        assert(Seq::<char>::new(8nat, |i: int| '0') =~= seq!['0', '0', '0', '0', '0', '0', '0', '0']);
        assert(Seq::<char>::new(7nat, |i: int| '0') =~= seq!['0', '0', '0', '0', '0', '0', '0']);
        assert(Seq::<char>::new(6nat, |i: int| '0') =~= seq!['0', '0', '0', '0', '0', '0']);
        assert(Seq::<char>::new(5nat, |i: int| '0') =~= seq!['0', '0', '0', '0', '0']);
        assert(Seq::<char>::new(4nat, |i: int| '0') =~= seq!['0', '0', '0', '0']);
        assert(Seq::<char>::new(3nat, |i: int| '0') =~= seq!['0', '0', '0']);
        assert(Seq::<char>::new(2nat, |i: int| '0') =~= seq!['0', '0']);
        assert(Seq::<char>::new(1nat, |i: int| '0') =~= seq!['0']);
        assert(Seq::<char>::new(0nat, |i: int| '0') =~= Seq::<char>::empty());
        assert(final(s)@ =~= old(s)@ + pad9_spec(n as int));
    }
}

/// The padded offset text: `UTC   ` for zero, `UTC+8 ` and `UTC-10` for
/// whole hours (single digits keep a trailing space), `UTC+5:30` otherwise.
pub open spec fn utc_offset_text(offset_seconds: int) -> Seq<char> {
    let neg = offset_seconds < 0;
    let abs = if neg {
        -offset_seconds
    } else {
        offset_seconds
    };
    let hours = abs / 3600;
    let minutes = (abs % 3600) / 60;
    if minutes == 0 {
        if hours == 0 {
            "UTC   "@
        } else if !neg {
            if hours < 10 {
                "UTC+"@ + dec_of(hours) + seq![' ']
            } else {
                "UTC+"@ + dec_of(hours)
            }
        } else {
            if hours < 10 {
                "UTC-"@ + dec_of(hours) + seq![' ']
            } else {
                "UTC-"@ + dec_of(hours)
            }
        }
    } else {
        if !neg {
            "UTC+"@ + dec_of(hours) + seq![':'] + pad2_spec(minutes)
        } else {
            "UTC-"@ + dec_of(hours) + seq![':'] + pad2_spec(minutes)
        }
    }
}

/// Format a UTC offset with the fixed-width padding the writers use.
pub fn format_utc_offset(offset_seconds: i64) -> (r: String)
    requires
        -86400 <= offset_seconds <= 86400,
    ensures
        r@ == utc_offset_text(offset_seconds as int),
{
    let neg = offset_seconds < 0;
    let abs: u64 = if neg {
        (-offset_seconds) as u64
    } else {
        offset_seconds as u64
    };
    let hours: u64 = abs / 3600;
    let minutes: u64 = (abs % 3600) / 60;
    let mut s = String::new();
    if minutes == 0 {
        if hours == 0 {
            s.append("UTC   ");
            proof {
                assert(Seq::<char>::empty() + "UTC   "@ =~= "UTC   "@);
            }
        } else {
            if !neg {
                s.append("UTC+");
            } else {
                s.append("UTC-");
            }
            push_dec(&mut s, hours);
            if hours < 10 {
                s.push(' ');
            }
            proof {
                assert(s@ =~= utc_offset_text(offset_seconds as int));
            }
        }
    } else {
        if !neg {
            s.append("UTC+");
        } else {
            s.append("UTC-");
        }
        push_dec(&mut s, hours);
        s.push(':');
        push_pad2(&mut s, minutes);
        proof {
            assert(s@ =~= utc_offset_text(offset_seconds as int));
        }
    }
    s
}

/// Ticks shifted into a timezone and onto the internal day origin.
pub open spec fn shifted_secs_of(ticks: u64, offset_seconds: int) -> int {
    ticks as int / 10000000 + offset_seconds + EPOCH_SECOND_SHIFT
}

/// Move an instant into a timezone: the second count, shifted so that it
/// stays non-negative, on which the calendar formatters run.
pub fn convert_to_timezone(ticks: u64, offset_seconds: i64) -> (r: u64)
    requires
        -86400 <= offset_seconds <= 86400,
    ensures
        r == shifted_secs_of(ticks, offset_seconds as int),
        r <= 0x100000000000000,
{
    let secs: u64 = ticks / 10000000;
    proof {
        assert(secs <= u64::MAX / 10000000) by (nonlinear_arith)
            requires
                secs == ticks / 10000000,
        ;
    }
    if offset_seconds < 0 {
        let down = (-offset_seconds) as u64;
        let shifted = secs + EPOCH_SECOND_SHIFT;
        shifted - down
    } else {
        secs + (offset_seconds as u64) + EPOCH_SECOND_SHIFT
    }
}

/// The text of an instant in the human format:
/// `Www YYYY-MM-DD HH:MM:SS.fffffffff UTC+N`.
pub open spec fn human_text_of(ticks: u64, offset_seconds: int) -> Seq<char> {
    civil_text_of_shifted(shifted_secs_of(ticks, offset_seconds)) + seq!['.'] + pad9_spec(
        (ticks as int % 10000000) * 100) + seq![' '] + utc_offset_text(offset_seconds)
}

/// Format a timestamp for human-readable output, weekday first and the
/// nanosecond field always shown.
pub fn format_timestamp_human(ticks: u64, offset_seconds: i64) -> (r: String)
    requires
        -86400 <= offset_seconds <= 86400,
    ensures
        r@ == human_text_of(ticks, offset_seconds as int),
{
    let shifted = convert_to_timezone(ticks, offset_seconds);
    let mut s = format_civil_shifted(shifted);
    s.push('.');
    push_pad9(&mut s, (ticks % 10000000) * 100);
    s.push(' ');
    let off = format_utc_offset(offset_seconds);
    s.append(off.as_str());
    proof {
        assert(s@ =~= human_text_of(ticks, offset_seconds as int));
    }
    s
}

/// The text of an instant in the full-precision format (no weekday):
/// `YYYY-MM-DD HH:MM:SS.fffffffff UTC+N`.
pub open spec fn full_precision_text_of(ticks: u64, offset_seconds: int) -> Seq<char> {
    datetime_text_of_shifted(shifted_secs_of(ticks, offset_seconds)) + seq!['.'] + pad9_spec(
        (ticks as int % 10000000) * 100) + seq![' '] + utc_offset_text(offset_seconds)
}

/// Format a timestamp with full precision, always showing nanoseconds.
pub fn format_timestamp_full_precision(ticks: u64, offset_seconds: i64) -> (r: String)
    requires
        -86400 <= offset_seconds <= 86400,
    ensures
        r@ == full_precision_text_of(ticks, offset_seconds as int),
{
    let shifted = convert_to_timezone(ticks, offset_seconds);
    let mut s = format_datetime_shifted(shifted);
    s.push('.');
    push_pad9(&mut s, (ticks % 10000000) * 100);
    s.push(' ');
    let off = format_utc_offset(offset_seconds);
    s.append(off.as_str());
    proof {
        assert(s@ =~= full_precision_text_of(ticks, offset_seconds as int));
    }
    s
}

/// Is every byte of the sequence an ASCII digit?
pub open spec fn all_digits(s: Seq<u8>) -> bool {
    forall|i: int| 0 <= i < s.len() ==> 48 <= #[trigger] s[i] <= 57
}

/// The non-negative integer a digit sequence denotes.
pub open spec fn digits_val(s: Seq<u8>) -> int
    decreases s.len(),
{
    if s.len() == 0 {
        0
    } else {
        digits_val(s.drop_last()) * 10 + (s.last() - 48)
    }
}

/// A signed integer parsed from bytes: an optional `+` or `-` sign and
/// between one and seven digits; anything else denotes nothing.
pub open spec fn parse_int_spec(s: Seq<u8>) -> Option<int> {
    let (sign, rest) = if s.len() > 0 && s[0] == 43 {
        (1int, s.skip(1))
    } else if s.len() > 0 && s[0] == 45 {
        (-1int, s.skip(1))
    } else {
        (1int, s)
    };
    if 1 <= rest.len() <= 7 && all_digits(rest) {
        Some(sign * digits_val(rest))
    } else {
        None
    }
}

/// Parse digit bytes into their value.
fn parse_digits(s: &[u8], start: usize) -> (r: Option<u64>)
    requires
        start <= s@.len(),
    ensures
        match r {
            Some(v) => 1 <= s@.len() - start <= 7 && all_digits(s@.skip(start as int)) && v
                == digits_val(s@.skip(start as int)),
            None => !(1 <= s@.len() - start <= 7 && all_digits(s@.skip(start as int))),
        },
{
    let len = s.len();
    if len - start < 1 || len - start > 7 {
        return None;
    }
    let mut v: u64 = 0;
    let mut i: usize = start;
    while i < len
        invariant
            start <= i <= len,
            len == s@.len(),
            1 <= len - start <= 7,
            all_digits(s@.subrange(start as int, i as int)),
            v == digits_val(s@.subrange(start as int, i as int)),
            v < 10000000,
        decreases len - i,
    {
        let b = s[i];
        if b < 48 || b > 57 {
            proof {
                assert(s@.skip(start as int)[i - start] == s@[i as int]);
            }
            return None;
        }
        v = v * 10 + ((b - 48) as u64);
        proof {
            assert(s@.subrange(start as int, i + 1).drop_last() =~= s@.subrange(
                start as int, i as int));
            assert(s@.subrange(start as int, i + 1).last() == s@[i as int]);
            assert(v < 10000000) by {
                assert(s@.subrange(start as int, i + 1).len() <= 7);
                lemma_digits_val_bound(s@.subrange(start as int, i + 1));
            }
        }
        i = i + 1;
    }
    proof {
        assert(s@.subrange(start as int, len as int) =~= s@.skip(start as int));
    }
    Some(v)
}

/// Powers of ten.
pub open spec fn p10(n: nat) -> int
    decreases n,
{
    if n == 0 {
        1
    } else {
        10 * p10((n - 1) as nat)
    }
}

/// A digit string of length at most 7 denotes a value below ten million.
proof fn lemma_digits_val_bound(s: Seq<u8>)
    requires
        all_digits(s),
        s.len() <= 7,
    ensures
        0 <= digits_val(s) < p10(s.len()),
        digits_val(s) < 10000000,
    decreases s.len(),
{
    reveal_with_fuel(p10, 8);
    if s.len() > 0 {
        assert(all_digits(s.drop_last())) by {
            assert(forall|i: int| 0 <= i < s.len() - 1 ==> s.drop_last()[i] == #[trigger] s[i]);
        }
        lemma_digits_val_bound(s.drop_last());
        assert(digits_val(s.drop_last()) * 10 + 9 < p10((s.len() - 1) as nat) * 10)
            by (nonlinear_arith)
            requires
                digits_val(s.drop_last()) < p10((s.len() - 1) as nat),
        ;
    }
}

/// Parse a signed integer from bytes.
fn parse_int_bytes(s: &[u8]) -> (r: Option<i64>)
    ensures
        r matches Some(v) ==> parse_int_spec(s@) == Some(v as int),
        r is None ==> parse_int_spec(s@) is None,
{
    if s.len() > 0 && (s[0] == 43 || s[0] == 45) {
        let negative = s[0] == 45;
        match parse_digits(s, 1) {
            Some(v) => {
                proof {
                    lemma_digits_val_bound(s@.skip(1));
                    if negative {
                        assert(parse_int_spec(s@) == Some(-1 * digits_val(s@.skip(1))));
                    } else {
                        assert(parse_int_spec(s@) == Some(1 * digits_val(s@.skip(1))));
                    }
                }
                if negative {
                    let w: i64 = -(v as i64);
                    proof {
                        assert(w as int == -1 * digits_val(s@.skip(1)));
                        assert(parse_int_spec(s@) == Some(w as int));
                    }
                    Some(w)
                } else {
                    proof {
                        assert((v as i64) as int == 1 * digits_val(s@.skip(1)));
                        assert(parse_int_spec(s@) == Some((v as i64) as int));
                    }
                    Some(v as i64)
                }
            },
            None => {
                proof {
                    assert(parse_int_spec(s@) is None);
                }
                None
            },
        }
    } else {
        match parse_digits(s, 0) {
            Some(v) => {
                proof {
                    assert(s@.skip(0) =~= s@);
                    lemma_digits_val_bound(s@);
                    assert(parse_int_spec(s@) == Some(1 * digits_val(s@)));
                    assert(parse_int_spec(s@) == Some((v as i64) as int));
                }
                Some(v as i64)
            },
            None => None,
        }
    }
}

/// Is this whole-hour offset one the library supports?
pub open spec fn supported_offset(h: int) -> bool {
    (0 <= h <= 10) || h == -5 || h == -6 || h == -7 || h == -8 || h == -10
}

/// The offset, in hours, that a timezone string names: `UTC` and `UTC+0`
/// name zero, `UTC+8` and `UTC-5` name whole hours from the supported set,
/// and everything else names nothing.
pub open spec fn timezone_offset_spec(bytes: Seq<u8>) -> Option<int> {
    if !(bytes.len() >= 3 && bytes[0] == 85 && bytes[1] == 84 && bytes[2] == 67) {
        None
    } else if bytes.len() == 3 {
        Some(0)
    } else {
        match parse_int_spec(bytes.skip(3)) {
            Some(h) => if supported_offset(h) {
                Some(h)
            } else {
                None
            },
            None => None,
        }
    }
}

/// Parse a timezone given as `UTC` or a whole-hour offset such as `UTC+8`.
/// Returns the offset in hours; unsupported or unparseable offsets are
/// rejected as invalid input.
pub fn parse_timezone(timezone_str: &str) -> (r: Result<i64, Error>)
    ensures
        match r {
            Ok(h) => timezone_offset_spec(timezone_str.spec_bytes()) == Some(h as int),
            Err(e) => timezone_offset_spec(timezone_str.spec_bytes()) is None && e
                is InvalidInput,
        },
{
    let b = timezone_str.as_bytes();
    if !(b.len() >= 3 && b[0] == 85 && b[1] == 84 && b[2] == 67) {
        return Err(Error::InvalidInput(String::from_str(
            "Invalid timezone. Use 'UTC' or UTC offset notation like 'UTC+8'",
        )));
    }
    if b.len() == 3 {
        return Ok(0);
    }
    let rest = slice_tail(b, 3);
    match parse_int_bytes(rest) {
        Some(h) => {
            if (0 <= h && h <= 10) || h == -5 || h == -6 || h == -7 || h == -8 || h == -10 {
                Ok(h)
            } else {
                Err(Error::InvalidInput(String::from_str(
                    "Unsupported UTC offset. Supported: UTC+8, UTC-5, etc.",
                )))
            }
        },
        None => Err(Error::InvalidInput(String::from_str(
            "Invalid UTC offset. Use format like 'UTC+8' or 'UTC-5'",
        ))),
    }
}

/// A leap year in the Gregorian calendar.
pub open spec fn is_leap_year(y: int) -> bool {
    y % 4 == 0 && (y % 100 != 0 || y % 400 == 0)
}

/// The number of days in a month.
pub open spec fn days_in_month(y: int, m: int) -> int {
    if m == 1 || m == 3 || m == 5 || m == 7 || m == 8 || m == 10 || m == 12 {
        31
    } else if m == 4 || m == 6 || m == 9 || m == 11 {
        30
    } else if is_leap_year(y) {
        29
    } else {
        28
    }
}

/// A calendar date the date filters accept: from 1970 up to year 9999.
pub open spec fn valid_filter_date(y: int, m: int, d: int) -> bool {
    1970 <= y <= 9999 && 1 <= m <= 12 && 1 <= d <= days_in_month(y, m)
}

/// The value of two digit bytes starting at `i`.
pub open spec fn num2_at(b: Seq<u8>, i: int) -> int {
    (b[i] - 48) * 10 + (b[i + 1] - 48)
}

/// The value of four digit bytes starting at `i`.
pub open spec fn num4_at(b: Seq<u8>, i: int) -> int {
    (b[i] - 48) * 1000 + (b[i + 1] - 48) * 100 + (b[i + 2] - 48) * 10 + (b[i + 3] - 48)
}

/// Is this byte an ASCII digit?
pub open spec fn is_dig(x: u8) -> bool {
    48 <= x <= 57
}

/// The bytes have the shape `YYYY-MM-DD`.
pub open spec fn date_shape(b: Seq<u8>) -> bool {
    b.len() == 10 && b[4] == 45 && b[7] == 45 && is_dig(b[0]) && is_dig(b[1]) && is_dig(b[2])
        && is_dig(b[3]) && is_dig(b[5]) && is_dig(b[6]) && is_dig(b[8]) && is_dig(b[9])
}

/// The bytes have the shape `YYYY-MM-DD HH:MM:SS`.
pub open spec fn datetime_shape(b: Seq<u8>) -> bool {
    b.len() == 19 && b[4] == 45 && b[7] == 45 && b[10] == 32 && b[13] == 58 && b[16] == 58
        && is_dig(b[0]) && is_dig(b[1]) && is_dig(b[2]) && is_dig(b[3]) && is_dig(b[5]) && is_dig(
        b[6]) && is_dig(b[8]) && is_dig(b[9]) && is_dig(b[11]) && is_dig(b[12]) && is_dig(b[14])
        && is_dig(b[15]) && is_dig(b[17]) && is_dig(b[18])
}

/// Ticks since the Unix epoch of a calendar date and time of day.
pub open spec fn ticks_of_civil(y: int, m: int, d: int, h: int, mi: int, s: int) -> int {
    (sub_floor_spec(shifted_day_of_civil(y, m, d), EPOCH_DAY_SHIFT as int) * 86400 + h * 3600 + mi
        * 60 + s) * 10000000
}

/// The instant a date-filter string denotes: midnight of a `YYYY-MM-DD`
/// date, or the exact second of a `YYYY-MM-DD HH:MM:SS` date-time; strings
/// of any other shape, and invalid calendar dates, denote nothing.
pub open spec fn parse_date_spec(b: Seq<u8>) -> Option<int> {
    if date_shape(b) {
        let y = num4_at(b, 0);
        let m = num2_at(b, 5);
        let d = num2_at(b, 8);
        if valid_filter_date(y, m, d) {
            Some(ticks_of_civil(y, m, d, 0, 0, 0))
        } else {
            None
        }
    } else if datetime_shape(b) {
        let y = num4_at(b, 0);
        let m = num2_at(b, 5);
        let d = num2_at(b, 8);
        let h = num2_at(b, 11);
        let mi = num2_at(b, 14);
        let s = num2_at(b, 17);
        if valid_filter_date(y, m, d) && 0 <= h < 24 && 0 <= mi < 60 && 0 <= s < 60 {
            Some(ticks_of_civil(y, m, d, h, mi, s))
        } else {
            None
        }
    } else {
        None
    }
}

/// Read one digit byte.
fn dig(b: &[u8], i: usize) -> (r: Option<u64>)
    requires
        i < b@.len(),
    ensures
        match r {
            Some(v) => 48 <= b@[i as int] <= 57 && v == b@[i as int] - 48,
            None => !(48 <= b@[i as int] <= 57),
        },
{
    let x = b[i];
    if 48 <= x && x <= 57 {
        Some((x - 48) as u64)
    } else {
        None
    }
}

/// Read two digit bytes.
fn num2(b: &[u8], i: usize) -> (r: Option<u64>)
    requires
        i + 1 < b@.len(),
    ensures
        match r {
            Some(v) => is_dig(b@[i as int]) && is_dig(b@[i + 1]) && v == num2_at(b@, i as int),
            None => !(is_dig(b@[i as int]) && is_dig(b@[i + 1])),
        },
{
    let l = b.len();
    proof {
        assert(i + 1 < l);
    }
    let d0 = dig(b, i);
    let d1 = dig(b, i + 1);
    match (d0, d1) {
        (Some(a), Some(c)) => Some(a * 10 + c),
        _ => None,
    }
}

/// Read four digit bytes.
fn num4(b: &[u8], i: usize) -> (r: Option<u64>)
    requires
        i + 3 < b@.len(),
    ensures
        match r {
            Some(v) => is_dig(b@[i as int]) && is_dig(b@[i + 1]) && is_dig(b@[i + 2]) && is_dig(
                b@[i + 3]) && v == num4_at(b@, i as int),
            None => !(is_dig(b@[i as int]) && is_dig(b@[i + 1]) && is_dig(b@[i + 2]) && is_dig(
                b@[i + 3])),
        },
{
    let l = b.len();
    proof {
        assert(i + 3 < l);
    }
    let d0 = dig(b, i);
    let d1 = dig(b, i + 1);
    let d2 = dig(b, i + 2);
    let d3 = dig(b, i + 3);
    match (d0, d1, d2, d3) {
        (Some(a), Some(c), Some(e), Some(f)) => Some(a * 1000 + c * 100 + e * 10 + f),
        _ => None,
    }
}

/// The number of days in a month, as executable code.
fn days_in_month_exec(y: u64, m: u64) -> (r: u64)
    requires
        1 <= m <= 12,
    ensures
        r == days_in_month(y as int, m as int),
        28 <= r <= 31,
{
    if m == 1 || m == 3 || m == 5 || m == 7 || m == 8 || m == 10 || m == 12 {
        31
    } else if m == 4 || m == 6 || m == 9 || m == 11 {
        30
    } else if y % 4 == 0 && (y % 100 != 0 || y % 400 == 0) {
        29
    } else {
        28
    }
}

/// Ticks of a validated civil date and time.
fn ticks_from_fields(y: u64, m: u64, d: u64, h: u64, mi: u64, s: u64) -> (r: u64)
    requires
        1970 <= y <= 9999,
        1 <= m <= 12,
        1 <= d <= 31,
        h < 24,
        mi < 60,
        s < 60,
    ensures
        r == ticks_of_civil(y as int, m as int, d as int, h as int, mi as int, s as int),
{
    let day = days_from_civil(y, m, d);
    let rel = sub_floor(day, EPOCH_DAY_SHIFT);
    proof {
        assert(rel <= 3800000);
        assert(rel * 86400 <= 3800000 * 86400) by (nonlinear_arith)
            requires
                rel <= 3800000,
        ;
    }
    let secs = rel * 86400 + h * 3600 + mi * 60 + s;
    proof {
        assert(secs * 10000000 <= 328406400000 * 10000000) by (nonlinear_arith)
            requires
                secs <= 328406400000,
        ;
    }
    secs * 10000000
}

/// Parse a date filter given as `YYYY-MM-DD` or `YYYY-MM-DD HH:MM:SS`,
/// interpreted as UTC. Returns ticks since the Unix epoch.
pub fn parse_date_filter(date_str: &str) -> (r: Result<u64, Error>)
    ensures
        r matches Ok(t) ==> parse_date_spec(date_str.spec_bytes()) == Some(t as int),
        r is Err ==> parse_date_spec(date_str.spec_bytes()) is None && (r matches Err(e) ==> e
            is InvalidInput),
{
    let b = date_str.as_bytes();
    let invalid = || -> (e: Error)
        ensures
            e is InvalidInput,
        {
            Error::InvalidInput(String::from_str(
                "Invalid date format. Use YYYY-MM-DD or YYYY-MM-DD HH:MM:SS",
            ))
        };
    if b.len() != 10 && b.len() != 19 {
        return Err(invalid());
    }
    if !(b[4] == 45 && b[7] == 45) {
        return Err(invalid());
    }
    let (y, m, d) = match (num4(b, 0), num2(b, 5), num2(b, 8)) {
        (Some(y), Some(m), Some(d)) => (y, m, d),
        _ => {
            return Err(invalid());
        },
    };
    if !(1970 <= y && y <= 9999 && 1 <= m && m <= 12 && 1 <= d) {
        return Err(invalid());
    }
    if d > days_in_month_exec(y, m) {
        return Err(invalid());
    }
    if b.len() == 10 {
        proof {
            assert(date_shape(b@));
        }
        Ok(ticks_from_fields(y, m, d, 0, 0, 0))
    } else {
        if !(b[10] == 32 && b[13] == 58 && b[16] == 58) {
            return Err(invalid());
        }
        let (h, mi, s) = match (num2(b, 11), num2(b, 14), num2(b, 17)) {
            (Some(h), Some(mi), Some(s)) => (h, mi, s),
            _ => {
                return Err(invalid());
            },
        };
        if !(h < 24 && mi < 60 && s < 60) {
            return Err(invalid());
        }
        proof {
            assert(datetime_shape(b@));
        }
        Ok(ticks_from_fields(y, m, d, h, mi, s))
    }
}

/// The tail of a slice from the given start.
fn slice_tail(s: &[u8], start: usize) -> (r: &[u8])
    requires
        start <= s@.len(),
    ensures
        r@ == s@.skip(start as int),
{
    let r = vstd::slice::slice_subrange(s, start, s.len());
    proof {
        assert(s@.subrange(start as int, s@.len() as int) =~= s@.skip(start as int));
    }
    r
}

} // verus!
