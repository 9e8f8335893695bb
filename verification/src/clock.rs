//! Conversion of unix timestamps to civil UTC date-times and their ISO-8601
//! rendering. The store records every timestamp in this representation; a
//! timestamp outside the representable range is rejected, never converted.

use vstd::prelude::*;
use vstd::arithmetic::div_mod::lemma_fundamental_div_mod;
use crate::errors::FeedError;
use crate::text::dec_digits;
use crate::text::two_digits;
use crate::text::fmt_u64;
use crate::text::fmt_two;

verus! {

/// The last representable instant: 9999-12-31T23:59:59 UTC.
pub const TS_MAX: i64 = 253402300799;

/// The instants the store can represent: from the unix epoch to the end of
/// year 9999.
pub open spec fn valid_ts(t: int) -> bool {
    0 <= t <= TS_MAX
}

/// Gregorian leap year rule.
pub open spec fn is_leap(y: int) -> bool {
    (y % 4 == 0 && y % 100 != 0) || y % 400 == 0
}

pub open spec fn days_in_year(y: int) -> int {
    if is_leap(y) {
        366
    } else {
        365
    }
}

/// Days in month `m` (1 = January .. 12 = December) of a year with the given
/// leap status.
pub open spec fn days_in_month(m: int, leap: bool) -> int {
    if m == 1 {
        31
    } else if m == 2 {
        if leap {
            29
        } else {
            28
        }
    } else if m == 3 {
        31
    } else if m == 4 {
        30
    } else if m == 5 {
        31
    } else if m == 6 {
        30
    } else if m == 7 {
        31
    } else if m == 8 {
        31
    } else if m == 9 {
        30
    } else if m == 10 {
        31
    } else if m == 11 {
        30
    } else {
        31
    }
}

/// Days from 1970-01-01 to the first day of year `y`.
pub open spec fn days_before_year(y: int) -> int
    decreases y when y >= 1970
{
    if y <= 1970 {
        0
    } else {
        days_before_year(y - 1) + days_in_year(y - 1)
    }
}

/// Days from the first of January to the first day of month `m`.
pub open spec fn days_before_month(m: int, leap: bool) -> int
    decreases m when m >= 1
{
    if m <= 1 {
        0
    } else {
        days_before_month(m - 1, leap) + days_in_month(m - 1, leap)
    }
}

/// Starting at year `y` with `z` whole days left, consume whole years until
/// fewer than a year of days remains: the result is the year reached and the
/// day offset inside it.
pub open spec fn year_split(y: int, z: int) -> (int, int)
    decreases z when 0 <= z && 1970 <= y
{
    if z < days_in_year(y) {
        (y, z)
    } else {
        year_split(y + 1, z - days_in_year(y))
    }
}

/// Starting at month `m` with `z` days left inside the year, consume whole
/// months until fewer than a month of days remains.
pub open spec fn month_split(m: int, z: int, leap: bool) -> (int, int)
    decreases z when 0 <= z && 1 <= m
{
    if z < days_in_month(m, leap) {
        (m, z)
    } else {
        month_split(m + 1, z - days_in_month(m, leap), leap)
    }
}

pub open spec fn year_of(t: int) -> int {
    year_split(1970, t / 86400).0
}

pub open spec fn day_of_year(t: int) -> int {
    year_split(1970, t / 86400).1
}

pub open spec fn month_of(t: int) -> int {
    month_split(1, day_of_year(t), is_leap(year_of(t))).0
}

pub open spec fn day_of(t: int) -> int {
    month_split(1, day_of_year(t), is_leap(year_of(t))).1 + 1
}

pub open spec fn hour_of(t: int) -> int {
    (t % 86400) / 3600
}

pub open spec fn minute_of(t: int) -> int {
    (t % 86400 - 3600 * hour_of(t)) / 60
}

pub open spec fn second_of(t: int) -> int {
    t % 86400 - 3600 * hour_of(t) - 60 * minute_of(t)
}

/// A civil UTC date-time, the value the store's timestamp column carries.
#[derive(Clone, Copy, Debug, PartialEq, Eq, Structural)]
pub struct UtcDateTime {
    pub year: i64,
    pub month: i64,
    pub day: i64,
    pub hour: i64,
    pub minute: i64,
    pub second: i64,
}

/// The fields form a real calendar date and clock time (years before 1970 are
/// out of range for this pipeline).
pub open spec fn valid_civil(dt: UtcDateTime) -> bool {
    &&& 1970 <= dt.year
    &&& 1 <= dt.month <= 12
    &&& 1 <= dt.day <= days_in_month(dt.month as int, is_leap(dt.year as int))
    &&& 0 <= dt.hour < 24
    &&& 0 <= dt.minute < 60
    &&& 0 <= dt.second < 60
}

/// The unix timestamp a civil date-time denotes.
pub open spec fn unix_of(dt: UtcDateTime) -> int {
    86400 * (days_before_year(dt.year as int) + days_before_month(
        dt.month as int,
        is_leap(dt.year as int),
    ) + dt.day - 1) + 3600 * dt.hour + 60 * dt.minute + dt.second
}

/// `YYYY-MM-DDTHH:MM:SS+00:00` as ASCII bytes.
pub open spec fn iso_bytes(dt: UtcDateTime) -> Seq<u8> {
    dec_digits(dt.year as nat) + seq![45u8] + two_digits(dt.month as int) + seq![45u8]
        + two_digits(dt.day as int) + seq![84u8] + two_digits(dt.hour as int) + seq![58u8]
        + two_digits(dt.minute as int) + seq![58u8] + two_digits(dt.second as int) + seq![
        43u8,
        48u8,
        48u8,
        58u8,
        48u8,
        48u8,
    ]
}

/// The ISO rendering of a valid timestamp.
pub open spec fn iso_of(t: int) -> Seq<u8> {
    iso_bytes(
        UtcDateTime {
            year: year_of(t) as i64,
            month: month_of(t) as i64,
            day: day_of(t) as i64,
            hour: hour_of(t) as i64,
            minute: minute_of(t) as i64,
            second: second_of(t) as i64,
        },
    )
}

proof fn lemma_year_split_inverse(y: int, z: int)
    requires
        1970 <= y,
        0 <= z,
    ensures
        y <= year_split(y, z).0,
        0 <= year_split(y, z).1 < days_in_year(year_split(y, z).0),
        days_before_year(year_split(y, z).0) - days_before_year(y) + year_split(y, z).1 == z,
    decreases z,
{
    if z < days_in_year(y) {
    } else {
        lemma_year_split_inverse(y + 1, z - days_in_year(y));
    }
}

proof fn lemma_month_split_inverse(m: int, z: int, leap: bool)
    requires
        1 <= m,
        0 <= z,
    ensures
        m <= month_split(m, z, leap).0,
        0 <= month_split(m, z, leap).1 < days_in_month(month_split(m, z, leap).0, leap),
        days_before_month(month_split(m, z, leap).0, leap) - days_before_month(m, leap)
            + month_split(m, z, leap).1 == z,
    decreases z,
{
    if z < days_in_month(m, leap) {
    } else {
        lemma_month_split_inverse(m + 1, z - days_in_month(m, leap), leap);
    }
}

/// The twelve months of a year account for exactly its days.
proof fn lemma_months_total(leap: bool)
    ensures
        days_before_month(13, leap) == if leap {
            366int
        } else {
            365int
        },
{
    reveal_with_fuel(days_before_month, 14);
}

/// If fewer days remain than the year holds, the month reached is a real one.
proof fn lemma_month_split_in_year(z: int, leap: bool)
    requires
        0 <= z,
        z < if leap {
            366int
        } else {
            365int
        },
    ensures
        1 <= month_split(1, z, leap).0 <= 12,
    decreases z,
{
    lemma_months_total(leap);
    lemma_month_split_helper(1, z, leap);
}

proof fn lemma_month_split_helper(m: int, z: int, leap: bool)
    requires
        1 <= m <= 12,
        0 <= z,
        days_before_month(m, leap) + z < days_before_month(13, leap),
    ensures
        m <= month_split(m, z, leap).0 <= 12,
    decreases z,
{
    if z < days_in_month(m, leap) {
    } else {
        assert(m < 12) by {
            if m == 12 {
                assert(days_before_month(13, leap) == days_before_month(12, leap) + days_in_month(
                    12,
                    leap,
                ));
            }
        }
        lemma_month_split_helper(m + 1, z - days_in_month(m, leap), leap);
    }
}

fn leap_year(y: i64) -> (r: bool)
    requires
        0 <= y,
    ensures
        r == is_leap(y as int),
{
    (y % 4 == 0 && y % 100 != 0) || y % 400 == 0
}

fn year_len(y: i64) -> (r: i64)
    requires
        0 <= y,
    ensures
        r == days_in_year(y as int),
{
    if leap_year(y) {
        366
    } else {
        365
    }
}

fn month_len(m: i64, leap: bool) -> (r: i64)
    ensures
        r == days_in_month(m as int, leap),
{
    if m == 2 {
        if leap {
            29
        } else {
            28
        }
    } else if m == 4 || m == 6 || m == 9 || m == 11 {
        30
    } else {
        31
    }
}

/// Splits a representable timestamp into its civil UTC fields. Returns
/// `InvalidTimestamp` exactly on the instants outside the representable
/// range; the fields returned denote `t` itself.
pub fn utc_from_unix(t: i64) -> (r: Result<UtcDateTime, FeedError>)
    ensures
        r is Ok <==> valid_ts(t as int),
        r is Err ==> r == Err::<UtcDateTime, FeedError>(FeedError::InvalidTimestamp),
        r matches Ok(dt) ==> {
            &&& dt.year == year_of(t as int)
            &&& dt.month == month_of(t as int)
            &&& dt.day == day_of(t as int)
            &&& dt.hour == hour_of(t as int)
            &&& dt.minute == minute_of(t as int)
            &&& dt.second == second_of(t as int)
            &&& valid_civil(dt)
            &&& unix_of(dt) == t
        },
{
    if t < 0 || t > TS_MAX {
        return Err(FeedError::InvalidTimestamp);
    }
    let z0: i64 = t / 86400;
    let secs: i64 = t % 86400;
    proof {
        lemma_fundamental_div_mod(t as int, 86400);
    }
    let mut year: i64 = 1970;
    let mut rem: i64 = z0;
    while rem >= year_len(year)
        invariant
            1970 <= year <= 1970 + z0 - rem,
            0 <= rem <= z0 <= TS_MAX / 86400,
            year_split(1970, z0 as int) == year_split(year as int, rem as int),
        decreases rem,
    {
        let step: i64 = year_len(year);
        rem = rem - step;
        year = year + 1;
    }
    proof {
        assert(year_split(year as int, rem as int) == (year as int, rem as int));
        lemma_year_split_inverse(1970, z0 as int);
    }
    let leap = leap_year(year);
    let z1: i64 = rem;
    let mut month: i64 = 1;
    let mut mrem: i64 = rem;
    proof {
        lemma_months_total(leap);
        lemma_month_split_in_year(z1 as int, leap);
    }
    while mrem >= month_len(month, leap)
        invariant
            1 <= month <= 12,
            0 <= mrem <= z1,
            0 <= z1 < days_in_year(year as int),
            leap == is_leap(year as int),
            days_before_month(month as int, leap) + mrem == z1,
            month_split(1, z1 as int, leap) == month_split(month as int, mrem as int, leap),
        decreases mrem,
    {
        proof {
            lemma_months_total(leap);
            if month == 12 {
                assert(days_before_month(13, leap) == days_before_month(12, leap) + days_in_month(
                    12,
                    leap,
                ));
            }
        }
        let step: i64 = month_len(month, leap);
        mrem = mrem - step;
        month = month + 1;
    }
    proof {
        assert(month_split(month as int, mrem as int, leap) == (month as int, mrem as int));
        lemma_month_split_inverse(1, z1 as int, leap);
    }
    let day: i64 = mrem + 1;
    let hour: i64 = secs / 3600;
    proof {
        lemma_fundamental_div_mod(secs as int, 3600);
    }
    let hrem: i64 = secs - hour * 3600;
    let minute: i64 = hrem / 60;
    proof {
        lemma_fundamental_div_mod(hrem as int, 60);
    }
    let second: i64 = hrem - minute * 60;
    let dt = UtcDateTime { year, month, day, hour, minute, second };
    proof {
        assert(days_before_year(year as int) + rem == z0);
        assert(unix_of(dt) == t);
    }
    Ok(dt)
}

/// Renders a civil date-time in the `YYYY-MM-DDTHH:MM:SS+00:00` shape.
pub fn render_iso(dt: &UtcDateTime) -> (r: Vec<u8>)
    requires
        0 <= dt.year,
        0 <= dt.month < 100,
        0 <= dt.day < 100,
        0 <= dt.hour < 100,
        0 <= dt.minute < 100,
        0 <= dt.second < 100,
    ensures
        r@ == iso_bytes(*dt),
{
    let mut v = fmt_u64(dt.year as u64);
    v.push(45);
    let mut part = fmt_two(dt.month as u64);
    v.append(&mut part);
    v.push(45);
    let mut part = fmt_two(dt.day as u64);
    v.append(&mut part);
    v.push(84);
    let mut part = fmt_two(dt.hour as u64);
    v.append(&mut part);
    v.push(58);
    let mut part = fmt_two(dt.minute as u64);
    v.append(&mut part);
    v.push(58);
    let mut part = fmt_two(dt.second as u64);
    v.append(&mut part);
    v.push(43);
    v.push(48);
    v.push(48);
    v.push(58);
    v.push(48);
    v.push(48);
    proof {
        assert(v@ =~= iso_bytes(*dt));
    }
    v
}

/// The ISO-8601 rendering of `t`, or `InvalidTimestamp` exactly when `t` is
/// outside the representable range.
pub fn format_timestamp(t: i64) -> (r: Result<Vec<u8>, FeedError>)
    ensures
        r is Ok <==> valid_ts(t as int),
        r is Err ==> r == Err::<Vec<u8>, FeedError>(FeedError::InvalidTimestamp),
        r matches Ok(v) ==> v@ == iso_of(t as int),
{
    match utc_from_unix(t) {
        Ok(dt) => Ok(render_iso(&dt)),
        Err(e) => Err(e),
    }
}

} // verus!
