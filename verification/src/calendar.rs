//! The Gregorian calendar: the date a number of days after 1970-01-01,
//! stated day by day, and the closed formula that computes it.

use vstd::prelude::*;

verus! {

/// A leap year of the proleptic Gregorian calendar.
pub open spec fn is_leap(y: int) -> bool {
    y % 4 == 0 && (y % 100 != 0 || y % 400 == 0)
}

/// The number of days in month `m` (1 to 12) of year `y`.
pub open spec fn month_len(y: int, m: int) -> int {
    if m == 2 {
        if is_leap(y) {
            29
        } else {
            28
        }
    } else if m == 4 || m == 6 || m == 9 || m == 11 {
        30
    } else {
        31
    }
}

/// The day after `(year, month, day)`.
pub open spec fn next_day(date: (int, int, int)) -> (int, int, int) {
    let (y, m, d) = date;
    if d < month_len(y, m) {
        (y, m, d + 1)
    } else if m < 12 {
        (y, m + 1, 1)
    } else {
        (y + 1, 1, 1)
    }
}

/// The date `z` days after 1970-01-01, counting one day at a time.
pub open spec fn date_after_epoch(z: nat) -> (int, int, int)
    decreases z,
{
    if z == 0 {
        (1970, 1, 1)
    } else {
        next_day(date_after_epoch((z - 1) as nat))
    }
}

/// Days from the start of an era (a March 1st) to March 1st of its year `k`.
spec fn year_start(k: int) -> int {
    365 * k + k / 4 - k / 100
}

/// The year of the era that day `doe` of the era falls in.
spec fn year_of_era(doe: int) -> int {
    (doe - doe / 1460 + doe / 36524 - doe / 146096) / 365
}

/// The length of year `k` of an era, March to February.
spec fn era_year_len(k: int) -> int {
    if is_leap(k + 1) {
        366
    } else {
        365
    }
}

proof fn lemma_year_of_era(doe: int)
    requires
        0 <= doe < 146097,
    ensures
        0 <= year_of_era(doe) <= 399,
        year_start(year_of_era(doe)) <= doe < year_start(year_of_era(doe)) + era_year_len(
            year_of_era(doe),
        ),
{
}


/// The date of day `doe` (0 to 146096) of era `era`; eras are 400-year
/// cycles starting on March 1st of years divisible by 400.
spec fn era_date(era: int, doe: int) -> (int, int, int) {
    let yoe = year_of_era(doe);
    let doy = doe - year_start(yoe);
    let mp = (5 * doy + 2) / 153;
    let d = doy - (153 * mp + 2) / 5 + 1;
    let m = if mp < 10 {
        mp + 3
    } else {
        mp - 9
    };
    let y = yoe + era * 400;
    (
        if m <= 2 {
            y + 1
        } else {
            y
        },
        m,
        d,
    )
}

/// The date `z` days after 1970-01-01, by the closed formula of eras, years
/// of the era and months counted from March.
pub closed spec fn civil_date(z: int) -> (int, int, int) {
    let zz = z + 719468;
    era_date(zz / 146097, zz % 146097)
}

proof fn lemma_month(doy: int)
    requires
        0 <= doy <= 365,
    ensures
        0 <= (5 * doy + 2) / 153 <= 11,
        (153 * ((5 * doy + 2) / 153) + 2) / 5 <= doy,
        (5 * doy + 2) / 153 < 11 ==> doy < (153 * ((5 * doy + 2) / 153 + 1) + 2) / 5,
{
}

proof fn lemma_leap_era(k: int, era: int)
    ensures
        is_leap(k + era * 400) == is_leap(k),
{
    assert((k + era * 400) % 4 == k % 4);
    assert((k + era * 400) % 100 == k % 100);
    assert((k + era * 400) % 400 == k % 400);
}

proof fn lemma_era_step(era: int, doe: int)
    requires
        0 <= doe < 146096,
    ensures
        era_date(era, doe + 1) == next_day(era_date(era, doe)),
{
    lemma_year_of_era(doe);
    lemma_year_of_era(doe + 1);
    let yoe = year_of_era(doe);
    let doy = doe - year_start(yoe);
    lemma_month(doy);
    lemma_leap_era(yoe + 1, era);
    if doe + 1 < year_start(yoe) + era_year_len(yoe) {
        assert(year_of_era(doe + 1) == yoe);
        lemma_month(doy + 1);
    } else {
        assert(year_of_era(doe + 1) == yoe + 1);
    }
}

proof fn lemma_era_wrap(era: int)
    ensures
        era_date(era + 1, 0) == next_day(era_date(era, 146096)),
{
    lemma_year_of_era(146096);
    lemma_leap_era(400, era);
}

proof fn lemma_civil_step(z: int)
    requires
        z >= 0,
    ensures
        civil_date(z + 1) == next_day(civil_date(z)),
{
    let zz = z + 719468;
    let era = zz / 146097;
    let doe = zz % 146097;
    if doe < 146096 {
        assert((zz + 1) / 146097 == era && (zz + 1) % 146097 == doe + 1);
        lemma_era_step(era, doe);
    } else {
        assert((zz + 1) / 146097 == era + 1 && (zz + 1) % 146097 == 0);
        lemma_era_wrap(era);
    }
}

/// The closed formula gives the date reached by counting whole days from
/// 1970-01-01 one at a time, for every day on or after it.
pub proof fn civil_date_counts_days(z: nat)
    ensures
        civil_date(z as int) == date_after_epoch(z),
    decreases z,
{
    if z == 0 {
        lemma_year_of_era(135080);
        assert(civil_date(0) == (1970int, 1int, 1int));
    } else {
        civil_date_counts_days((z - 1) as nat);
        lemma_civil_step(z - 1);
    }
}

/// Every date counted from 1970-01-01 is a valid date: a month from 1 to 12
/// and a day within that month.
pub proof fn counted_dates_are_valid(z: nat)
    ensures
        ({
            let (y, m, d) = date_after_epoch(z);
            1 <= m <= 12 && 1 <= d <= month_len(y, m)
        }),
    decreases z,
{
    if z > 0 {
        counted_dates_are_valid((z - 1) as nat);
    }
}

/// The date `z` days after 1970-01-01 with its year cut to an `i32`, as
/// the text of a time stamp carries it.
pub open spec fn stamp_date(z: nat) -> (int, int, int) {
    let (y, m, d) = date_after_epoch(z);
    ((y as i32) as int, m, d)
}

/// `(year, month, day)` of the date `z` days after 1970-01-01, by the closed
/// formula; the year is cut to an `i32`.
pub fn civil_from_days(z: u64) -> (r: (i32, u32, u32))
    requires
        z <= 0x7fff_ffff_ffff_ffffu64 / 86400,
    ensures
        (r.0 as int, r.1 as int, r.2 as int) == stamp_date(z as nat),
        1 <= r.1 <= 12,
        1 <= r.2 <= 31,
{
    let zz: u64 = z + 719468;
    let era: u64 = zz / 146097;
    let doe: u64 = zz - era * 146097;
    assert(doe == zz % 146097) by (nonlinear_arith)
        requires
            era == zz / 146097,
            doe == zz - era * 146097,
    ;
    proof {
        lemma_year_of_era(doe as int);
    }
    let yoe: u64 = (doe - doe / 1460 + doe / 36524 - doe / 146096) / 365;
    assert(yoe == year_of_era(doe as int));
    assert(era <= 0x7fff_ffff_ffff_ffffu64 / 86400 + 719468);
    let y: u64 = yoe + era * 400;
    let doy: u64 = doe - (365 * yoe + yoe / 4 - yoe / 100);
    assert(doy <= 365);
    proof {
        lemma_month(doy as int);
    }
    let mp: u64 = (5 * doy + 2) / 153;
    let d: u64 = doy - (153 * mp + 2) / 5 + 1;
    assert(1 <= d <= 31);
    let m: u64 = if mp < 10 {
        mp + 3
    } else {
        mp - 9
    };
    let y2: u64 = if m <= 2 {
        y + 1
    } else {
        y
    };
    proof {
        civil_date_counts_days(z as nat);
        assert(civil_date(z as int) == (y2 as int, m as int, d as int));
    }
    (y2 as i32, m as u32, d as u32)
}

} // verus!
