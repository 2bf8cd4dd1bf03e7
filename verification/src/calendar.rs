//! The proleptic Gregorian calendar, and the day count that names its
//! dates from 1970-01-01 on.

use vstd::prelude::*;

verus! {

/// The civil date `(year, month, day)` of the day `days` after
/// 1970-01-01, computed in 400-year eras that start on a March 1st
/// (Howard Hinnant's `civil_from_days`); [`law_civil_counts_the_calendar`]
/// shows it is the calendar's.
pub open spec fn civil(days: int) -> (int, int, int) {
    let z = days + 719_468;
    let era = z / 146_097;
    let doe = z - era * 146_097;
    let yoe = (doe - doe / 1460 + doe / 36_524 - doe / 146_096) / 365;
    let doy = doe - (365 * yoe + yoe / 4 - yoe / 100);
    let mp = (5 * doy + 2) / 153;
    let day = doy - (153 * mp + 2) / 5 + 1;
    let month = if mp < 10 { mp + 3 } else { mp - 9 };
    let year = yoe + era * 400 + if month <= 2 { 1int } else { 0int };
    (year, month, day)
}

/// Whether `year` has a February 29th (proleptic Gregorian).
pub open spec fn leap_year(year: int) -> bool {
    year % 4 == 0 && (year % 100 != 0 || year % 400 == 0)
}

/// Days before March-year `k` of a 400-year era.
spec fn year_start(k: int) -> int {
    365 * k + k / 4 - k / 100
}

proof fn lemma_year_of_era(doe: int)
    requires
        0 <= doe < 146_097,
    ensures
        ({
            let yoe = (doe - doe / 1460 + doe / 36_524 - doe / 146_096) / 365;
            &&& 0 <= yoe < 400
            &&& year_start(yoe) <= doe
            &&& doe < year_start(yoe) + 365 + if leap_year(yoe + 1) { 1int } else { 0int }
        }),
{
}

/// The month of a March-based year that day `doy` of it falls in (March
/// is 0, February 11).
spec fn month_of(doy: int) -> int {
    (5 * doy + 2) / 153
}

/// The day of its month that day `doy` of a March-based year is.
spec fn day_of(doy: int) -> int {
    doy - (153 * month_of(doy) + 2) / 5 + 1
}

/// How many days month `mp` of a March-based year has; `long`: the year
/// ends in a February 29th.
spec fn march_month_length(mp: int, long: bool) -> int {
    if mp == 11 {
        if long { 29 } else { 28 }
    } else if mp == 1 || mp == 3 || mp == 6 || mp == 8 {
        30
    } else {
        31
    }
}

proof fn lemma_month_of_year(doy: int, long: bool)
    requires
        0 <= doy < 365 + if long { 1int } else { 0int },
    ensures
        0 <= month_of(doy) < 12,
        1 <= day_of(doy) <= march_month_length(month_of(doy), long),
        day_of(doy) < march_month_length(month_of(doy), long) ==> month_of(doy + 1) == month_of(doy) && day_of(doy + 1) == day_of(doy) + 1,
        day_of(doy) == march_month_length(month_of(doy), long) && month_of(doy) < 11 ==> month_of(doy + 1) == month_of(doy) + 1 && day_of(doy + 1) == 1,
        day_of(doy) == march_month_length(month_of(doy), long) && month_of(doy) == 11 ==> doy + 1 == 365 + if long { 1int } else { 0int },
{
}

/// How many days `month` of `year` has.
pub open spec fn month_length(year: int, month: int) -> int {
    if month == 2 {
        if leap_year(year) { 29 } else { 28 }
    } else if month == 4 || month == 6 || month == 9 || month == 11 {
        30
    } else {
        31
    }
}

/// `(year, month, day)` names a day of the calendar.
pub open spec fn valid_date(date: (int, int, int)) -> bool {
    &&& 1 <= date.1 <= 12
    &&& 1 <= date.2 <= month_length(date.0, date.1)
}

/// The day after `date`.
pub open spec fn next_date(date: (int, int, int)) -> (int, int, int) {
    let (year, month, day) = date;
    if day < month_length(year, month) {
        (year, month, day + 1)
    } else if month < 12 {
        (year, month + 1, 1)
    } else {
        (year + 1, 1, 1)
    }
}

/// The 400-year era (from a March 1st) that day `days` falls in.
spec fn era_of(days: int) -> int {
    (days + 719_468) / 146_097
}

spec fn day_of_era(days: int) -> int {
    days + 719_468 - era_of(days) * 146_097
}

spec fn year_of_era(days: int) -> int {
    let doe = day_of_era(days);
    (doe - doe / 1460 + doe / 36_524 - doe / 146_096) / 365
}

spec fn day_of_year(days: int) -> int {
    day_of_era(days) - year_start(year_of_era(days))
}

/// The March-based year of day `days` ends in a February 29th.
spec fn long_year(days: int) -> bool {
    leap_year(year_of_era(days) + 1)
}

/// [`civil`] taken apart: the era, the March-based year in it, and the
/// month and day of that year.
proof fn lemma_civil_parts(days: int)
    ensures
        0 <= day_of_era(days) < 146_097,
        0 <= year_of_era(days) < 400,
        0 <= day_of_year(days) < 365 + if long_year(days) { 1int } else { 0int },
        ({
            let mp = month_of(day_of_year(days));
            civil(days) == (
                year_of_era(days) + era_of(days) * 400 + if mp >= 10 { 1int } else { 0int },
                if mp < 10 { mp + 3 } else { mp - 9 },
                day_of(day_of_year(days)),
            )
        }),
        leap_year(year_of_era(days) + era_of(days) * 400 + 1) == long_year(days),
{
    lemma_year_of_era(day_of_era(days));
}

proof fn lemma_civil_valid(days: int)
    ensures
        valid_date(civil(days)),
{
    lemma_civil_parts(days);
    lemma_month_of_year(day_of_year(days), long_year(days));
}

proof fn lemma_next_day_parts(days: int)
    ensures
        day_of_year(days) + 1 < 365 + if long_year(days) { 1int } else { 0int } ==> {
            &&& era_of(days + 1) == era_of(days)
            &&& year_of_era(days + 1) == year_of_era(days)
            &&& day_of_year(days + 1) == day_of_year(days) + 1
        },
        day_of_year(days) + 1 == 365 + if long_year(days) { 1int } else { 0int } ==> {
            &&& era_of(days + 1) * 400 + year_of_era(days + 1) == era_of(days) * 400 + year_of_era(days) + 1
            &&& day_of_year(days + 1) == 0
        },
{
    lemma_civil_parts(days);
    lemma_civil_parts(days + 1);
    let doe = day_of_era(days);
    if doe + 1 < 146_097 {
        assert(era_of(days + 1) == era_of(days));
        assert(day_of_era(days + 1) == doe + 1);
    } else {
        assert(era_of(days + 1) == era_of(days) + 1);
        assert(day_of_era(days + 1) == 0);
    }
}

proof fn lemma_next_within_year(days: int)
    requires
        day_of_year(days) + 1 < 365 + if long_year(days) { 1int } else { 0int },
    ensures
        civil(days + 1) == next_date(civil(days)),
{
    lemma_civil_parts(days);
    lemma_civil_parts(days + 1);
    lemma_next_day_parts(days);
    lemma_month_of_year(day_of_year(days), long_year(days));
}

proof fn lemma_next_across_years(days: int)
    requires
        day_of_year(days) + 1 == 365 + if long_year(days) { 1int } else { 0int },
    ensures
        civil(days + 1) == next_date(civil(days)),
{
    lemma_civil_parts(days);
    lemma_civil_parts(days + 1);
    lemma_next_day_parts(days);
    lemma_month_of_year(day_of_year(days), long_year(days));
    lemma_month_of_year(0, long_year(days + 1));
}

proof fn lemma_day_zero()
    ensures
        civil(0) == (1970int, 1int, 1int),
{
    let z: int = 719_468;
    assert(z / 146_097 == 4);
    let doe: int = z - 4 * 146_097;
    assert(doe == 135_080);
    assert(doe / 1460 == 92 && doe / 36_524 == 3 && doe / 146_096 == 0);
    assert((doe - 92 + 3 - 0) / 365 == 369);
    assert(369int / 4 == 92 && 369int / 100 == 3);
    let doy: int = doe - (365 * 369 + 92 - 3);
    assert(doy == 306);
    assert((5 * doy + 2) / 153 == 10);
    assert((153 * 10 + 2) / 5 == 306int);
}

/// The days [`civil`] names are the calendar's, one after another: day 0
/// is 1970-01-01, every day is a date of the proleptic Gregorian
/// calendar, and the day after any day is the date after its date.
pub proof fn law_civil_counts_the_calendar(days: int)
    ensures
        civil(0) == (1970int, 1int, 1int),
        valid_date(civil(days)),
        civil(days + 1) == next_date(civil(days)),
{
    lemma_day_zero();
    lemma_civil_valid(days);
    lemma_civil_parts(days);
    if day_of_year(days) + 1 < 365 + if long_year(days) { 1int } else { 0int } {
        lemma_next_within_year(days);
    } else {
        lemma_next_across_years(days);
    }
}

/// The date `days` days after 1970-01-01, counted a day at a time.
pub open spec fn date_after_epoch(days: nat) -> (int, int, int)
    decreases days,
{
    if days == 0 {
        (1970, 1, 1)
    } else {
        next_date(date_after_epoch((days - 1) as nat))
    }
}

/// The era arithmetic of [`civil`] names the date counted a day at a time.
pub proof fn lemma_civil_is_the_calendar(days: nat)
    ensures
        civil(days as int) == date_after_epoch(days),
    decreases days,
{
    law_civil_counts_the_calendar(0);
    if days > 0 {
        lemma_civil_is_the_calendar((days - 1) as nat);
        law_civil_counts_the_calendar(days - 1);
    }
}

} // verus!
