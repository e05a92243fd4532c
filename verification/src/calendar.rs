//! The proleptic Gregorian calendar, counted in days since 1970-01-01.

use vstd::prelude::*;

verus! {

/// Leap years of the Gregorian calendar.
pub open spec fn is_leap_year(y: int) -> bool {
    y % 4 == 0 && (y % 100 != 0 || y % 400 == 0)
}

/// The number of days in year `y`.
pub open spec fn year_days(y: int) -> int {
    if is_leap_year(y) {
        366
    } else {
        365
    }
}

/// The number of days in month `m` of year `y`.
pub open spec fn month_days(y: int, m: int) -> int {
    if m == 2 {
        if is_leap_year(y) {
            29
        } else {
            28
        }
    } else if m == 4 || m == 6 || m == 9 || m == 11 {
        30
    } else {
        31
    }
}

/// The number of days from 1970-01-01 to the first day of year `y`; negative
/// before 1970.
pub open spec fn days_before_year(y: int) -> int
    decreases (if y >= 1970 { y - 1970 } else { 1970 - y }),
{
    if y == 1970 {
        0
    } else if y > 1970 {
        days_before_year(y - 1) + year_days(y - 1)
    } else {
        days_before_year(y + 1) - year_days(y)
    }
}

/// The number of days from the first day of year `y` to that of its month `m`.
pub open spec fn days_before_month(y: int, m: int) -> int
    decreases m,
{
    if m <= 1 {
        0
    } else {
        days_before_month(y, m - 1) + month_days(y, m - 1)
    }
}

/// Whether `y`-`m`-`d` is a day of the calendar.
pub open spec fn valid_date(y: int, m: int, d: int) -> bool {
    1 <= m <= 12 && 1 <= d <= month_days(y, m)
}

/// The number of days from 1970-01-01 to the date `y`-`m`-`d`.
pub open spec fn day_number(y: int, m: int, d: int) -> int {
    days_before_year(y) + days_before_month(y, m) + d - 1
}

/// Whether `date` is the day of the calendar that lies `days` days after
/// 1970-01-01.
pub open spec fn is_date_of(date: (int, int, int), days: int) -> bool {
    valid_date(date.0, date.1, date.2) && day_number(date.0, date.1, date.2) == days
}

/// The year, month and day that lie `days` days after 1970-01-01.
pub open spec fn date_of(days: int) -> (int, int, int) {
    choose|date: (int, int, int)| is_date_of(date, days)
}

/// Days from 1 March of year 0 to 1 March of year `y`.
spec fn march_days(y: int) -> int {
    365 * y + y / 4 - y / 100 + y / 400
}

/// Days from 1 March to the first day of the `mp`-th month counted from March.
spec fn march_month_days(mp: int) -> int {
    (153 * mp + 2) / 5
}

proof fn lemma_quotient_step(y: int, n: int)
    requires
        n == 4 || n == 100 || n == 400,
    ensures
        (y + 1) / n - y / n == (if (y + 1) % n == 0 { 1int } else { 0 }),
{
    if n == 4 {
        assert((y + 1) / 4 - y / 4 == (if (y + 1) % 4 == 0 { 1int } else { 0 }));
    } else if n == 100 {
        assert((y + 1) / 100 - y / 100 == (if (y + 1) % 100 == 0 { 1int } else { 0 }));
    } else {
        assert((y + 1) / 400 - y / 400 == (if (y + 1) % 400 == 0 { 1int } else { 0 }));
    }
}

proof fn lemma_multiples(y: int)
    ensures
        y % 400 == 0 ==> y % 100 == 0,
        y % 100 == 0 ==> y % 4 == 0,
{
    if y % 400 == 0 {
        assert(y == 100 * (4 * (y / 400)));
    }
    if y % 100 == 0 {
        assert(y == 4 * (25 * (y / 100)));
    }
}

/// A year that runs from March to February has 366 days exactly if its
/// February is one of a leap year.
proof fn lemma_march_year(y: int)
    ensures
        march_days(y + 1) - march_days(y) == year_days(y + 1),
{
    lemma_quotient_step(y, 4);
    lemma_quotient_step(y, 100);
    lemma_quotient_step(y, 400);
    lemma_multiples(y + 1);
}

proof fn lemma_days_before_year(y: int)
    ensures
        days_before_year(y) == march_days(y - 1) + 306 - 719_468,
    decreases (if y >= 1970 { y - 1970 } else { 1970 - y }),
{
    if y > 1970 {
        lemma_days_before_year(y - 1);
        lemma_march_year(y - 2);
    } else if y < 1970 {
        lemma_days_before_year(y + 1);
        lemma_march_year(y - 1);
    }
}

proof fn lemma_days_before_month(y: int)
    ensures
        days_before_month(y, 1) == 0,
        days_before_month(y, 2) == 31,
        forall|mp: int|
            0 <= mp <= 9 ==> #[trigger] days_before_month(y, mp + 3) == march_month_days(mp) + 59
                + year_days(y) - 365,
        march_month_days(10) == 306,
        march_month_days(11) == 337,
{
    reveal_with_fuel(days_before_month, 13);
    assert forall|mp: int| 0 <= mp <= 9 implies #[trigger] days_before_month(y, mp + 3)
        == march_month_days(mp) + 59 + year_days(y) - 365 by {
        if mp == 0 {
        } else if mp == 1 {
        } else if mp == 2 {
        } else if mp == 3 {
        } else if mp == 4 {
        } else if mp == 5 {
        } else if mp == 6 {
        } else if mp == 7 {
        } else if mp == 8 {
        } else {
        }
    }
}

/// The year of a 400-year era in which the day `doe` of that era falls.
#[verifier::spinoff_prover]
proof fn lemma_year_of_era(doe: int, yoe: int)
    requires
        0 <= doe <= 146_096,
        yoe == (doe - doe / 1460 + doe / 36_524 - doe / 146_096) / 365,
    ensures
        0 <= yoe <= 399,
        march_days(yoe) == 365 * yoe + yoe / 4 - yoe / 100,
        march_days(yoe) <= doe < march_days(yoe + 1),
{
    let century = doe / 36_524;
    assert(0 <= century <= 4);
    if century == 0 {
    } else if century == 1 {
    } else if century == 2 {
    } else if century == 3 {
    } else {
    }
}

/// An era of 400 years has 146097 days.
proof fn lemma_whole_eras(yoe: int, era: int)
    ensures
        march_days(yoe + 400 * era) == march_days(yoe) + 146_097 * era,
{
    assert((yoe + 400 * era) / 4 == yoe / 4 + 100 * era);
    assert((yoe + 400 * era) / 100 == yoe / 100 + 4 * era);
    assert((yoe + 400 * era) / 400 == yoe / 400 + era);
}

/// The month counted from March in which the day `doy` of a year that starts
/// in March falls.
proof fn lemma_month_of_year(doy: int, mp: int)
    requires
        0 <= doy <= 365,
        mp == (5 * doy + 2) / 153,
    ensures
        0 <= mp <= 11,
        march_month_days(mp) <= doy < march_month_days(mp + 1),
{
}

/// The date `doy` days after 1 March of year `y`.
proof fn lemma_date(y: int, doy: int, mp: int)
    requires
        0 <= doy < year_days(y + 1),
        mp == (5 * doy + 2) / 153,
    ensures
        0 <= mp <= 11,
        ({
            let d = doy - march_month_days(mp) + 1;
            let m = if mp < 10 { mp + 3 } else { mp - 9 };
            let year = if m <= 2 { y + 1 } else { y };
            &&& valid_date(year, m, d)
            &&& day_number(year, m, d) == march_days(y) + doy - 719_468
        }),
{
    lemma_month_of_year(doy, mp);
    let d = doy - march_month_days(mp) + 1;
    if mp < 10 {
        lemma_days_before_month(y);
        lemma_days_before_year(y);
        lemma_march_year(y - 1);
        assert(days_before_month(y, mp + 3) == march_month_days(mp) + 59 + year_days(y) - 365);
        assert(march_month_days(mp + 1) - march_month_days(mp) == month_days(y, mp + 3));
    } else {
        lemma_days_before_month(y + 1);
        lemma_days_before_year(y + 1);
    }
}

/// Every count of days since 1970-01-01 has a date, and only one.
pub proof fn law_every_day_has_one_date(days: int, date: (int, int, int))
    ensures
        is_date_of(date_of(days), days),
        is_date_of(date, days) ==> date == date_of(days),
{
    let z = days + 719_468;
    let era = z / 146_097;
    let doe = z - era * 146_097;
    let yoe = (doe - doe / 1460 + doe / 36_524 - doe / 146_096) / 365;
    lemma_year_of_era(doe, yoe);
    lemma_whole_eras(yoe, era);
    lemma_whole_eras(yoe + 1, era);
    let y = yoe + era * 400;
    let doy = doe - march_days(yoe);
    let mp = (5 * doy + 2) / 153;
    lemma_march_year(y);
    lemma_date(y, doy, mp);
    let m = if mp < 10 {
        mp + 3
    } else {
        mp - 9
    };
    let year = if m <= 2 {
        y + 1
    } else {
        y
    };
    assert(is_date_of((year, m, doy - march_month_days(mp) + 1), days));
    if is_date_of(date, days) {
        let other = date_of(days);
        law_day_number_injective(date.0, date.1, date.2, other.0, other.1, other.2);
    }
}

/// Converts a count of days since 1970-01-01 into the year, month and day of
/// the Gregorian calendar.
pub fn civil_from_days(days: i64) -> (date: (i64, u32, u32))
    requires
        days <= i64::MAX - 719_468,
    ensures
        valid_date(date.0 as int, date.1 as int, date.2 as int),
        day_number(date.0 as int, date.1 as int, date.2 as int) == days,
        (date.0 as int, date.1 as int, date.2 as int) == date_of(days as int),
{
    let z: i64 = days + 719_468;
    let era: i64 = z.checked_div_euclid(146_097).unwrap();
    let doe: u64 = (z - era * 146_097) as u64;
    let yoe: u64 = (doe - doe / 1460 + doe / 36_524 - doe / 146_096) / 365;
    proof {
        lemma_year_of_era(doe as int, yoe as int);
        lemma_whole_eras(yoe as int, era as int);
        lemma_whole_eras(yoe + 1, era as int);
    }
    let y: i64 = yoe as i64 + era * 400;
    let doy: u64 = doe - (365 * yoe + yoe / 4 - yoe / 100);
    let mp: u64 = (5 * doy + 2) / 153;
    proof {
        lemma_march_year(y as int);
        lemma_date(y as int, doy as int, mp as int);
        lemma_month_of_year(doy as int, mp as int);
    }
    let d: u32 = (doy - (153 * mp + 2) / 5 + 1) as u32;
    let m: u32 = (if mp < 10 {
        mp + 3
    } else {
        mp - 9
    }) as u32;
    let year: i64 = if m <= 2 {
        y + 1
    } else {
        y
    };
    proof {
        law_every_day_has_one_date(days as int, (year as int, m as int, d as int));
    }
    (year, m, d)
}

/// Every day of a year comes before the first day of the next.
proof fn lemma_day_in_year(y: int, m: int, d: int)
    requires
        valid_date(y, m, d),
    ensures
        0 <= days_before_month(y, m) + d - 1 < year_days(y),
{
    reveal_with_fuel(days_before_month, 13);
}

proof fn lemma_years_apart(y: int, later: int)
    requires
        y < later,
    ensures
        days_before_year(y) + year_days(y) <= days_before_year(later),
    decreases later - y,
{
    lemma_days_before_year(later);
    lemma_days_before_year(later - 1);
    lemma_march_year(later - 2);
    if y < later - 1 {
        lemma_years_apart(y, later - 1);
    }
}

proof fn lemma_months_apart(y: int, m: int, later: int)
    requires
        1 <= m < later,
    ensures
        days_before_month(y, m) + month_days(y, m) <= days_before_month(y, later),
    decreases later - m,
{
    if m < later - 1 {
        lemma_months_apart(y, m, later - 1);
    }
}

/// A later date of the calendar has a greater day number.
pub proof fn law_day_number_increases(y1: int, m1: int, d1: int, y2: int, m2: int, d2: int)
    requires
        valid_date(y1, m1, d1),
        valid_date(y2, m2, d2),
        y1 < y2 || (y1 == y2 && (m1 < m2 || (m1 == m2 && d1 < d2))),
    ensures
        day_number(y1, m1, d1) < day_number(y2, m2, d2),
{
    lemma_day_in_year(y1, m1, d1);
    lemma_day_in_year(y2, m2, d2);
    if y1 < y2 {
        lemma_years_apart(y1, y2);
    } else if m1 < m2 {
        lemma_months_apart(y1, m1, m2);
    }
}

/// No two dates of the calendar have the same day number, so a count of days
/// has at most one date.
pub proof fn law_day_number_injective(y1: int, m1: int, d1: int, y2: int, m2: int, d2: int)
    requires
        valid_date(y1, m1, d1),
        valid_date(y2, m2, d2),
        day_number(y1, m1, d1) == day_number(y2, m2, d2),
    ensures
        y1 == y2,
        m1 == m2,
        d1 == d2,
{
    if y1 < y2 || (y1 == y2 && (m1 < m2 || (m1 == m2 && d1 < d2))) {
        law_day_number_increases(y1, m1, d1, y2, m2, d2);
    } else if y1 != y2 || m1 != m2 || d1 != d2 {
        law_day_number_increases(y2, m2, d2, y1, m1, d1);
    }
}

/// The days of the years 0 to 9999 are those from 719528 days before
/// 1970-01-01 to 2932896 days after it.
pub proof fn law_four_digit_years(days: int)
    ensures
        0 <= date_of(days).0 <= 9999 <==> -719_528 <= days <= 2_932_896,
{
    let date = date_of(days);
    law_every_day_has_one_date(days, date);
    lemma_day_in_year(date.0, date.1, date.2);
    lemma_days_before_year(0);
    lemma_days_before_year(10_000);
    if date.0 < 0 {
        lemma_years_apart(date.0, 0);
    } else if date.0 > 0 {
        lemma_years_apart(0, date.0);
    }
    if date.0 < 10_000 {
        lemma_years_apart(date.0, 10_000);
    } else if date.0 > 10_000 {
        lemma_years_apart(10_000, date.0);
    }
}

} // verus!
