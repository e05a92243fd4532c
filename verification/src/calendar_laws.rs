//! How the dates follow each other, day by day.

use vstd::prelude::*;

use crate::calendar;

verus! {

/// The number of days of a month: thirty days have April, June, September and
/// November, February has 28 or, in every fourth year but for the hundredth
/// ones that are no four-hundredth, 29, and the others have 31.
pub open spec fn last_day(year: int, month: int) -> int {
    if month == 2 && year % 4 == 0 && !(year % 100 == 0 && year % 400 != 0) {
        29
    } else if month == 2 {
        28
    } else if month == 4 || month == 6 || month == 9 || month == 11 {
        30
    } else {
        31
    }
}

/// The date of the day after a date.
pub open spec fn next_date(date: (int, int, int)) -> (int, int, int) {
    if date.2 < last_day(date.0, date.1) {
        (date.0, date.1, date.2 + 1)
    } else if date.1 < 12 {
        (date.0, date.1 + 1, 1)
    } else {
        (date.0 + 1, 1, 1)
    }
}

/// A date as numbers without bounds.
pub open spec fn as_date(date: (i64, u32, u32)) -> (int, int, int) {
    (date.0 as int, date.1 as int, date.2 as int)
}

/// The days are counted from 1 January 1970, and the day after a date has the
/// next number.
pub proof fn law_days_are_counted(y: int, m: int, d: int)
    requires
        1 <= m <= 12,
        1 <= d <= last_day(y, m),
    ensures
        calendar::day_number(1970, 1, 1) == 0,
        ({
            let next = next_date((y, m, d));
            &&& calendar::day_number(next.0, next.1, next.2) == calendar::day_number(y, m, d) + 1
            &&& 1 <= next.1 <= 12
            &&& 1 <= next.2 <= last_day(next.0, next.1)
        }),
{
    reveal_with_fuel(calendar::days_before_month, 13);
    assert(calendar::month_days(y, m) == last_day(y, m));
    if m == 12 && d == 31 {
        lemma_year_step(y);
    }
}

proof fn lemma_year_step(y: int)
    ensures
        calendar::days_before_year(y + 1) == calendar::days_before_year(y) + calendar::year_days(y),
{
    if y >= 1970 {
        assert(calendar::days_before_year(y + 1) == calendar::days_before_year(y)
            + calendar::year_days(y));
    } else {
        assert(calendar::days_before_year(y) == calendar::days_before_year(y + 1)
            - calendar::year_days(y));
    }
}

/// Day 0 is 1 January 1970; the date of each day is one of the calendar, and
/// that of the next day follows it.
pub proof fn law_dates_follow_each_other(
    days: i64,
    next: i64,
    date: (i64, u32, u32),
    next_one: (i64, u32, u32),
)
    requires
        next == days + 1,
        call_ensures(calendar::civil_from_days, (days,), date),
        call_ensures(calendar::civil_from_days, (next,), next_one),
    ensures
        days == 0 ==> as_date(date) == (1970int, 1int, 1int),
        next == 0 ==> as_date(next_one) == (1970int, 1int, 1int),
        1 <= date.1 <= 12,
        1 <= date.2 <= last_day(date.0 as int, date.1 as int),
        as_date(next_one) == next_date(as_date(date)),
{
    let (y, m, d) = as_date(date);
    assert(calendar::month_days(y, m) == last_day(y, m));
    law_days_are_counted(y, m, d);
    let after = next_date(as_date(date));
    assert(calendar::month_days(after.0, after.1) == last_day(after.0, after.1));
    assert(calendar::is_date_of(after, next as int));
    calendar::law_every_day_has_one_date(next as int, after);
    assert(calendar::is_date_of((1970, 1, 1), 0)) by {
        reveal_with_fuel(calendar::days_before_month, 2);
    }
    calendar::law_every_day_has_one_date(0, (1970, 1, 1));
}

} // verus!
