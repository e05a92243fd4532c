//! What holds of the time stamps in the journal.
//!
//! In the years 0 to 9999 a time stamp has one fixed form, reads back to the
//! moment that it was made of, and sorts as the moments do.

use vstd::prelude::*;

use crate::calendar;
use crate::mcp::journal;
use crate::text;
use crate::text_laws;

verus! {

/// Whether a moment lies in the years 0 to 9999.
pub open spec fn has_four_digit_year(secs: int) -> bool {
    0 <= calendar::date_of(secs / 86_400).0 <= 9999
}

/// The years 0 to 9999 begin 62167219200 seconds before 1970-01-01T00:00:00Z
/// and end 253402300799 seconds after it.
pub proof fn law_four_digit_seconds(secs: int)
    ensures
        has_four_digit_year(secs) <==> -62_167_219_200 <= secs <= 253_402_300_799,
{
    calendar::law_four_digit_years(secs / 86_400);
}

// ---- the fields of a moment -----------------------------------------------

/// The fields of a time stamp.
pub struct StampFields {
    pub year: int,
    pub month: int,
    pub day: int,
    pub hour: int,
    pub minute: int,
    pub second: int,
    pub millis: int,
}

/// The fields of a moment.
pub open spec fn fields_of(secs: int, millis: nat) -> StampFields {
    let date = calendar::date_of(secs / 86_400);
    let second = secs % 86_400;
    StampFields {
        year: date.0,
        month: date.1,
        day: date.2,
        hour: second / 3600,
        minute: (second % 3600) / 60,
        second: second % 60,
        millis: millis as int,
    }
}

/// The moment that fields stand for: the seconds and the milliseconds since
/// 1970-01-01T00:00:00Z.
pub open spec fn moment_of(f: StampFields) -> (int, int) {
    (
        86_400 * calendar::day_number(f.year, f.month, f.day) + 3600 * f.hour + 60 * f.minute
            + f.second,
        f.millis,
    )
}

/// Whether every field is in its range: a year of at most four digits, a day
/// of the calendar, a time of the day.
pub open spec fn in_range(f: StampFields) -> bool {
    &&& 0 <= f.year <= 9999
    &&& calendar::valid_date(f.year, f.month, f.day)
    &&& 0 <= f.hour <= 23
    &&& 0 <= f.minute <= 59
    &&& 0 <= f.second <= 59
    &&& 0 <= f.millis <= 999
}

proof fn lemma_fields(secs: int, millis: nat)
    requires
        has_four_digit_year(secs),
        millis < 1000,
    ensures
        in_range(fields_of(secs, millis)),
        moment_of(fields_of(secs, millis)) == (secs, millis as int),
{
    let date = calendar::date_of(secs / 86_400);
    calendar::law_every_day_has_one_date(secs / 86_400, date);
    let second = secs % 86_400;
    assert(second == 3600 * (second / 3600) + second % 3600);
    assert(second % 3600 == 60 * ((second % 3600) / 60) + (second % 3600) % 60);
    assert((second % 3600) % 60 == second % 60);
}

// ---- the text of the fields -----------------------------------------------

// A field of at most `width` digits.
spec fn fits(n: int, width: nat) -> bool {
    ||| width == 2 && 0 <= n <= 99
    ||| width == 3 && 0 <= n <= 999
    ||| width == 4 && 0 <= n <= 9999
}

proof fn lemma_decimal_len(n: nat)
    ensures
        n < 10 ==> text::decimal(n).len() == 1,
        10 <= n < 100 ==> text::decimal(n).len() == 2,
        100 <= n < 1000 ==> text::decimal(n).len() == 3,
        1000 <= n < 10_000 ==> text::decimal(n).len() == 4,
{
    reveal_with_fuel(text::decimal, 5);
}

proof fn lemma_field(n: int, width: nat)
    requires
        fits(n, width),
    ensures
        journal::padded(n, width).len() == width,
        text::all_digits(journal::padded(n, width)),
        text::number_value(journal::padded(n, width)) == n,
{
    lemma_decimal_len(n as nat);
    text::lemma_decimal_value(n as nat);
    text::lemma_zero_padded(text::decimal(n as nat), width);
}

// A front with a separator and one more field behind it.
spec fn grown(front: Seq<char>, separator: Seq<char>, n: int, width: nat) -> Seq<char> {
    front + separator + journal::padded(n, width)
}

proof fn lemma_grown(
    front1: Seq<char>,
    front2: Seq<char>,
    separator: Seq<char>,
    n1: int,
    n2: int,
    width: nat,
)
    requires
        front1.len() == front2.len(),
        fits(n1, width),
        fits(n2, width),
    ensures
        ({
            let s1 = grown(front1, separator, n1, width);
            let s2 = grown(front2, separator, n2, width);
            &&& s1.len() == s2.len()
            &&& text::sorts_before(s1, s2) <==> text::sorts_before(front1, front2) || (front1
                == front2 && n1 < n2)
            &&& s1 == s2 <==> front1 == front2 && n1 == n2
        }),
{
    lemma_field(n1, width);
    lemma_field(n2, width);
    let field1 = journal::padded(n1, width);
    let field2 = journal::padded(n2, width);
    text::lemma_digits_sort(field1, field2);
    text::lemma_sorts_strictly(separator);
    text::lemma_sorts_by_parts(front1, separator, front2, separator);
    text::lemma_sorts_by_parts(front1 + separator, field1, front2 + separator, field2);
}

// The text of fields.
spec fn stamp(f: StampFields) -> Seq<char> {
    let year = journal::padded(f.year, 4);
    let month = grown(year, "-"@, f.month, 2);
    let day = grown(month, "-"@, f.day, 2);
    let hour = grown(day, "T"@, f.hour, 2);
    let minute = grown(hour, ":"@, f.minute, 2);
    let second = grown(minute, ":"@, f.second, 2);
    grown(second, "."@, f.millis, 3) + "Z"@
}

/// Whether `f` comes before `g`, the greater fields counting first.
pub open spec fn earlier(f: StampFields, g: StampFields) -> bool {
    f.year < g.year || (f.year == g.year && (f.month < g.month || (f.month == g.month && (f.day
        < g.day || (f.day == g.day && (f.hour < g.hour || (f.hour == g.hour && (f.minute < g.minute
        || (f.minute == g.minute && (f.second < g.second || (f.second == g.second && f.millis
        < g.millis)))))))))))
}

proof fn lemma_stamps_sort(f: StampFields, g: StampFields)
    requires
        in_range(f),
        in_range(g),
    ensures
        text::sorts_before(stamp(f), stamp(g)) <==> earlier(f, g),
        stamp(f) == stamp(g) <==> f == g,
{
    lemma_field(f.year, 4);
    lemma_field(g.year, 4);
    let year1 = journal::padded(f.year, 4);
    let year2 = journal::padded(g.year, 4);
    text::lemma_digits_sort(year1, year2);
    lemma_grown(year1, year2, "-"@, f.month, g.month, 2);
    let month1 = grown(year1, "-"@, f.month, 2);
    let month2 = grown(year2, "-"@, g.month, 2);
    lemma_grown(month1, month2, "-"@, f.day, g.day, 2);
    let day1 = grown(month1, "-"@, f.day, 2);
    let day2 = grown(month2, "-"@, g.day, 2);
    lemma_grown(day1, day2, "T"@, f.hour, g.hour, 2);
    let hour1 = grown(day1, "T"@, f.hour, 2);
    let hour2 = grown(day2, "T"@, g.hour, 2);
    lemma_grown(hour1, hour2, ":"@, f.minute, g.minute, 2);
    let minute1 = grown(hour1, ":"@, f.minute, 2);
    let minute2 = grown(hour2, ":"@, g.minute, 2);
    lemma_grown(minute1, minute2, ":"@, f.second, g.second, 2);
    let second1 = grown(minute1, ":"@, f.second, 2);
    let second2 = grown(minute2, ":"@, g.second, 2);
    lemma_grown(second1, second2, "."@, f.millis, g.millis, 3);
    let millis1 = grown(second1, "."@, f.millis, 3);
    let millis2 = grown(second2, "."@, g.millis, 3);
    text::lemma_sorts_strictly("Z"@);
    text::lemma_sorts_by_parts(millis1, "Z"@, millis2, "Z"@);
}

proof fn lemma_earlier(f: StampFields, g: StampFields)
    requires
        in_range(f),
        in_range(g),
        earlier(f, g),
    ensures
        moment_of(f).0 < moment_of(g).0 || (moment_of(f).0 == moment_of(g).0 && moment_of(f).1
            < moment_of(g).1),
{
    if f.year != g.year || f.month != g.month || f.day != g.day {
        calendar::law_day_number_increases(f.year, f.month, f.day, g.year, g.month, g.day);
    }
}

// ---- the laws -------------------------------------------------------------

/// The number in the digits of `ts` from `start` up to `end`.
pub open spec fn number_in(ts: Seq<char>, start: int, end: int) -> int {
    text::number_value(ts.subrange(start, end)) as int
}

/// The fields of a text of the form `YYYY-MM-DDTHH:MM:SS.sssZ`.
pub open spec fn fields_in(ts: Seq<char>) -> StampFields {
    StampFields {
        year: number_in(ts, 0, 4),
        month: number_in(ts, 5, 7),
        day: number_in(ts, 8, 10),
        hour: number_in(ts, 11, 13),
        minute: number_in(ts, 14, 16),
        second: number_in(ts, 17, 19),
        millis: number_in(ts, 20, 23),
    }
}

/// Whether `ts` has the form `YYYY-MM-DDTHH:MM:SS.sssZ`: 24 characters, digits
/// but for the seven separators.
pub open spec fn has_stamp_form(ts: Seq<char>) -> bool {
    &&& ts.len() == 24
    &&& ts[4] == '-' && ts[7] == '-' && ts[10] == 'T'
    &&& ts[13] == ':' && ts[16] == ':' && ts[19] == '.' && ts[23] == 'Z'
    &&& text::all_digits(ts.subrange(0, 4))
    &&& text::all_digits(ts.subrange(5, 7))
    &&& text::all_digits(ts.subrange(8, 10))
    &&& text::all_digits(ts.subrange(11, 13))
    &&& text::all_digits(ts.subrange(14, 16))
    &&& text::all_digits(ts.subrange(17, 19))
    &&& text::all_digits(ts.subrange(20, 23))
}

proof fn lemma_stamp_form(f: StampFields)
    requires
        in_range(f),
    ensures
        has_stamp_form(stamp(f)),
        fields_in(stamp(f)) == f,
{
    reveal_strlit("-");
    reveal_strlit("T");
    reveal_strlit(":");
    reveal_strlit(".");
    reveal_strlit("Z");
    lemma_field(f.year, 4);
    lemma_field(f.month, 2);
    lemma_field(f.day, 2);
    lemma_field(f.hour, 2);
    lemma_field(f.minute, 2);
    lemma_field(f.second, 2);
    lemma_field(f.millis, 3);
    let ts = stamp(f);
    assert(ts.subrange(0, 4) =~= journal::padded(f.year, 4));
    assert(ts.subrange(5, 7) =~= journal::padded(f.month, 2));
    assert(ts.subrange(8, 10) =~= journal::padded(f.day, 2));
    assert(ts.subrange(11, 13) =~= journal::padded(f.hour, 2));
    assert(ts.subrange(14, 16) =~= journal::padded(f.minute, 2));
    assert(ts.subrange(17, 19) =~= journal::padded(f.second, 2));
    assert(ts.subrange(20, 23) =~= journal::padded(f.millis, 3));
}

proof fn lemma_timestamp(secs: int, millis: nat)
    requires
        has_four_digit_year(secs),
    ensures
        journal::timestamp(secs, millis) == stamp(fields_of(secs, millis)),
{
}

/// A time stamp of the years 0 to 9999 has the form
/// `YYYY-MM-DDTHH:MM:SS.sssZ`, and every field in it is in its range.
pub proof fn law_timestamp_form(secs: int, millis: nat)
    requires
        has_four_digit_year(secs),
        millis < 1000,
    ensures
        has_stamp_form(journal::timestamp(secs, millis)),
        in_range(fields_in(journal::timestamp(secs, millis))),
{
    lemma_fields(secs, millis);
    lemma_timestamp(secs, millis);
    lemma_stamp_form(fields_of(secs, millis));
}

/// A time stamp of the years 0 to 9999, read back as a time of UTC, gives the
/// moment that it was made of.
pub proof fn law_timestamp_reads_back(secs: int, millis: nat)
    requires
        has_four_digit_year(secs),
        millis < 1000,
    ensures
        moment_of(fields_in(journal::timestamp(secs, millis))) == (secs, millis as int),
{
    lemma_fields(secs, millis);
    lemma_timestamp(secs, millis);
    lemma_stamp_form(fields_of(secs, millis));
}

/// Time stamps of the years 0 to 9999 sort as text the way their moments
/// follow each other, and are equal only if the moments are.
pub proof fn law_timestamp_orders(s1: int, m1: nat, s2: int, m2: nat)
    requires
        has_four_digit_year(s1),
        has_four_digit_year(s2),
        m1 < 1000,
        m2 < 1000,
    ensures
        text::sorts_before(journal::timestamp(s1, m1), journal::timestamp(s2, m2)) <==> s1 < s2 || (
        s1 == s2 && m1 < m2),
        journal::timestamp(s1, m1) == journal::timestamp(s2, m2) <==> s1 == s2 && m1 == m2,
{
    let f = fields_of(s1, m1);
    let g = fields_of(s2, m2);
    lemma_fields(s1, m1);
    lemma_fields(s2, m2);
    lemma_timestamp(s1, m1);
    lemma_timestamp(s2, m2);
    lemma_stamps_sort(f, g);
    if earlier(f, g) {
        lemma_earlier(f, g);
    } else if earlier(g, f) {
        lemma_earlier(g, f);
    } else {
        assert(f == g);
    }
}

/// The text of a moment of the years 0 to 9999 has the form
/// `YYYY-MM-DDTHH:MM:SS.sssZ` and reads back to that moment.
pub proof fn law_moment_text_reads_back(secs: i64, millis: u32, ts: String)
    requires
        call_ensures(journal::iso8601_from_secs, (secs, millis), ts),
        -62_167_219_200 <= secs <= 253_402_300_799,
        millis < 1000,
    ensures
        has_stamp_form(ts@),
        in_range(fields_in(ts@)),
        moment_of(fields_in(ts@)) == (secs as int, millis as int),
{
    law_four_digit_seconds(secs as int);
    law_timestamp_form(secs as int, millis as nat);
    law_timestamp_reads_back(secs as int, millis as nat);
}

/// Whether `s` is the year `year`: at least four characters, the sign of a
/// negative one among them, and no more zeros in front than that takes.
pub open spec fn writes_year(s: Seq<char>, year: int) -> bool {
    let digits = if year < 0 {
        s.skip(1)
    } else {
        s
    };
    &&& s.len() >= 4
    &&& year < 0 ==> s[0] == '-'
    &&& text::all_digits(digits)
    &&& text::number_value(digits) == (if year < 0 {
        -year
    } else {
        year
    })
    &&& s.len() > 4 ==> digits[0] != '0'
}

/// Whether `s` is the part behind the year: `-MM-DDTHH:MM:SS.sssZ`, with the
/// month, the day, the second of the day and the milliseconds in it.
pub open spec fn writes_rest(s: Seq<char>, month: int, day: int, second: int, millis: int) -> bool {
    &&& s.len() >= 20
    &&& s[0] == '-' && s[3] == '-' && s[6] == 'T'
    &&& s[9] == ':' && s[12] == ':' && s[15] == '.' && s.last() == 'Z'
    &&& text::all_digits(s.subrange(1, 3)) && number_in(s, 1, 3) == month
    &&& text::all_digits(s.subrange(4, 6)) && number_in(s, 4, 6) == day
    &&& text::all_digits(s.subrange(7, 9)) && text::all_digits(s.subrange(10, 12))
        && text::all_digits(s.subrange(13, 15))
    &&& number_in(s, 7, 9) <= 23 && number_in(s, 10, 12) <= 59 && number_in(s, 13, 15) <= 59
    &&& 3600 * number_in(s, 7, 9) + 60 * number_in(s, 10, 12) + number_in(s, 13, 15) == second
    &&& text::all_digits(s.subrange(16, s.len() - 1)) && number_in(s, 16, s.len() - 1) == millis
    &&& s.len() > 20 ==> s[16] != '0'
}

/// The text of any moment is the year of its day, then the month, the day and
/// the time of that day.
pub proof fn law_moment_text(
    secs: i64,
    millis: u32,
    ts: String,
    days: i64,
    date: (i64, u32, u32),
)
    requires
        call_ensures(journal::iso8601_from_secs, (secs, millis), ts),
        days == secs as int / 86_400,
        call_ensures(calendar::civil_from_days, (days,), date),
    ensures
        exists|year: Seq<char>, rest: Seq<char>|
            {
                &&& ts@ == #[trigger] (year + rest)
                &&& writes_year(year, date.0 as int)
                &&& writes_rest(
                    rest,
                    date.1 as int,
                    date.2 as int,
                    secs as int - 86_400 * days,
                    millis as int,
                )
            },
{
    reveal_strlit("-");
    reveal_strlit("T");
    reveal_strlit(":");
    reveal_strlit(".");
    reveal_strlit("Z");
    let second = secs as int % 86_400;
    assert(second == secs as int - 86_400 * days);
    let month = journal::padded(date.1 as int, 2);
    let day = journal::padded(date.2 as int, 2);
    let hours = journal::padded(second / 3600, 2);
    let minutes = journal::padded((second % 3600) / 60, 2);
    let seconds = journal::padded(second % 60, 2);
    let fraction = journal::padded(millis as int, 3);
    lemma_field(date.1 as int, 2);
    lemma_field(date.2 as int, 2);
    lemma_field(second / 3600, 2);
    lemma_field((second % 3600) / 60, 2);
    lemma_field(second % 60, 2);
    text_laws::law_padded(millis as nat, 3);
    let year = journal::year_text(date.0 as int);
    let rest = "-"@ + month + "-"@ + day + "T"@ + hours + ":"@ + minutes + ":"@ + seconds + "."@
        + fraction + "Z"@;
    assert(ts@ =~= year + rest);
    assert(rest.subrange(1, 3) =~= month);
    assert(rest.subrange(4, 6) =~= day);
    assert(rest.subrange(7, 9) =~= hours);
    assert(rest.subrange(10, 12) =~= minutes);
    assert(rest.subrange(13, 15) =~= seconds);
    assert(rest.subrange(16, rest.len() - 1) =~= fraction);
    assert(rest[16] == fraction[0]);
    assert((second % 3600) % 60 == second % 60);
    assert(second == 3600 * (second / 3600) + 60 * ((second % 3600) / 60) + second % 60);
    if date.0 >= 0 {
        text_laws::law_padded(date.0 as nat, 4);
    } else {
        text_laws::law_padded((-date.0) as nat, 3);
        assert(year.skip(1) =~= text::zero_padded(text::decimal((-date.0) as nat), 3));
    }
    assert(writes_year(year, date.0 as int));
}

} // verus!
