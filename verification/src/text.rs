//! The text of dates and times: fixed-width decimal fields between fixed separators.

use crate::calendar::{CalendarDate, ClockTime, DateModel, DateTimeModel, TimeModel};
use crate::decimal::{decimal, digit_char, push_zero_padded, zero_padded, zeros};
use vstd::prelude::*;
use vstd::string::*;

verus! {

/// A year in at least four digits. A year from 0 to 9999 has no sign; a later one is
/// led by `+`, an earlier one by `-`.
pub open spec fn year_text(year: int) -> Seq<char> {
    if year < 0 {
        seq!['-'] + zero_padded((-year) as nat, 4)
    } else if year > 9999 {
        seq!['+'] + zero_padded(year as nat, 4)
    } else {
        zero_padded(year as nat, 4)
    }
}

/// A date as year, month and day with `-` between: `2024-03-15`.
pub open spec fn date_text(date: DateModel) -> Seq<char> {
    year_text(date.year) + seq!['-'] + zero_padded(date.month as nat, 2) + seq!['-'] + zero_padded(
        date.day as nat,
        2,
    )
}

/// A time of day as hour, minute and second with `:` between: `09:07:22`.
pub open spec fn time_text(time: TimeModel) -> Seq<char> {
    zero_padded(time.hour as nat, 2) + seq![':'] + zero_padded(time.minute as nat, 2) + seq![':']
        + zero_padded(time.second as nat, 2)
}

/// An instant as its date, `T`, its time of day and `Z`: `2024-03-15T09:07:22Z`.
pub open spec fn datetime_text(instant: DateTimeModel) -> Seq<char> {
    date_text(instant.date) + seq!['T'] + time_text(instant.time) + seq!['Z']
}

/// A number under a hundred is padded to its tens digit and its units digit.
pub proof fn lemma_two_digits(n: nat)
    requires
        n < 100,
    ensures
        zero_padded(n, 2) == seq![digit_char(n / 10), digit_char(n % 10)],
{
    reveal_with_fuel(decimal, 3);
    if n < 10 {
        assert(zeros(1) + decimal(n) =~= seq![digit_char(n / 10), digit_char(n % 10)]);
    } else {
        assert(decimal(n) =~= seq![digit_char(n / 10), digit_char(n % 10)]);
    }
}

/// A number under ten thousand is padded to its four digits, thousands first.
pub proof fn lemma_four_digits(n: nat)
    requires
        n < 10000,
    ensures
        zero_padded(n, 4) == seq![
            digit_char(n / 1000),
            digit_char(n / 100 % 10),
            digit_char(n / 10 % 10),
            digit_char(n % 10),
        ],
{
    reveal_with_fuel(decimal, 5);
    let digits = seq![
        digit_char(n / 1000),
        digit_char(n / 100 % 10),
        digit_char(n / 10 % 10),
        digit_char(n % 10),
    ];
    if n < 10 {
        assert(zeros(3) + decimal(n) =~= digits);
    } else if n < 100 {
        assert(decimal(n).len() == 2);
        assert(zeros(2) + decimal(n) =~= digits);
    } else if n < 1000 {
        assert(decimal(n).len() == 3);
        assert(zeros(1) + decimal(n) =~= digits);
    } else {
        assert(decimal(n) =~= digits);
    }
}

/// The text of a date in the years 0 to 9999 is ten characters: the digits of the
/// year, the month and the day of that date, with `-` between.
pub proof fn lemma_date_text_fields(date: DateModel)
    requires
        date.is_valid(),
        0 <= date.year <= 9999,
    ensures
        date_text(date) == seq![
            digit_char((date.year / 1000) as nat),
            digit_char((date.year / 100 % 10) as nat),
            digit_char((date.year / 10 % 10) as nat),
            digit_char((date.year % 10) as nat),
            '-',
            digit_char((date.month / 10) as nat),
            digit_char((date.month % 10) as nat),
            '-',
            digit_char((date.day / 10) as nat),
            digit_char((date.day % 10) as nat),
        ],
{
    lemma_four_digits(date.year as nat);
    lemma_two_digits(date.month as nat);
    lemma_two_digits(date.day as nat);
    assert(date_text(date) =~= seq![
        digit_char((date.year / 1000) as nat),
        digit_char((date.year / 100 % 10) as nat),
        digit_char((date.year / 10 % 10) as nat),
        digit_char((date.year % 10) as nat),
        '-',
        digit_char((date.month / 10) as nat),
        digit_char((date.month % 10) as nat),
        '-',
        digit_char((date.day / 10) as nat),
        digit_char((date.day % 10) as nat),
    ]);
}

/// The text of a time of day is eight characters: the digits of the hour, the
/// minute and the second of that time, with `:` between.
pub proof fn lemma_time_text_fields(time: TimeModel)
    requires
        time.is_valid(),
    ensures
        time_text(time) == seq![
            digit_char((time.hour / 10) as nat),
            digit_char((time.hour % 10) as nat),
            ':',
            digit_char((time.minute / 10) as nat),
            digit_char((time.minute % 10) as nat),
            ':',
            digit_char((time.second / 10) as nat),
            digit_char((time.second % 10) as nat),
        ],
{
    lemma_two_digits(time.hour as nat);
    lemma_two_digits(time.minute as nat);
    lemma_two_digits(time.second as nat);
    assert(time_text(time) =~= seq![
        digit_char((time.hour / 10) as nat),
        digit_char((time.hour % 10) as nat),
        ':',
        digit_char((time.minute / 10) as nat),
        digit_char((time.minute % 10) as nat),
        ':',
        digit_char((time.second / 10) as nat),
        digit_char((time.second % 10) as nat),
    ]);
}

/// Appends the text of `date` to `out`.
pub fn push_date(out: &mut String, date: &CalendarDate)
    ensures
        final(out)@ == old(out)@ + date_text(date@),
{
    let year: i32 = date.year();
    proof {
        reveal_strlit("-");
        reveal_strlit("+");
    }
    if year < 0 {
        out.append("-");
        push_zero_padded(out, (-(year as i64)) as u64, 4);
    } else if year > 9999 {
        out.append("+");
        push_zero_padded(out, year as u64, 4);
    } else {
        push_zero_padded(out, year as u64, 4);
    }
    assert(out@ =~= old(out)@ + year_text(year as int));
    out.append("-");
    push_zero_padded(out, date.month() as u64, 2);
    out.append("-");
    push_zero_padded(out, date.day() as u64, 2);
    assert(final(out)@ =~= old(out)@ + date_text(date@));
}

/// Appends the text of `time` to `out`.
pub fn push_time(out: &mut String, time: &ClockTime)
    ensures
        final(out)@ == old(out)@ + time_text(time@),
{
    proof {
        reveal_strlit(":");
    }
    push_zero_padded(out, time.hour() as u64, 2);
    out.append(":");
    push_zero_padded(out, time.minute() as u64, 2);
    out.append(":");
    push_zero_padded(out, time.second() as u64, 2);
    assert(final(out)@ =~= old(out)@ + time_text(time@));
}

} // verus!
