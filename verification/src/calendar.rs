//! The proleptic Gregorian calendar and the clock of one day, in whole seconds,
//! counted from 1970-01-01T00:00:00 in the fixed reference frame.

use vstd::prelude::*;

verus! {

/// The first year that a calendar date may name.
pub const MIN_YEAR: i32 = -262143;

/// The last year that a calendar date may name.
pub const MAX_YEAR: i32 = 262142;

/// Seconds in one day; no day has a leap second here.
pub const SECONDS_PER_DAY: i64 = 86400;

/// Whether `year` has a 29th of February.
pub open spec fn is_leap_year(year: int) -> bool {
    year % 4 == 0 && (year % 100 != 0 || year % 400 == 0)
}

/// The number of days of `year`.
pub open spec fn days_in_year(year: int) -> int {
    if is_leap_year(year) {
        366
    } else {
        365
    }
}

/// The number of days of month `month` (1 to 12) of `year`.
pub open spec fn days_in_month(year: int, month: int) -> int {
    if month == 2 {
        if is_leap_year(year) {
            29
        } else {
            28
        }
    } else if month == 4 || month == 6 || month == 9 || month == 11 {
        30
    } else {
        31
    }
}

/// Days from 1970-01-01 to the first of January of `year`; negative before 1970.
pub open spec fn days_before_year(year: int) -> int
    decreases
            (if year >= 1970 {
                year - 1970
            } else {
                1970 - year
            }),
{
    if year > 1970 {
        days_before_year(year - 1) + days_in_year(year - 1)
    } else if year < 1970 {
        days_before_year(year + 1) - days_in_year(year)
    } else {
        0
    }
}

/// Days from the first of January of `year` to the first of `month` of that year.
pub open spec fn days_before_month(year: int, month: int) -> int
    decreases month,
{
    if month <= 1 {
        0
    } else {
        days_before_month(year, month - 1) + days_in_month(year, month - 1)
    }
}

/// A calendar date as a mathematical value.
pub struct DateModel {
    pub year: int,
    pub month: int,
    pub day: int,
}

impl DateModel {
    /// The day exists in the calendar and its year is one that a date may name.
    pub open spec fn is_valid(self) -> bool {
        &&& MIN_YEAR <= self.year <= MAX_YEAR
        &&& 1 <= self.month <= 12
        &&& 1 <= self.day <= days_in_month(self.year, self.month)
    }

    /// Days from 1970-01-01 to this date; negative before it.
    pub open spec fn days_from_epoch(self) -> int {
        days_before_year(self.year) + days_before_month(self.year, self.month) + (self.day - 1)
    }
}

/// A time of day as a mathematical value.
pub struct TimeModel {
    pub hour: int,
    pub minute: int,
    pub second: int,
}

impl TimeModel {
    /// Each field is in the range of a clock without leap seconds.
    pub open spec fn is_valid(self) -> bool {
        &&& 0 <= self.hour < 24
        &&& 0 <= self.minute < 60
        &&& 0 <= self.second < 60
    }

    /// Seconds from midnight to this time.
    pub open spec fn seconds_from_midnight(self) -> int {
        self.hour * 3600 + self.minute * 60 + self.second
    }
}

/// A date and a time of day in the fixed reference frame, as a mathematical value.
pub struct DateTimeModel {
    pub date: DateModel,
    pub time: TimeModel,
}

impl DateTimeModel {
    /// Both parts are valid.
    pub open spec fn is_valid(self) -> bool {
        self.date.is_valid() && self.time.is_valid()
    }

    /// Seconds from 1970-01-01T00:00:00 to this instant; negative before it.
    pub open spec fn epoch_seconds(self) -> int {
        self.date.days_from_epoch() * 86400 + self.time.seconds_from_midnight()
    }
}

/// A day of the calendar. Every value is a day that exists.
#[derive(Clone, Copy, Debug, PartialEq, Eq, Structural)]
pub struct CalendarDate {
    year: i32,
    month: u32,
    day: u32,
}

impl View for CalendarDate {
    type V = DateModel;

    closed spec fn view(&self) -> DateModel {
        DateModel { year: self.year as int, month: self.month as int, day: self.day as int }
    }
}

impl CalendarDate {
    #[verifier::type_invariant]
    closed spec fn inv(self) -> bool {
        self@.is_valid()
    }

    /// The date of the given year, month and day, which the caller knows to exist.
    pub fn new(year: i32, month: u32, day: u32) -> (date: CalendarDate)
        requires
            (DateModel { year: year as int, month: month as int, day: day as int }).is_valid(),
        ensures
            date@ == (DateModel { year: year as int, month: month as int, day: day as int }),
    {
        CalendarDate { year, month, day }
    }

    /// The date of the given year, month and day, or `None` where the calendar has no
    /// such day or the year is out of range.
    pub fn from_ymd_opt(year: i32, month: u32, day: u32) -> (date: Option<CalendarDate>)
        ensures
            date.is_some() <==> (DateModel {
                year: year as int,
                month: month as int,
                day: day as int,
            }).is_valid(),
            date matches Some(d) ==> d@ == (DateModel {
                year: year as int,
                month: month as int,
                day: day as int,
            }),
    {
        if year < MIN_YEAR || year > MAX_YEAR || month < 1 || month > 12 || day < 1 {
            return None;
        }
        if day > month_length(year, month) {
            return None;
        }
        Some(CalendarDate { year, month, day })
    }

    /// The year; 0 is the year before year 1.
    pub fn year(&self) -> (year: i32)
        ensures
            year == self@.year,
            self@.is_valid(),
    {
        proof {
            use_type_invariant(self);
        }
        self.year
    }

    /// The month, from 1 to 12.
    pub fn month(&self) -> (month: u32)
        ensures
            month == self@.month,
            self@.is_valid(),
    {
        proof {
            use_type_invariant(self);
        }
        self.month
    }

    /// The day of the month, from 1.
    pub fn day(&self) -> (day: u32)
        ensures
            day == self@.day,
            self@.is_valid(),
    {
        proof {
            use_type_invariant(self);
        }
        self.day
    }
}

/// Whether `year` has a 29th of February.
pub fn leap_year(year: i32) -> (leap: bool)
    ensures
        leap == is_leap_year(year as int),
{
    let shifted: u64 = (year as i64 + 2147484000) as u64;
    shifted % 4 == 0 && (shifted % 100 != 0 || shifted % 400 == 0)
}

/// The number of days of month `month` of `year`.
pub fn month_length(year: i32, month: u32) -> (days: u32)
    requires
        1 <= month <= 12,
    ensures
        days == days_in_month(year as int, month as int),
{
    if month == 2 {
        if leap_year(year) {
            29
        } else {
            28
        }
    } else if month == 4 || month == 6 || month == 9 || month == 11 {
        30
    } else {
        31
    }
}

/// A time of day in whole seconds. Every value is a time that a clock shows.
#[derive(Clone, Copy, Debug, PartialEq, Eq, Structural)]
pub struct ClockTime {
    hour: u32,
    minute: u32,
    second: u32,
}

impl View for ClockTime {
    type V = TimeModel;

    closed spec fn view(&self) -> TimeModel {
        TimeModel { hour: self.hour as int, minute: self.minute as int, second: self.second as int }
    }
}

impl ClockTime {
    #[verifier::type_invariant]
    closed spec fn inv(self) -> bool {
        self@.is_valid()
    }

    /// The time of the given hour, minute and second, which the caller knows to be in range.
    pub fn new(hour: u32, minute: u32, second: u32) -> (time: ClockTime)
        requires
            (TimeModel { hour: hour as int, minute: minute as int, second: second as int }).is_valid(),
        ensures
            time@ == (TimeModel { hour: hour as int, minute: minute as int, second: second as int }),
    {
        ClockTime { hour, minute, second }
    }

    /// The time of the given hour, minute and second, or `None` where one of them is out
    /// of range.
    pub fn from_hms_opt(hour: u32, minute: u32, second: u32) -> (time: Option<ClockTime>)
        ensures
            time.is_some() <==> (TimeModel {
                hour: hour as int,
                minute: minute as int,
                second: second as int,
            }).is_valid(),
            time matches Some(t) ==> t@ == (TimeModel {
                hour: hour as int,
                minute: minute as int,
                second: second as int,
            }),
    {
        if hour >= 24 || minute >= 60 || second >= 60 {
            return None;
        }
        Some(ClockTime { hour, minute, second })
    }

    /// The hour, from 0 to 23.
    pub fn hour(&self) -> (hour: u32)
        ensures
            hour == self@.hour,
            self@.is_valid(),
    {
        proof {
            use_type_invariant(self);
        }
        self.hour
    }

    /// The minute, from 0 to 59.
    pub fn minute(&self) -> (minute: u32)
        ensures
            minute == self@.minute,
            self@.is_valid(),
    {
        proof {
            use_type_invariant(self);
        }
        self.minute
    }

    /// The second, from 0 to 59.
    pub fn second(&self) -> (second: u32)
        ensures
            second == self@.second,
            self@.is_valid(),
    {
        proof {
            use_type_invariant(self);
        }
        self.second
    }
}

/// A date and a time of day in the fixed reference frame, in whole seconds.
#[derive(Clone, Copy, Debug, PartialEq, Eq, Structural)]
pub struct UtcDateTime {
    date: CalendarDate,
    time: ClockTime,
}

impl View for UtcDateTime {
    type V = DateTimeModel;

    closed spec fn view(&self) -> DateTimeModel {
        DateTimeModel { date: self.date@, time: self.time@ }
    }
}

impl UtcDateTime {
    /// The instant at which the clock shows `time` on the day `date`.
    pub fn new(date: CalendarDate, time: ClockTime) -> (instant: UtcDateTime)
        ensures
            instant@ == (DateTimeModel { date: date@, time: time@ }),
            instant@.is_valid(),
    {
        proof {
            use_type_invariant(&date);
            use_type_invariant(&time);
        }
        UtcDateTime { date, time }
    }

    /// The day of this instant.
    pub fn date(&self) -> (date: CalendarDate)
        ensures
            date@ == self@.date,
            self@.is_valid(),
    {
        proof {
            use_type_invariant(&self.date);
            use_type_invariant(&self.time);
        }
        self.date
    }

    /// The time of day of this instant.
    pub fn time(&self) -> (time: ClockTime)
        ensures
            time@ == self@.time,
            self@.is_valid(),
    {
        proof {
            use_type_invariant(&self.date);
            use_type_invariant(&self.time);
        }
        self.time
    }

    /// Seconds from 1970-01-01T00:00:00 to this instant; negative before it.
    pub fn timestamp(&self) -> (seconds: i64)
        ensures
            seconds == self@.epoch_seconds(),
            self@.is_valid(),
            MIN_SECONDS <= seconds <= MAX_SECONDS,
    {
        let days: i64 = days_from_epoch(&self.date);
        let hour: i64 = self.time.hour() as i64;
        let minute: i64 = self.time.minute() as i64;
        let second: i64 = self.time.second() as i64;
        proof {
            use_type_invariant(&self.date);
            lemma_epoch_seconds_in_range(self@);
        }
        days * SECONDS_PER_DAY + hour * 3600 + minute * 60 + second
    }
}

/// The first instant that has a calendar date: the start of the year `MIN_YEAR`.
pub const MIN_SECONDS: i64 = -8334601228800;

/// The last instant that has a calendar date: the last second of the year `MAX_YEAR`.
pub const MAX_SECONDS: i64 = 8210266876799;

/// Leap years from year 1 to `year`, both included, counted backwards before year 1.
pub open spec fn leap_years_through(year: int) -> int {
    year / 4 - year / 100 + year / 400
}

/// One year later the first of January is one year's days further from the epoch.
pub proof fn lemma_year_step(year: int)
    ensures
        days_before_year(year + 1) == days_before_year(year) + days_in_year(year),
{
}

/// From one year to the next the count of leap years grows by one exactly when the
/// later year is a leap year.
pub proof fn lemma_leap_years_step(year: int)
    ensures
        leap_years_through(year) - leap_years_through(year - 1) == (if is_leap_year(year) {
            1int
        } else {
            0
        }),
{
    assert(year / 4 - (year - 1) / 4 == (if year % 4 == 0 {
        1int
    } else {
        0
    }));
    assert(year / 100 - (year - 1) / 100 == (if year % 100 == 0 {
        1int
    } else {
        0
    }));
    assert(year / 400 - (year - 1) / 400 == (if year % 400 == 0 {
        1int
    } else {
        0
    }));
    if year % 100 == 0 {
        assert(year == 4 * (25 * (year / 100)));
        assert(year % 4 == 0);
    }
    if year % 400 == 0 {
        assert(year == 100 * (4 * (year / 400)));
        assert(year % 100 == 0);
    }
}

/// The day count to the first of January, without recursion.
pub proof fn lemma_days_before_year_closed(year: int)
    ensures
        days_before_year(year) == 365 * (year - 1970) + leap_years_through(year - 1) - 477,
    decreases
            (if year >= 1970 {
                year - 1970
            } else {
                1970 - year
            }),
{
    if year > 1970 {
        lemma_days_before_year_closed(year - 1);
        lemma_leap_years_step(year - 1);
    } else if year < 1970 {
        lemma_days_before_year_closed(year + 1);
        lemma_leap_years_step(year);
    } else {
        assert(leap_years_through(1969) == 477);
    }
}

/// The day count to the first of a month, without recursion.
pub proof fn lemma_days_before_month_closed(year: int, month: int)
    requires
        1 <= month <= 13,
    ensures
        days_before_month(year, month) == (if month == 1 {
            0int
        } else if month == 2 {
            31
        } else {
            (if is_leap_year(year) {
                1int
            } else {
                0
            }) + (if month == 3 {
                59int
            } else if month == 4 {
                90
            } else if month == 5 {
                120
            } else if month == 6 {
                151
            } else if month == 7 {
                181
            } else if month == 8 {
                212
            } else if month == 9 {
                243
            } else if month == 10 {
                273
            } else if month == 11 {
                304
            } else if month == 12 {
                334
            } else {
                365
            })
        }),
{
    reveal_with_fuel(days_before_month, 14);
}

/// A later year starts after every day of an earlier year.
pub proof fn lemma_years_ordered(earlier: int, later: int)
    requires
        earlier < later,
    ensures
        days_before_year(earlier) + days_in_year(earlier) <= days_before_year(later),
    decreases later - earlier,
{
    lemma_year_step(earlier);
    if earlier + 1 < later {
        lemma_years_ordered(earlier + 1, later);
        lemma_year_step(later - 1);
    }
}

/// Of two valid dates, the one that comes first in the calendar is fewer days from
/// the epoch.
pub proof fn lemma_days_from_epoch_ordered(a: DateModel, b: DateModel)
    requires
        a.is_valid(),
        b.is_valid(),
        a.year < b.year || (a.year == b.year && (a.month < b.month || (a.month == b.month
            && a.day < b.day))),
    ensures
        a.days_from_epoch() < b.days_from_epoch(),
{
    lemma_days_before_month_closed(a.year, a.month);
    lemma_days_before_month_closed(b.year, b.month);
    if a.year < b.year {
        lemma_years_ordered(a.year, b.year);
    }
}

/// A valid date is determined by its day count.
pub proof fn lemma_days_from_epoch_injective(a: DateModel, b: DateModel)
    requires
        a.is_valid(),
        b.is_valid(),
        a.days_from_epoch() == b.days_from_epoch(),
    ensures
        a == b,
{
    if a.year < b.year || (a.year == b.year && (a.month < b.month || (a.month == b.month && a.day
        < b.day))) {
        lemma_days_from_epoch_ordered(a, b);
    } else if a != b {
        lemma_days_from_epoch_ordered(b, a);
    }
}

/// A valid instant is determined by its count of seconds: no two valid combinations
/// of date and time are the same number of seconds from the epoch.
pub proof fn lemma_epoch_seconds_injective(a: DateTimeModel, b: DateTimeModel)
    requires
        a.is_valid(),
        b.is_valid(),
        a.epoch_seconds() == b.epoch_seconds(),
    ensures
        a == b,
{
    let da = a.date.days_from_epoch();
    let db = b.date.days_from_epoch();
    let sa = a.time.seconds_from_midnight();
    let sb = b.time.seconds_from_midnight();
    assert(0 <= sa < 86400 && 0 <= sb < 86400);
    assert(da == db && sa == sb);
    lemma_days_from_epoch_injective(a.date, b.date);
    assert(a.time.hour == b.time.hour && a.time.minute == b.time.minute);
}

/// Every valid instant lies between the first second of `MIN_YEAR` and the last of
/// `MAX_YEAR`.
pub proof fn lemma_epoch_seconds_in_range(instant: DateTimeModel)
    requires
        instant.is_valid(),
    ensures
        MIN_SECONDS <= instant.epoch_seconds() <= MAX_SECONDS,
{
    let year = instant.date.year;
    lemma_days_before_year_closed(MIN_YEAR as int);
    lemma_days_before_year_closed(MAX_YEAR + 1);
    lemma_days_before_month_closed(year, instant.date.month);
    if MIN_YEAR < year {
        lemma_years_ordered(MIN_YEAR as int, year);
    }
    lemma_year_step(year);
    if year < MAX_YEAR {
        lemma_years_ordered(year, MAX_YEAR as int);
        lemma_year_step(MAX_YEAR as int);
    }
}

/// The two bounds are reached: by the first second of `MIN_YEAR` and by the last
/// second of `MAX_YEAR`.
pub proof fn lemma_range_ends()
    ensures
        (DateTimeModel {
            date: DateModel { year: MIN_YEAR as int, month: 1, day: 1 },
            time: TimeModel { hour: 0, minute: 0, second: 0 },
        }).epoch_seconds() == MIN_SECONDS,
        (DateTimeModel {
            date: DateModel { year: MAX_YEAR as int, month: 12, day: 31 },
            time: TimeModel { hour: 23, minute: 59, second: 59 },
        }).epoch_seconds() == MAX_SECONDS,
{
    lemma_days_before_year_closed(MIN_YEAR as int);
    lemma_days_before_year_closed(MAX_YEAR as int);
    lemma_days_before_month_closed(MIN_YEAR as int, 1);
    lemma_days_before_month_closed(MAX_YEAR as int, 12);
}

/// Days from 1970-01-01 to `date`; negative before it.
pub fn days_from_epoch(date: &CalendarDate) -> (days: i64)
    ensures
        days == date@.days_from_epoch(),
        date@.is_valid(),
        -96465292 <= days <= 95026236,
{
    let year: i32 = date.year();
    let month: u32 = date.month();
    let day: u32 = date.day();
    // Count leap years from a year far enough back that nothing is negative.
    let shifted: u64 = (year as i64 + 262399) as u64;
    let leaps: i64 = (shifted / 4 - shifted / 100 + shifted / 400) as i64 - 63632;
    let leap: bool = leap_year(year);
    let before_month: i64 = if month == 1 {
        0
    } else if month == 2 {
        31
    } else {
        let base: i64 = if month == 3 {
            59
        } else if month == 4 {
            90
        } else if month == 5 {
            120
        } else if month == 6 {
            151
        } else if month == 7 {
            181
        } else if month == 8 {
            212
        } else if month == 9 {
            243
        } else if month == 10 {
            273
        } else if month == 11 {
            304
        } else {
            334
        };
        if leap {
            base + 1
        } else {
            base
        }
    };
    proof {
        lemma_days_before_year_closed(year as int);
        lemma_days_before_month_closed(year as int, month as int);
        let before: int = year - 1;
        assert(shifted == before + 262400);
        assert(shifted / 4 == before / 4 + 65600);
        assert(shifted / 100 == before / 100 + 2624);
        assert(shifted / 400 == before / 400 + 656);
        assert(leaps == leap_years_through(before));
        lemma_epoch_seconds_in_range(
            DateTimeModel { date: date@, time: TimeModel { hour: 0, minute: 0, second: 0 } },
        );
        lemma_epoch_seconds_in_range(
            DateTimeModel { date: date@, time: TimeModel { hour: 23, minute: 59, second: 59 } },
        );
    }
    365 * (year as i64 - 1970) + leaps - 477 + before_month + (day as i64 - 1)
}

} // verus!
