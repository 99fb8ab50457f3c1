//! The instant of compilation: captured once from the clock, read many times.

use crate::calendar::{
    lemma_epoch_seconds_in_range, CalendarDate, ClockTime, DateModel, DateTimeModel, TimeModel,
    UtcDateTime, MAX_SECONDS, MIN_SECONDS,
};
use chrono::{Datelike, Timelike};
use vstd::pervasive::unreached;
use vstd::prelude::*;

verus! {

/// The date and time that six plain fields name: year, month, day, hour, minute, second.
pub open spec fn civil_model(fields: (i32, u32, u32, u32, u32, u32)) -> DateTimeModel {
    DateTimeModel {
        date: DateModel { year: fields.0 as int, month: fields.1 as int, day: fields.2 as int },
        time: TimeModel { hour: fields.3 as int, minute: fields.4 as int, second: fields.5 as int },
    }
}

/// Reads the clock through `chrono::Utc::now` and returns the instant's `timestamp`:
/// whole seconds since 1970-01-01T00:00:00 UTC, the fraction of a second dropped.
///
/// Trusted: the reading is an instant that `chrono` can hold as a date and a time,
/// so its count of seconds lies between `MIN_SECONDS` and `MAX_SECONDS`. `chrono`
/// stops the program where the system clock stands before 1970.
#[verifier::external_body]
fn utc_now_seconds() -> (seconds: i64)
    ensures
        MIN_SECONDS <= seconds <= MAX_SECONDS,
{
    chrono::Utc::now().timestamp()
}

/// Splits a count of seconds since 1970-01-01T00:00:00 UTC into calendar date and
/// time of day, with `chrono::DateTime::from_timestamp` and the field accessors of
/// `chrono::Datelike` and `chrono::Timelike`.
///
/// Trusted: `chrono` has a date for exactly the counts from `MIN_SECONDS` to
/// `MAX_SECONDS`; the fields it returns name a day of the proleptic Gregorian
/// calendar and a time of day without leap second; and that date and time are
/// `seconds` seconds away from the epoch.
#[verifier::external_body]
fn civil_from_seconds(seconds: i64) -> (fields: Option<(i32, u32, u32, u32, u32, u32)>)
    ensures
        fields.is_some() <==> MIN_SECONDS <= seconds <= MAX_SECONDS,
        fields matches Some(f) ==> civil_model(f).is_valid() && civil_model(f).epoch_seconds()
            == seconds,
{
    match chrono::DateTime::from_timestamp(seconds, 0) {
        Some(t) => Some((t.year(), t.month(), t.day(), t.hour(), t.minute(), t.second())),
        None => None,
    }
}

/// The instant at which the compilation is taken to happen, in whole seconds and in
/// the fixed reference frame. It holds the instant twice, as date and time and as a
/// count of seconds since 1970-01-01T00:00:00, and the two always agree.
#[derive(Clone, Copy, Debug, PartialEq, Eq, Structural)]
pub struct CompileMoment {
    instant: UtcDateTime,
    seconds: i64,
}

impl View for CompileMoment {
    type V = DateTimeModel;

    closed spec fn view(&self) -> DateTimeModel {
        self.instant@
    }
}

impl CompileMoment {
    #[verifier::type_invariant]
    closed spec fn inv(self) -> bool {
        self@.is_valid() && self.seconds == self@.epoch_seconds()
    }

    /// The moment `seconds` seconds after 1970-01-01T00:00:00, or before it where
    /// `seconds` is negative; `None` where no calendar date reaches that far.
    pub fn from_timestamp(seconds: i64) -> (moment: Option<CompileMoment>)
        ensures
            moment.is_some() <==> MIN_SECONDS <= seconds <= MAX_SECONDS,
            moment matches Some(m) ==> m@.is_valid() && m@.epoch_seconds() == seconds,
    {
        match civil_from_seconds(seconds) {
            Some(fields) => {
                let date = CalendarDate::new(fields.0, fields.1, fields.2);
                let time = ClockTime::new(fields.3, fields.4, fields.5);
                Some(CompileMoment { instant: UtcDateTime::new(date, time), seconds })
            },
            None => None,
        }
    }

    /// The moment that `instant` names.
    pub fn from_datetime(instant: UtcDateTime) -> (moment: CompileMoment)
        ensures
            moment@ == instant@,
            moment@.is_valid(),
    {
        let seconds: i64 = instant.timestamp();
        CompileMoment { instant, seconds }
    }

    /// The present instant, read from the clock. Each call reads the clock anew: to
    /// read it once per compilation, keep the result.
    pub fn capture() -> (moment: CompileMoment)
        ensures
            moment@.is_valid(),
    {
        let seconds: i64 = utc_now_seconds();
        match CompileMoment::from_timestamp(seconds) {
            Some(moment) => moment,
            None => unreached(),
        }
    }

    /// The moment as date and time of day.
    pub fn instant(&self) -> (instant: UtcDateTime)
        ensures
            instant@ == self@,
            self@.is_valid(),
    {
        proof {
            use_type_invariant(self);
        }
        self.instant
    }

    /// The moment as seconds since 1970-01-01T00:00:00.
    pub fn seconds(&self) -> (seconds: i64)
        ensures
            seconds == self@.epoch_seconds(),
            self@.is_valid(),
            MIN_SECONDS <= seconds <= MAX_SECONDS,
    {
        proof {
            use_type_invariant(self);
            lemma_epoch_seconds_in_range(self@);
        }
        self.seconds
    }
}

} // verus!
