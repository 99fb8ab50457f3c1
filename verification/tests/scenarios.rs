use compile_time::cache::{MomentCache, ToolchainCache};
use compile_time::calendar::{CalendarDate, ClockTime, UtcDateTime};
use compile_time::diagnostic::QueryFailure;
use compile_time::moment::CompileMoment;
use compile_time::version::{Tag, ToolchainVersion};
use compile_time::{
    date, date_str, datetime, datetime_str, rustc_version, rustc_version_build,
    rustc_version_major, rustc_version_minor, rustc_version_patch, rustc_version_pre,
    rustc_version_str, time, time_str, unix,
};

fn moment_at(year: i32, month: u32, day: u32, hour: u32, minute: u32, second: u32) -> CompileMoment {
    let date = CalendarDate::from_ymd_opt(year, month, day).unwrap();
    let time = ClockTime::from_hms_opt(hour, minute, second).unwrap();
    CompileMoment::from_datetime(UtcDateTime::new(date, time))
}

fn answered(
    major: u64,
    minor: u64,
    patch: u64,
    pre: &str,
    build: &str,
) -> Result<ToolchainVersion, QueryFailure> {
    Ok(ToolchainVersion::new(major, minor, patch, pre, build).unwrap())
}

#[test]
fn compiled_on_15_march_2024_at_09_07_22() {
    let moment = moment_at(2024, 3, 15, 9, 7, 22);
    assert_eq!(date_str(&moment), "2024-03-15");
    assert_eq!(time_str(&moment), "09:07:22");
    assert_eq!(datetime_str(&moment), "2024-03-15T09:07:22Z");
    assert_eq!(unix(&moment), 1710493642);
    assert_eq!(date(&moment), CalendarDate::from_ymd_opt(2024, 3, 15).unwrap());
    assert_eq!(time(&moment), ClockTime::from_hms_opt(9, 7, 22).unwrap());
    assert_eq!(datetime(&moment).timestamp(), 1710493642);
}

#[test]
fn compiled_1710494842_seconds_after_the_epoch() {
    let moment = CompileMoment::from_timestamp(1710494842).unwrap();
    assert_eq!(unix(&moment), 1710494842);
    assert_eq!(date_str(&moment), "2024-03-15");
    assert_eq!(time_str(&moment), "09:27:22");
    assert_eq!(datetime_str(&moment), "2024-03-15T09:27:22Z");
}

#[test]
fn compiled_by_toolchain_1_75_0() {
    let toolchain = answered(1, 75, 0, "", "");
    assert_eq!(rustc_version_str(&toolchain).unwrap(), "1.75.0");
    assert_eq!(rustc_version_major(&toolchain), Ok(1));
    assert_eq!(rustc_version_minor(&toolchain), Ok(75));
    assert_eq!(rustc_version_patch(&toolchain), Ok(0));
    assert_eq!(rustc_version_pre(&toolchain).unwrap(), "");
    assert_eq!(rustc_version_build(&toolchain).unwrap(), "");
    let structured = rustc_version(&toolchain).unwrap();
    assert_eq!(structured.major(), 1);
    assert_eq!(structured.minor(), 75);
    assert_eq!(structured.patch(), 0);
    assert_eq!(*structured.pre(), Tag::Empty);
    assert_eq!(*structured.build(), Tag::Empty);
}

#[test]
fn compiled_by_a_beta_toolchain_with_build_tag() {
    let toolchain = answered(1, 70, 0, "beta.2", "sha.abcdef");
    assert_eq!(rustc_version_str(&toolchain).unwrap(), "1.70.0-beta.2+sha.abcdef");
    assert_eq!(rustc_version_pre(&toolchain).unwrap(), "beta.2");
    assert_eq!(rustc_version_build(&toolchain).unwrap(), "sha.abcdef");
    let structured = rustc_version(&toolchain).unwrap();
    assert_eq!(*structured.pre(), Tag::Text("beta.2".to_string()));
    assert_eq!(*structured.build(), Tag::Text("sha.abcdef".to_string()));
}

#[test]
fn failed_toolchain_stops_every_version_operation() {
    let toolchain: Result<ToolchainVersion, QueryFailure> = Err(QueryFailure::new("not found"));
    let expected = "Failed to get version: not found";
    assert_eq!(rustc_version(&toolchain).unwrap_err().message(), expected);
    assert_eq!(rustc_version_str(&toolchain).unwrap_err().message(), expected);
    assert_eq!(rustc_version_major(&toolchain).unwrap_err().message(), expected);
    assert_eq!(rustc_version_minor(&toolchain).unwrap_err().message(), expected);
    assert_eq!(rustc_version_patch(&toolchain).unwrap_err().message(), expected);
    assert_eq!(rustc_version_pre(&toolchain).unwrap_err().message(), expected);
    assert_eq!(rustc_version_build(&toolchain).unwrap_err().message(), expected);
    assert!(rustc_version_major(&toolchain).unwrap_err().message().ends_with("not found"));

    let moment = moment_at(2024, 3, 15, 9, 7, 22);
    assert_eq!(date_str(&moment), "2024-03-15");
    assert_eq!(time_str(&moment), "09:07:22");
    assert_eq!(datetime_str(&moment), "2024-03-15T09:07:22Z");
    assert_eq!(unix(&moment), 1710493642);
}

#[test]
fn failed_toolchain_is_replayed_from_the_cache() {
    let mut cache = ToolchainCache::new();
    assert!(cache.needs_query());
    assert!(cache.answer().is_none());
    cache.settle(Err(QueryFailure::new("not found")));
    assert!(!cache.needs_query());
    cache.settle(answered(1, 75, 0, "", ""));
    let answer = cache.answer().unwrap();
    assert_eq!(*answer, Err(QueryFailure::new("not found")));
    let first = rustc_version_major(answer).unwrap_err();
    let second = rustc_version_major(cache.answer().unwrap()).unwrap_err();
    assert_eq!(first, second);
    assert_eq!(first.message(), "Failed to get version: not found");
}

#[test]
fn answered_toolchain_is_replayed_from_the_cache() {
    let mut cache = ToolchainCache::new();
    cache.settle(answered(1, 70, 0, "beta.2", "sha.abcdef"));
    cache.settle(Err(QueryFailure::new("not found")));
    cache.settle(answered(2, 0, 0, "", ""));
    let answer = cache.answer().unwrap();
    assert_eq!(*answer, answered(1, 70, 0, "beta.2", "sha.abcdef"));
    assert_eq!(rustc_version_str(answer).unwrap(), "1.70.0-beta.2+sha.abcdef");
    assert_eq!(rustc_version_str(answer), rustc_version_str(cache.answer().unwrap()));
}

#[test]
fn moment_is_read_from_the_clock_once() {
    let mut cache = MomentCache::new();
    assert!(!cache.is_settled());
    let first = cache.moment();
    assert!(cache.is_settled());
    // Wait until the clock shows another second.
    while chrono::Utc::now().timestamp() == unix(&first) {}
    let second = cache.moment();
    assert_eq!(first, second);
    assert_eq!(date(&first), date(&second));
    assert_eq!(date_str(&first), date_str(&second));
    assert_eq!(time(&first), time(&second));
    assert_eq!(time_str(&first), time_str(&second));
    assert_eq!(datetime(&first), datetime(&second));
    assert_eq!(datetime_str(&first), datetime_str(&second));
    assert_eq!(unix(&first), unix(&second));
}

#[test]
fn captured_moment_lies_in_the_last_day() {
    let before = chrono::Utc::now().timestamp();
    let moment = CompileMoment::capture();
    let after = chrono::Utc::now().timestamp();
    assert!(unix(&moment) > after - 86400);
    assert!(before <= unix(&moment));
    assert!(unix(&moment) <= after);
    assert_eq!(datetime(&moment).timestamp(), unix(&moment));
}
