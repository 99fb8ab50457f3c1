//! Facts about one compilation, projected into literal values.
//!
//! Two facts are fixed once per compilation: the moment at which it happens and the
//! version of the toolchain that performs it. Every operation here is a pure
//! projection of one of the two into the value that the compiled program is to hold.
//! For each operation a function ending in `_literal` says what that value is.

pub mod cache;
pub mod calendar;
pub mod decimal;
pub mod diagnostic;
pub mod moment;
pub mod text;
pub mod version;

use crate::cache::{MomentCache, ToolchainCache};
use crate::calendar::{CalendarDate, ClockTime, DateModel, DateTimeModel, TimeModel, UtcDateTime};
use crate::decimal::zero_padded;
use crate::diagnostic::{fatal_text, FatalDiagnostic, QueryFailure};
use crate::moment::CompileMoment;
use crate::text::{date_text, datetime_text, push_date, push_time, time_text, year_text};
use crate::version::{lemma_text_round_trip, parsed, StructuredVersion, ToolchainVersion, VersionModel};
use vstd::prelude::*;
use vstd::string::*;

verus! {

/// What `date` returns: the day of the moment.
pub open spec fn date_literal(moment: CompileMoment) -> DateModel {
    moment@.date
}

/// What `date_str` returns: the text of the day of the moment.
pub open spec fn date_str_literal(moment: CompileMoment) -> Seq<char> {
    date_text(moment@.date)
}

/// What `time` returns: the time of day of the moment.
pub open spec fn time_literal(moment: CompileMoment) -> TimeModel {
    moment@.time
}

/// What `time_str` returns: the text of the time of day of the moment.
pub open spec fn time_str_literal(moment: CompileMoment) -> Seq<char> {
    time_text(moment@.time)
}

/// What `datetime` returns: the moment as date and time of day.
pub open spec fn datetime_literal(moment: CompileMoment) -> DateTimeModel {
    DateTimeModel { date: date_literal(moment), time: time_literal(moment) }
}

/// What `datetime_str` returns: the text of the moment.
pub open spec fn datetime_str_literal(moment: CompileMoment) -> Seq<char> {
    datetime_text(moment@)
}

/// What `unix` returns: the seconds from 1970-01-01T00:00:00 to the moment.
pub open spec fn unix_literal(moment: CompileMoment) -> int {
    moment@.epoch_seconds()
}

/// The day of compilation.
pub fn date(moment: &CompileMoment) -> (date: CalendarDate)
    ensures
        date@ == date_literal(*moment),
        date@.is_valid(),
{
    moment.instant().date()
}

/// The day of compilation as text, `YYYY-MM-DD`.
pub fn date_str(moment: &CompileMoment) -> (text: String)
    ensures
        text@ == date_str_literal(*moment),
{
    let mut text = String::new();
    push_date(&mut text, &moment.instant().date());
    text
}

/// The time of day of compilation.
pub fn time(moment: &CompileMoment) -> (time: ClockTime)
    ensures
        time@ == time_literal(*moment),
        time@.is_valid(),
{
    moment.instant().time()
}

/// The time of day of compilation as text, `HH:MM:SS`.
pub fn time_str(moment: &CompileMoment) -> (text: String)
    ensures
        text@ == time_str_literal(*moment),
{
    let mut text = String::new();
    push_time(&mut text, &moment.instant().time());
    text
}

/// The instant of compilation as date and time of day in the fixed reference frame,
/// put together from the day that `date` gives and the time of day that `time` gives.
pub fn datetime(moment: &CompileMoment) -> (instant: UtcDateTime)
    ensures
        instant@ == datetime_literal(*moment),
        instant@.is_valid(),
{
    UtcDateTime::new(date(moment), time(moment))
}

/// The instant of compilation as text, `YYYY-MM-DDTHH:MM:SSZ`.
pub fn datetime_str(moment: &CompileMoment) -> (text: String)
    ensures
        text@ == datetime_str_literal(*moment),
{
    let instant = moment.instant();
    let mut text = String::new();
    push_date(&mut text, &instant.date());
    text.append("T");
    push_time(&mut text, &instant.time());
    text.append("Z");
    proof {
        reveal_strlit("T");
        reveal_strlit("Z");
        assert(text@ =~= datetime_text(moment@));
    }
    text
}

/// The instant of compilation as whole seconds since 1970-01-01T00:00:00.
pub fn unix(moment: &CompileMoment) -> (seconds: i64)
    ensures
        seconds == unix_literal(*moment),
{
    moment.seconds()
}

/// What a version operation comes to: the part of the version that `part` picks, or
/// the text of the diagnostic that ends the compilation where the toolchain failed.
pub open spec fn part_or_fatal<T>(
    toolchain: Result<ToolchainVersion, QueryFailure>,
    part: spec_fn(VersionModel) -> T,
) -> Result<T, Seq<char>> {
    match toolchain {
        Ok(version) => Ok(part(version@)),
        Err(failure) => Err(fatal_text(failure@)),
    }
}

/// What `rustc_version` returns: the whole version.
pub open spec fn rustc_version_literal(toolchain: Result<ToolchainVersion, QueryFailure>) -> Result<
    VersionModel,
    Seq<char>,
> {
    part_or_fatal(toolchain, |version: VersionModel| version)
}

/// What `rustc_version_str` returns: the version in one line.
pub open spec fn rustc_version_str_literal(
    toolchain: Result<ToolchainVersion, QueryFailure>,
) -> Result<Seq<char>, Seq<char>> {
    part_or_fatal(toolchain, |version: VersionModel| version.text())
}

/// What `rustc_version_major` returns: the major number.
pub open spec fn rustc_version_major_literal(
    toolchain: Result<ToolchainVersion, QueryFailure>,
) -> Result<nat, Seq<char>> {
    part_or_fatal(toolchain, |version: VersionModel| version.major)
}

/// What `rustc_version_minor` returns: the minor number.
pub open spec fn rustc_version_minor_literal(
    toolchain: Result<ToolchainVersion, QueryFailure>,
) -> Result<nat, Seq<char>> {
    part_or_fatal(toolchain, |version: VersionModel| version.minor)
}

/// What `rustc_version_patch` returns: the patch number.
pub open spec fn rustc_version_patch_literal(
    toolchain: Result<ToolchainVersion, QueryFailure>,
) -> Result<nat, Seq<char>> {
    part_or_fatal(toolchain, |version: VersionModel| version.patch)
}

/// What `rustc_version_pre` returns: the pre-release tag, empty for none.
pub open spec fn rustc_version_pre_literal(
    toolchain: Result<ToolchainVersion, QueryFailure>,
) -> Result<Seq<char>, Seq<char>> {
    part_or_fatal(toolchain, |version: VersionModel| version.pre)
}

/// What `rustc_version_build` returns: the build tag, empty for none.
pub open spec fn rustc_version_build_literal(
    toolchain: Result<ToolchainVersion, QueryFailure>,
) -> Result<Seq<char>, Seq<char>> {
    part_or_fatal(toolchain, |version: VersionModel| version.build)
}

/// The version of the toolchain as a structured value, or the diagnostic that ends
/// the compilation where the toolchain did not tell its version.
pub fn rustc_version(toolchain: &Result<ToolchainVersion, QueryFailure>) -> (outcome: Result<
    StructuredVersion,
    FatalDiagnostic,
>)
    ensures
        match outcome {
            Ok(structured) => rustc_version_literal(*toolchain) == Ok::<VersionModel, Seq<char>>(
                structured@,
            ) && structured@.is_valid(),
            Err(fatal) => rustc_version_literal(*toolchain) == Err::<VersionModel, Seq<char>>(
                fatal@,
            ),
        },
{
    match toolchain {
        Ok(version) => Ok(StructuredVersion::of(version)),
        Err(failure) => Err(FatalDiagnostic::from_failure(failure)),
    }
}

/// The version of the toolchain in one line, such as `1.75.0-beta.1+abc`, or the
/// diagnostic that ends the compilation.
pub fn rustc_version_str(toolchain: &Result<ToolchainVersion, QueryFailure>) -> (outcome: Result<
    String,
    FatalDiagnostic,
>)
    ensures
        match outcome {
            Ok(text) => rustc_version_str_literal(*toolchain) == Ok::<Seq<char>, Seq<char>>(text@),
            Err(fatal) => rustc_version_str_literal(*toolchain) == Err::<Seq<char>, Seq<char>>(
                fatal@,
            ),
        },
{
    match toolchain {
        Ok(version) => Ok(version.to_text()),
        Err(failure) => Err(FatalDiagnostic::from_failure(failure)),
    }
}

/// The major number of the toolchain's version, or the diagnostic that ends the
/// compilation.
pub fn rustc_version_major(toolchain: &Result<ToolchainVersion, QueryFailure>) -> (outcome: Result<
    u64,
    FatalDiagnostic,
>)
    ensures
        match outcome {
            Ok(major) => rustc_version_major_literal(*toolchain) == Ok::<nat, Seq<char>>(
                major as nat,
            ),
            Err(fatal) => rustc_version_major_literal(*toolchain) == Err::<nat, Seq<char>>(fatal@),
        },
{
    match toolchain {
        Ok(version) => Ok(version.major()),
        Err(failure) => Err(FatalDiagnostic::from_failure(failure)),
    }
}

/// The minor number of the toolchain's version, or the diagnostic that ends the
/// compilation.
pub fn rustc_version_minor(toolchain: &Result<ToolchainVersion, QueryFailure>) -> (outcome: Result<
    u64,
    FatalDiagnostic,
>)
    ensures
        match outcome {
            Ok(minor) => rustc_version_minor_literal(*toolchain) == Ok::<nat, Seq<char>>(
                minor as nat,
            ),
            Err(fatal) => rustc_version_minor_literal(*toolchain) == Err::<nat, Seq<char>>(fatal@),
        },
{
    match toolchain {
        Ok(version) => Ok(version.minor()),
        Err(failure) => Err(FatalDiagnostic::from_failure(failure)),
    }
}

/// The patch number of the toolchain's version, or the diagnostic that ends the
/// compilation.
pub fn rustc_version_patch(toolchain: &Result<ToolchainVersion, QueryFailure>) -> (outcome: Result<
    u64,
    FatalDiagnostic,
>)
    ensures
        match outcome {
            Ok(patch) => rustc_version_patch_literal(*toolchain) == Ok::<nat, Seq<char>>(
                patch as nat,
            ),
            Err(fatal) => rustc_version_patch_literal(*toolchain) == Err::<nat, Seq<char>>(fatal@),
        },
{
    match toolchain {
        Ok(version) => Ok(version.patch()),
        Err(failure) => Err(FatalDiagnostic::from_failure(failure)),
    }
}

/// The pre-release tag of the toolchain's version, empty where it has none, or the
/// diagnostic that ends the compilation.
pub fn rustc_version_pre(toolchain: &Result<ToolchainVersion, QueryFailure>) -> (outcome: Result<
    String,
    FatalDiagnostic,
>)
    ensures
        match outcome {
            Ok(pre) => rustc_version_pre_literal(*toolchain) == Ok::<Seq<char>, Seq<char>>(pre@),
            Err(fatal) => rustc_version_pre_literal(*toolchain) == Err::<Seq<char>, Seq<char>>(
                fatal@,
            ),
        },
{
    match toolchain {
        Ok(version) => Ok(version.pre().to_owned()),
        Err(failure) => Err(FatalDiagnostic::from_failure(failure)),
    }
}

/// The build tag of the toolchain's version, empty where it has none, or the
/// diagnostic that ends the compilation.
pub fn rustc_version_build(toolchain: &Result<ToolchainVersion, QueryFailure>) -> (outcome: Result<
    String,
    FatalDiagnostic,
>)
    ensures
        match outcome {
            Ok(build) => rustc_version_build_literal(*toolchain) == Ok::<Seq<char>, Seq<char>>(
                build@,
            ),
            Err(fatal) => rustc_version_build_literal(*toolchain) == Err::<Seq<char>, Seq<char>>(
                fatal@,
            ),
        },
{
    match toolchain {
        Ok(version) => Ok(version.build().to_owned()),
        Err(failure) => Err(FatalDiagnostic::from_failure(failure)),
    }
}

/// Within one compilation the moment is the same at every reading of its cache, and
/// so is every literal made from it: the same day, the same texts, the same count of
/// seconds.
pub proof fn lemma_moment_literals_repeat(
    start: MomentCache,
    between: MomentCache,
    end: MomentCache,
    first: CompileMoment,
    second: CompileMoment,
)
    requires
        MomentCache::reading(start@, between@, first),
        MomentCache::reading(between@, end@, second),
    ensures
        second == first,
        end@ == between@,
        date_literal(second) == date_literal(first),
        date_str_literal(second) == date_str_literal(first),
        time_literal(second) == time_literal(first),
        time_str_literal(second) == time_str_literal(first),
        datetime_literal(second) == datetime_literal(first),
        datetime_str_literal(second) == datetime_str_literal(first),
        unix_literal(second) == unix_literal(first),
{
}

/// Within one compilation the answer of the toolchain is the one that was handed in
/// first, whatever is handed in later, and so is every literal made from it, a
/// diagnostic as much as a version.
pub proof fn lemma_toolchain_literals_repeat(
    start: ToolchainCache,
    between: ToolchainCache,
    end: ToolchainCache,
    first: Result<ToolchainVersion, QueryFailure>,
    second: Result<ToolchainVersion, QueryFailure>,
)
    requires
        start@ is None,
        ToolchainCache::settling(start@, between@, first),
        ToolchainCache::settling(between@, end@, second),
    ensures
        between@ == Some(first),
        end@ == between@,
        rustc_version_literal(end@->0) == rustc_version_literal(first),
        rustc_version_str_literal(end@->0) == rustc_version_str_literal(first),
        rustc_version_major_literal(end@->0) == rustc_version_major_literal(first),
        rustc_version_minor_literal(end@->0) == rustc_version_minor_literal(first),
        rustc_version_patch_literal(end@->0) == rustc_version_patch_literal(first),
        rustc_version_pre_literal(end@->0) == rustc_version_pre_literal(first),
        rustc_version_build_literal(end@->0) == rustc_version_build_literal(first),
{
}

/// The texts fit the structured values. The text of the day is the year, the month
/// and the day of the date literal, zero-padded, with `-` between; the text of the
/// time of day is the hour, the minute and the second of the time literal,
/// zero-padded, with `:` between; and the text of the moment is the text of the day,
/// `T`, the text of the time of day and `Z`.
pub proof fn lemma_texts_fit_values(moment: CompileMoment)
    requires
        moment@.is_valid(),
    ensures
        date_str_literal(moment) == year_text(date_literal(moment).year) + seq!['-'] + zero_padded(
            date_literal(moment).month as nat,
            2,
        ) + seq!['-'] + zero_padded(date_literal(moment).day as nat, 2),
        time_str_literal(moment) == zero_padded(time_literal(moment).hour as nat, 2) + seq![':']
            + zero_padded(time_literal(moment).minute as nat, 2) + seq![':'] + zero_padded(
            time_literal(moment).second as nat,
            2,
        ),
        datetime_str_literal(moment) == date_str_literal(moment) + seq!['T'] + time_str_literal(
            moment,
        ) + seq!['Z'],
{
}

/// The count of seconds that `unix` gives is the count that the date and time of
/// `datetime` come to.
pub proof fn lemma_unix_fits_datetime(moment: CompileMoment)
    requires
        moment@.is_valid(),
    ensures
        datetime_literal(moment).epoch_seconds() == unix_literal(moment),
{
}

/// Reading the one-line text of the version gives the structured version back, with
/// the same numbers and the same tags.
pub proof fn lemma_version_str_round_trip(toolchain: Result<ToolchainVersion, QueryFailure>)
    requires
        toolchain matches Ok(version) && version@.is_valid(),
    ensures
        parsed(rustc_version_str_literal(toolchain)->Ok_0) == Some(
            rustc_version_literal(toolchain)->Ok_0,
        ),
{
    lemma_text_round_trip(toolchain->Ok_0@);
}

/// The number and tag operations give the fields of the structured version; a tag
/// operation gives the empty text exactly where the structured version has no such
/// tag.
pub proof fn lemma_version_fields_fit(toolchain: Result<ToolchainVersion, QueryFailure>)
    requires
        toolchain matches Ok(version) && version@.is_valid(),
    ensures
        rustc_version_literal(toolchain) matches Ok(structured) && {
            &&& rustc_version_major_literal(toolchain) == Ok::<nat, Seq<char>>(structured.major)
            &&& rustc_version_minor_literal(toolchain) == Ok::<nat, Seq<char>>(structured.minor)
            &&& rustc_version_patch_literal(toolchain) == Ok::<nat, Seq<char>>(structured.patch)
            &&& rustc_version_pre_literal(toolchain) == Ok::<Seq<char>, Seq<char>>(structured.pre)
            &&& rustc_version_build_literal(toolchain) == Ok::<Seq<char>, Seq<char>>(
                structured.build,
            )
        },
{
}

/// Where the toolchain failed, every version operation comes to the same diagnostic,
/// which holds the failure's description word for word at its end.
pub proof fn lemma_failure_reaches_every_operation(
    toolchain: Result<ToolchainVersion, QueryFailure>,
)
    requires
        toolchain is Err,
    ensures
        rustc_version_literal(toolchain) == Err::<VersionModel, Seq<char>>(
            fatal_text(toolchain->Err_0@),
        ),
        rustc_version_str_literal(toolchain) == Err::<Seq<char>, Seq<char>>(
            fatal_text(toolchain->Err_0@),
        ),
        rustc_version_major_literal(toolchain) == Err::<nat, Seq<char>>(
            fatal_text(toolchain->Err_0@),
        ),
        rustc_version_minor_literal(toolchain) == Err::<nat, Seq<char>>(
            fatal_text(toolchain->Err_0@),
        ),
        rustc_version_patch_literal(toolchain) == Err::<nat, Seq<char>>(
            fatal_text(toolchain->Err_0@),
        ),
        rustc_version_pre_literal(toolchain) == Err::<Seq<char>, Seq<char>>(
            fatal_text(toolchain->Err_0@),
        ),
        rustc_version_build_literal(toolchain) == Err::<Seq<char>, Seq<char>>(
            fatal_text(toolchain->Err_0@),
        ),
        fatal_text(toolchain->Err_0@).subrange(
            fatal_text(toolchain->Err_0@).len() - toolchain->Err_0@.len(),
            fatal_text(toolchain->Err_0@).len() as int,
        ) == toolchain->Err_0@,
{
    let cause = toolchain->Err_0@;
    let whole = fatal_text(cause);
    assert(whole.subrange(whole.len() - cause.len(), whole.len() as int) =~= cause);
}

} // verus!
