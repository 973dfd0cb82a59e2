//! Rendering of message time stamps through `chrono`.
//!
//! The local rendering depends on the machine's time zone, so nothing is
//! said of which text comes back beyond what every time zone shares.
use std::fmt::Write;
use vstd::prelude::*;

verus! {

/// The earliest Unix time stamp, in seconds, that `chrono` can represent
/// (the start of the year -262143).
pub const MIN_TIMESTAMP: i64 = -8334601315200i64;

/// The latest Unix time stamp, in seconds, that `chrono` can represent
/// (the last second of the year 262142).
pub const MAX_TIMESTAMP: i64 = 8210266876799i64;

/// A Unix time stamp that `chrono::DateTime::<Utc>::from_timestamp` accepts.
pub open spec fn timestamp_in_range(timestamp: i64) -> bool {
    MIN_TIMESTAMP <= timestamp <= MAX_TIMESTAMP
}

/// Calls `chrono::DateTime::<Utc>::from_timestamp(timestamp, 0)`, converts it
/// to the local time zone and renders it with the pattern `%H:%M`.
/// The hour and the minute are each written with two digits, so the text is
/// five characters long with a colon in the middle; which digits they are
/// depends on the local time zone and is not stated.
#[verifier::external_body]
pub(crate) fn local_hour_minute(timestamp: i64) -> (r: String)
    requires
        timestamp_in_range(timestamp),
    ensures
        r@.len() == 5,
        r@[2] == ':',
{
    let utc = chrono::DateTime::<chrono::Utc>::from_timestamp(timestamp, 0)
        .expect("cannot convert UTC time stamp");
    let local: chrono::DateTime<chrono::Local> = chrono::DateTime::from(utc);
    local.format("%H:%M").to_string()
}

/// A `strftime` pattern without any `%` specifier: `chrono` reads it as
/// literal text and spaces only.
pub open spec fn is_literal_pattern(pattern: Seq<char>) -> bool {
    !pattern.contains('%')
}

/// Calls `chrono::DateTime::<Utc>::from_timestamp(timestamp, 0)`, converts it
/// to the local time zone and renders it with the `strftime` pattern
/// `pattern`; `None` when `chrono` reports that the pattern cannot be
/// rendered. `chrono` copies the literal text and spaces of a pattern
/// unchanged and fails only on an item of the pattern that it cannot read
/// (every date it represents carries a date, a time and an offset, and no
/// specifier fails on any of them), so whether it fails depends on the
/// pattern alone, as it does for the earliest date, and a pattern without
/// `%` is rendered as itself; what the specifiers render depends on the
/// local time zone and is not stated.
#[verifier::external_body]
pub(crate) fn local_date_with_pattern(timestamp: i64, pattern: &str) -> (r: Option<String>)
    requires
        timestamp_in_range(timestamp),
    ensures
        (r is Some) == (earliest_date_rendering(pattern@) is Some),
        is_literal_pattern(pattern@) ==> r is Some && r->0@ == pattern@,
{
    let utc = chrono::DateTime::<chrono::Utc>::from_timestamp(timestamp, 0)
        .expect("cannot convert UTC time stamp");
    let local: chrono::DateTime<chrono::Local> = chrono::DateTime::from(utc);
    let mut text = String::new();
    match write!(text, "{}", local.format(pattern)) {
        Ok(()) => Some(text),
        Err(_) => None,
    }
}

/// Calls `chrono::Local::now()` and renders it with the `strftime` pattern
/// `pattern`; `None` when `chrono` reports that the pattern cannot be
/// rendered, which, as for every date, depends on the pattern alone. A
/// pattern without `%` is rendered as itself; what the specifiers render
/// depends on the clock and time zone and is not stated.
#[verifier::external_body]
pub(crate) fn today_with_pattern(pattern: &str) -> (r: Option<String>)
    ensures
        (r is Some) == (earliest_date_rendering(pattern@) is Some),
        is_literal_pattern(pattern@) ==> r is Some && r->0@ == pattern@,
{
    let mut text = String::new();
    match write!(text, "{}", chrono::Local::now().format(pattern)) {
        Ok(()) => Some(text),
        Err(_) => None,
    }
}

/// What `chrono::DateTime::<Utc>::MIN_UTC.format(pattern)` renders, or
/// `None` when `chrono` reports that the pattern cannot be rendered.
pub uninterp spec fn earliest_date_rendering(pattern: Seq<char>) -> Option<Seq<char>>;

/// Renders `chrono::DateTime::<Utc>::MIN_UTC` with the `strftime` pattern
/// `pattern`. The result depends on the pattern alone and is named
/// `earliest_date_rendering`; a pattern without `%` is rendered as itself.
#[verifier::external_body]
pub(crate) fn earliest_date_with_pattern(pattern: &str) -> (r: Option<String>)
    ensures
        r matches Some(t) ==> earliest_date_rendering(pattern@) == Some(t@),
        r is None ==> earliest_date_rendering(pattern@) is None,
        is_literal_pattern(pattern@) ==> r is Some && r->0@ == pattern@,
{
    let mut text = String::new();
    match write!(text, "{}", chrono::DateTime::<chrono::Utc>::MIN_UTC.format(pattern)) {
        Ok(()) => Some(text),
        Err(_) => None,
    }
}

} // verus!
