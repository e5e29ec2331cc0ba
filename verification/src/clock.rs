//! Instants, counted in milliseconds since 1970-01-01T00:00:00Z, their
//! textual form, and the cooldown that is measured between two of them.

use vstd::prelude::*;
use chrono::{DateTime, SecondsFormat, Utc};

verus! {

/// The cooldown between opening a case and summoning helpers: 30 minutes.
pub const COOLDOWN_MILLIS: i64 = 1_800_000;

/// The text that chrono writes for the instant `millis`, or `None` where
/// chrono has no date for it.
pub uninterp spec fn timestamp_text(millis: i64) -> Option<Seq<char>>;

/// The instant that chrono reads from `text`, or `None` where it reads none.
pub uninterp spec fn timestamp_millis(text: Seq<char>) -> Option<i64>;

/// Calls `chrono::Utc::now` and takes the instant's
/// `DateTime::timestamp_millis`. Trusted, with nothing claimed of the value:
/// it is whatever the machine's clock says. chrono panics where that clock
/// stands before 1970.
#[verifier::external_body]
pub(crate) fn clock_millis() -> i64 {
    Utc::now().timestamp_millis()
}

/// Calls `chrono::DateTime::<Utc>::from_timestamp_millis` and, where that
/// gives a date, `DateTime::to_rfc3339_opts` with millisecond precision and
/// the `Z` designator. Trusted: the answer depends on `millis` alone.
#[verifier::external_body]
pub(crate) fn write_timestamp(millis: i64) -> (text: Option<String>)
    ensures
        match text {
            Some(t) => timestamp_text(millis) == Some(t@),
            None => timestamp_text(millis) is None,
        },
{
    match DateTime::<Utc>::from_timestamp_millis(millis) {
        Some(instant) => Some(instant.to_rfc3339_opts(SecondsFormat::Millis, true)),
        None => None,
    }
}

/// Calls the `FromStr` impl of `chrono::DateTime<Utc>` and takes the
/// instant's `DateTime::timestamp_millis`. Trusted: the answer depends on
/// `text` alone.
#[verifier::external_body]
pub(crate) fn read_timestamp(text: &str) -> (millis: Option<i64>)
    ensures
        millis == timestamp_millis(text@),
{
    match text.parse::<DateTime<Utc>>() {
        Ok(instant) => Some(instant.timestamp_millis()),
        Err(_) => None,
    }
}

/// Whether a case created at `created` is still in its cooldown at `now`:
/// less than 30 minutes have passed.
pub open spec fn cooling_down(created: i64, now: i64) -> bool {
    now - created < COOLDOWN_MILLIS
}

/// Whether a case created at `created` is still in its cooldown at `now`.
pub fn in_cooldown(created: i64, now: i64) -> (yes: bool)
    ensures
        yes == cooling_down(created, now),
{
    (now as i128) - (created as i128) < (COOLDOWN_MILLIS as i128)
}

} // verus!
