//! Wall-clock access through chrono and std. chrono's `DateTime<Tz>` cannot
//! be declared to Verus (its parameter carries a trait bound), so each item
//! here reads the clock and converts the instant it needs into a plain value.
//! Every value read here depends on the time at which it is read, so no
//! result is given a name; the contracts state what holds of every reading.

use vstd::prelude::*;
use chrono::{Datelike, Timelike};

verus! {

/// Whether `chrono::DateTime::parse_from_rfc3339` accepts a string.
pub uninterp spec fn spec_rfc3339_valid(s: Seq<char>) -> bool;

/// The local wall-clock reading that schedule rules look at.
#[derive(Debug)]
pub struct LocalClock {
    /// Hour of the day, 0..=23.
    pub hour: u32,
    /// Minute of the hour, 0..=59.
    pub minute: u32,
    /// Day of the week, Monday = 1 ... Sunday = 7.
    pub weekday: u32,
}

/// `chrono::Local::now` rendered with `DateTime::to_rfc3339`, which chrono
/// documents as an RFC 3339 string; `parse_from_rfc3339` documents that it
/// parses every valid RFC 3339 value, so the result parses back. Which
/// instant it shows is not stated.
#[verifier::external_body]
pub fn now_rfc3339() -> (r: String)
    ensures
        spec_rfc3339_valid(r@),
{
    chrono::Local::now().to_rfc3339()
}

/// An ASCII decimal digit.
pub open spec fn spec_date_digit(c: char) -> bool {
    '0' <= c && c <= '9'
}

/// The number two ASCII digits denote.
pub open spec fn spec_two_digit_value(a: char, b: char) -> int {
    ((a as int) - ('0' as int)) * 10 + ((b as int) - ('0' as int))
}

/// `s` is a local date as `%Y-%m-%d` writes it: a year of at least four
/// digits (with a sign before 1 BCE or after 9999 CE), `-`, a month 01–12,
/// `-`, and a day 01–31.
pub open spec fn spec_ymd_shape(s: Seq<char>) -> bool {
    let n = s.len() as int;
    &&& n >= 10
    &&& s[n - 6] == '-'
    &&& s[n - 3] == '-'
    &&& spec_date_digit(s[n - 5]) && spec_date_digit(s[n - 4])
    &&& 1 <= spec_two_digit_value(s[n - 5], s[n - 4]) <= 12
    &&& spec_date_digit(s[n - 2]) && spec_date_digit(s[n - 1])
    &&& 1 <= spec_two_digit_value(s[n - 2], s[n - 1]) <= 31
    &&& spec_date_digit(s[0]) || s[0] == '+' || s[0] == '-'
    &&& forall|i: int| 1 <= i < n - 6 ==> spec_date_digit(#[trigger] s[i])
}

/// `chrono::Local::now` rendered with `DateTime::format("%Y-%m-%d")`. The
/// chrono format table documents `%Y` as the year zero-padded to four digits
/// (with an initial sign outside 1 BCE–9999 CE), `%m` as the month 01–12 and
/// `%d` as the day 01–31, each zero-padded to two digits; that shape is
/// stated. Which date it shows is not stated.
#[verifier::external_body]
pub fn today_ymd() -> (r: String)
    ensures
        spec_ymd_shape(r@),
{
    chrono::Local::now().format("%Y-%m-%d").to_string()
}

/// `chrono::Local::now` read through `Timelike::hour`, `Timelike::minute`
/// (documented ranges 0..=23 and 0..=59) and `Datelike::weekday`, whose seven
/// variants are numbered from Monday = 1.
#[verifier::external_body]
pub fn local_clock() -> (r: LocalClock)
    ensures
        r.hour < 24,
        r.minute < 60,
        1 <= r.weekday <= 7,
{
    let now = chrono::Local::now();
    LocalClock {
        hour: now.hour(),
        minute: now.minute(),
        weekday: match now.weekday() {
            chrono::Weekday::Mon => 1,
            chrono::Weekday::Tue => 2,
            chrono::Weekday::Wed => 3,
            chrono::Weekday::Thu => 4,
            chrono::Weekday::Fri => 5,
            chrono::Weekday::Sat => 6,
            chrono::Weekday::Sun => 7,
        },
    }
}

/// `chrono::DateTime::parse_from_rfc3339` of `s`, then the whole seconds
/// (`TimeDelta::num_seconds`) of `Local::now().signed_duration_since(parsed)`:
/// how long ago `s` was. `None` exactly when `s` does not parse.
#[verifier::external_body]
pub fn seconds_since_rfc3339(s: &str) -> (r: Option<i64>)
    ensures
        r is Some <==> spec_rfc3339_valid(s@),
{
    chrono::DateTime::parse_from_rfc3339(s)
        .ok()
        .map(|t| chrono::Local::now().signed_duration_since(t).num_seconds())
}

/// `chrono::DateTime::parse_from_rfc3339` of `s`, then the whole seconds
/// (`TimeDelta::num_seconds`) of `parsed.signed_duration_since(Local::now())`:
/// how far ahead `s` lies. `None` exactly when `s` does not parse.
#[verifier::external_body]
pub fn seconds_until_rfc3339(s: &str) -> (r: Option<i64>)
    ensures
        r is Some <==> spec_rfc3339_valid(s@),
{
    chrono::DateTime::parse_from_rfc3339(s)
        .ok()
        .map(|t| t.signed_duration_since(chrono::Local::now()).num_seconds())
}

/// `chrono::Local::now() + TimeDelta::minutes(minutes)` rendered with
/// `DateTime::to_rfc3339`; for the admitted range neither the duration nor
/// the sum leaves chrono's range. As for `now_rfc3339`, the result parses
/// back; the instant is not stated.
#[verifier::external_body]
pub fn rfc3339_minutes_from_now(minutes: i64) -> (r: String)
    requires
        0 <= minutes <= 1440,
    ensures
        spec_rfc3339_valid(r@),
{
    (chrono::Local::now() + chrono::TimeDelta::minutes(minutes)).to_rfc3339()
}

/// Seconds since the Unix epoch from `std::time::SystemTime::now`, or 0 when
/// the clock reads before the epoch.
#[verifier::external_body]
pub fn unix_now_secs() -> u64 {
    std::time::SystemTime::now()
        .duration_since(std::time::UNIX_EPOCH)
        .map(|d| d.as_secs())
        .unwrap_or(0)
}

} // verus!
