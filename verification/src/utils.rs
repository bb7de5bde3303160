//! Small utilities: the clock, times as dates, result mapping and blank merging.
use vstd::prelude::*;
use core::time::Duration;
use crate::text::{regex_replace_all, regex_replaced, trim, trimmed};

verus! {

/// Reads the system clock and measures the time since the Unix epoch with
/// `SystemTime::now().duration_since(UNIX_EPOCH)`; `None` where the clock is set
/// before the epoch. Nothing is claimed of the outcome: it is the time.
#[verifier::external_body]
fn read_clock_since_epoch() -> (d: Option<Duration>) {
    std::time::SystemTime::now().duration_since(std::time::UNIX_EPOCH).ok()
}

/// Calls `Duration::as_millis`: the whole milliseconds of a duration. Nothing is
/// claimed of the outcome, since the library sees nothing inside a duration.
#[verifier::external_body]
fn duration_as_millis(d: &Duration) -> (ms: u128) {
    d.as_millis()
}

/// The time since the Unix epoch; `None` where the system clock is set before it.
pub fn now_unix_duration() -> (d: Option<Duration>) {
    read_clock_since_epoch()
}

/// A count of milliseconds as a time stamp: `None` where it does not fit in an
/// `i64`.
pub fn millis_to_timestamp(ms: u128) -> (t: Option<i64>)
    ensures
        t == (if ms <= i64::MAX as u128 { Some(ms as i64) } else { None::<i64> }),
{
    if ms <= i64::MAX as u128 {
        Some(ms as i64)
    } else {
        None
    }
}

/// The current time in whole milliseconds since the Unix epoch; `None` where the
/// system clock is set before the epoch, or so far after it that the count does
/// not fit in an `i64`. The reading itself is the clock's; what is made of it is
/// `millis_to_timestamp`.
pub fn timestamp() -> (t: Option<i64>)
    ensures
        t matches Some(ms) ==> ms >= 0,
{
    match now_unix_duration() {
        None => None,
        Some(d) => millis_to_timestamp(duration_as_millis(&d)),
    }
}

/// Maps the value inside an `Ok(Some(..))` with `mapper`, leaving `Ok(None)` and
/// errors as they are.
pub fn inner_map<T, E, U, F: Fn(T) -> U>(x: Result<Option<T>, E>, mapper: F) -> (r: Result<Option<U>, E>)
    requires
        x matches Ok(Some(t)) ==> call_requires(mapper, (t,)),
    ensures
        match x {
            Ok(Some(t)) => r is Ok && r->Ok_0 is Some && call_ensures(mapper, (t,), r->Ok_0->0),
            Ok(None) => r is Ok && r->Ok_0 is None,
            Err(e) => r == Err::<Option<U>, E>(e),
        },
{
    match x {
        Ok(Some(t)) => Ok(Some(mapper(t))),
        Ok(None) => Ok(None),
        Err(e) => Err(e),
    }
}

/// The pattern of a run of white space.
pub open spec fn blank_pattern() -> Seq<char> {
    "\\s+"@
}

/// `s` with every run of white space made one space, then trimmed.
pub open spec fn spec_merge_blank(s: Seq<char>) -> Seq<char> {
    match regex_replaced(blank_pattern(), s, " "@) {
        Some(merged) => trimmed(merged),
        None => trimmed(s),
    }
}

/// Makes every run of white space in `s` one space, and trims the ends.
pub fn merge_blank(s: &str) -> (r: String)
    ensures
        r@ == spec_merge_blank(s@),
{
    match regex_replace_all("\\s+", s, " ") {
        Some(merged) => String::from_str(trim(merged.as_str())),
        None => String::from_str(trim(s)),
    }
}

/// A date and time without a time zone, of the `chrono` crate.
#[verifier::external_type_specification]
#[verifier::external_body]
pub struct ExNaiveDateTime(chrono::NaiveDateTime);

/// Whether `chrono` can hold the time `secs` seconds and `nanos` nanoseconds after
/// the Unix epoch: its documentation refuses seconds more than about 262,000 years
/// from the common era.
pub uninterp spec fn chrono_holds(secs: i64, nanos: u32) -> bool;

/// Calls `chrono::NaiveDateTime::from_timestamp_opt`. The contract claims that it
/// gives a date exactly where `chrono` can hold the time (named `chrono_holds`), and
/// that it does for any whole second within 8·10^12 seconds (about 253,000 years)
/// of the epoch, well inside the range of about 262,000 years that the source
/// allows; the nanoseconds are kept below two seconds, where the documentation says
/// it panics. The exact ends of the range are left unsaid.
#[verifier::external_body]
fn naive_from_timestamp(secs: i64, nanos: u32) -> (r: Option<chrono::NaiveDateTime>)
    requires
        nanos < 2000000000,
    ensures
        r is Some <==> chrono_holds(secs, nanos),
        -8000000000000 <= secs <= 8000000000000 && nanos < 1000000000 ==> r is Some,
{
    #[allow(deprecated)]
    chrono::NaiveDateTime::from_timestamp_opt(secs, nanos)
}

/// Splits a time in milliseconds since the Unix epoch into whole seconds and the
/// nanoseconds of the remaining milliseconds. A time before the epoch is split
/// only where it is a whole number of seconds.
pub fn split_timestamp(timestamp: i64) -> (parts: (i64, u32))
    requires
        timestamp >= 0 || timestamp % 1000 == 0,
    ensures
        timestamp >= 0 ==> parts.0 == timestamp / 1000 && parts.1 == (timestamp % 1000) * 1000000,
        timestamp < 0 ==> parts.0 * 1000 == timestamp && parts.1 == 0,
        parts.1 < 1000000000,
{
    if timestamp >= 0 {
        let millis: u32 = (timestamp % 1000) as u32;
        (timestamp / 1000, millis * 1000000)
    } else {
        let secs: i64 = -((-timestamp) / 1000);
        (secs, 0)
    }
}

/// The date and time of a time in milliseconds since the Unix epoch; `None` where
/// `chrono` cannot hold it.
pub fn timestamp_to_date_time(timestamp: i64) -> (r: Option<chrono::NaiveDateTime>)
    requires
        timestamp >= 0 || timestamp % 1000 == 0,
    ensures
        timestamp >= 0 ==> (r is Some <==> chrono_holds((timestamp / 1000) as i64, ((timestamp % 1000) * 1000000) as u32)),
        timestamp < 0 ==> (r is Some <==> chrono_holds((timestamp / 1000) as i64, 0)),
        -8000000000000000 <= timestamp <= 8000000000000000 ==> r is Some,
{
    let (secs, nanos) = split_timestamp(timestamp);
    naive_from_timestamp(secs, nanos)
}

} // verus!
