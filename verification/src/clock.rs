//! The current time as text, in the form `chrono` displays a UTC date and
//! time (`2024-01-31 12:00:00.123456789 UTC`).
use vstd::prelude::*;
use core::time::Duration;
use std::time::SystemTime;

verus! {

#[verifier::external_type_specification]
#[verifier::external_body]
pub struct ExSystemTime(std::time::SystemTime);

/// The text that `chrono` displays for the UTC date and time `secs`
/// seconds and `nanos` nanoseconds after 1970-01-01 00:00:00.
pub uninterp spec fn utc_timestamp_text(secs: i64, nanos: u32) -> Seq<char>;

/// The last second that `chrono` can display: 262142-12-31 23:59:59, the
/// end of the last year of its calendar.
pub const LAST_DISPLAYABLE_SECOND: i64 = 8_210_266_876_799;

/// The system clock, `std::time::SystemTime::now()`.
///
/// Nothing is claimed of the value: it is the clock's.
#[verifier::external_body]
fn system_now() -> SystemTime {
    SystemTime::now()
}

/// `SystemTime::duration_since(UNIX_EPOCH)`: the time since 1970, or `None`
/// for a time before it.
///
/// Nothing is claimed of the value: the time is opaque here.
#[verifier::external_body]
fn since_unix_epoch(t: &SystemTime) -> Option<Duration> {
    t.duration_since(std::time::UNIX_EPOCH).ok()
}

/// The whole seconds of a duration, `Duration::as_secs`.
#[verifier::external_body]
fn duration_secs(d: &Duration) -> u64 {
    d.as_secs()
}

/// The nanoseconds past the whole seconds, `Duration::subsec_nanos`, which
/// its documentation says is always below one billion.
#[verifier::external_body]
fn duration_subsec_nanos(d: &Duration) -> (n: u32)
    ensures
        n < 1_000_000_000,
{
    d.subsec_nanos()
}

/// The displayed UTC date and time of a timestamp, with
/// `chrono::DateTime::from_timestamp` and its `Display`.
///
/// Claimed of the outside function: a present text is the display of that
/// date and time; for a timestamp after 1970 with fewer than a billion
/// nanoseconds, it is present exactly when the date is within `chrono`'s
/// calendar, that is up to `LAST_DISPLAYABLE_SECOND`.
#[verifier::external_body]
fn utc_text_of_timestamp(secs: i64, nanos: u32) -> (text: Option<String>)
    ensures
        text matches Some(t) ==> t@ == utc_timestamp_text(secs, nanos),
        0 <= secs && nanos < 1_000_000_000 ==> (text is Some <==> secs <= LAST_DISPLAYABLE_SECOND),
{
    chrono::DateTime::from_timestamp(secs, nanos).map(|d| d.to_string())
}

/// The displayed UTC date and time `secs` seconds and `nanos` nanoseconds
/// after 1970-01-01 00:00:00: present exactly up to
/// `LAST_DISPLAYABLE_SECOND`.
pub fn text_of_elapsed(secs: u64, nanos: u32) -> (text: Option<String>)
    requires
        nanos < 1_000_000_000,
    ensures
        secs <= LAST_DISPLAYABLE_SECOND ==> (text matches Some(t)
            && t@ == utc_timestamp_text(secs as i64, nanos)),
        secs > LAST_DISPLAYABLE_SECOND ==> text is None,
{
    if secs > 8_210_266_876_799 {
        None
    } else {
        let s: i64 = secs as i64;
        utc_text_of_timestamp(s, nanos)
    }
}

/// The current UTC time as text, or `None` when the clock reads a time
/// before 1970 or after `LAST_DISPLAYABLE_SECOND`.
pub fn now_text() -> (text: Option<String>)
    ensures
        text matches Some(t) ==> exists|secs: u64, nanos: u32|
            secs <= LAST_DISPLAYABLE_SECOND && nanos < 1_000_000_000
                && t@ == #[trigger] utc_timestamp_text(secs as i64, nanos),
{
    let now = system_now();
    match since_unix_epoch(&now) {
        None => None,
        Some(d) => {
            let secs = duration_secs(&d);
            let nanos = duration_subsec_nanos(&d);
            text_of_elapsed(secs, nanos)
        },
    }
}

} // verus!
