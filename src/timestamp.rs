use vstd::prelude::*;
use crate::error::{status_of, AppError, STATUS_INTERNAL_ERROR};

verus! {

/// How long an upload stays downloadable: one day, in milliseconds.
pub const TIME_TO_LIVE_MILLIS: i64 = 86_400_000;

/// Largest instant whose expiry instant still fits in an `i64`.
pub const LATEST_STORABLE_MILLIS: i64 = 9_223_372_036_768_375_807;

/// The RFC 3339 text, in UTC, of the instant `ms` milliseconds after the Unix
/// epoch; an instant beyond the calendar reads as the calendar's first or
/// last instant.
pub uninterp spec fn rfc3339_of_millis(ms: int) -> Seq<char>;

/// Placeholder for a value that is absent.
pub open spec fn unknown_text() -> Seq<char> {
    "unknown"@
}

/// How an expiry instant is shown to clients.
pub open spec fn expiry_text(ms: i64) -> Seq<char> {
    rfc3339_of_millis(ms as int)
}

/// Message of the failure of an upload when the clock gives no usable reading.
pub open spec fn clock_message() -> Seq<char> {
    "Relógio do sistema fora do intervalo"@
}

#[verifier::external_type_specification]
#[verifier::external_body]
pub struct ExSystemTime(std::time::SystemTime);

/// Relies on std's `SystemTime::now`: the current reading of the system clock.
#[verifier::external_body]
fn system_now() -> (r: std::time::SystemTime) {
    std::time::SystemTime::now()
}

/// Relies on std's `SystemTime::duration_since`, taken from the Unix epoch:
/// `None` where the reading lies before the epoch.
#[verifier::external_body]
fn since_epoch(t: &std::time::SystemTime) -> (r: Option<std::time::Duration>) {
    match t.duration_since(std::time::UNIX_EPOCH) {
        Ok(d) => Some(d),
        Err(_) => None,
    }
}

/// Relies on std's `Duration::as_millis`: the whole milliseconds of a duration.
#[verifier::external_body]
fn whole_millis(d: &std::time::Duration) -> (r: u128) {
    d.as_millis()
}

/// Relies on bson's `DateTime::from_millis` and `DateTime::to_chrono` (which
/// clamps an instant beyond chrono's calendar to its first or last instant)
/// and chrono's `DateTime::to_rfc3339`: the text depends on the instant alone.
#[verifier::external_body]
fn format_rfc3339(ms: i64) -> (r: String)
    ensures
        r@ == rfc3339_of_millis(ms as int),
{
    bson::DateTime::from_millis(ms).to_chrono().to_rfc3339()
}

/// The expiry instant of a file stored at `now_ms`.
pub fn expiry_after(now_ms: i64) -> (r: i64)
    requires
        now_ms <= LATEST_STORABLE_MILLIS,
    ensures
        r == now_ms + TIME_TO_LIVE_MILLIS,
{
    now_ms + TIME_TO_LIVE_MILLIS
}

/// The expiry instant for a clock reading in milliseconds after the Unix
/// epoch; `None` stands for a clock before the epoch.
pub open spec fn expiry_for_reading(reading: Option<u128>) -> Option<int> {
    match reading {
        Some(ms) => if ms <= LATEST_STORABLE_MILLIS { Some(ms + TIME_TO_LIVE_MILLIS) } else { None },
        None => None,
    }
}

/// The expiry instant for a clock reading, or the upload failure where the
/// reading lies before the epoch or too far after it.
pub fn expiry_from_reading(reading: Option<u128>) -> (r: Result<i64, AppError>)
    ensures
        match expiry_for_reading(reading) {
            Some(t) => r == Ok::<i64, AppError>(t as i64),
            None => r matches Err(e) && e matches AppError::UploadError(m)
                && m@ == clock_message() && status_of(e) == STATUS_INTERNAL_ERROR,
        },
{
    match reading {
        Some(ms) => {
            if ms <= LATEST_STORABLE_MILLIS as u128 {
                Ok(expiry_after(ms as i64))
            } else {
                Err(AppError::UploadError(String::from_str("Relógio do sistema fora do intervalo")))
            }
        },
        None => Err(AppError::UploadError(String::from_str("Relógio do sistema fora do intervalo"))),
    }
}

/// The expiry instant of a file stored now, read from the system clock.
pub fn expiry_from_now() -> (r: Result<i64, AppError>)
    ensures
        r matches Ok(t) ==> TIME_TO_LIVE_MILLIS <= t,
        r matches Err(e) ==> (e matches AppError::UploadError(m) && m@ == clock_message()),
{
    let now = system_now();
    let reading = match since_epoch(&now) {
        Some(d) => Some(whole_millis(&d)),
        None => None,
    };
    expiry_from_reading(reading)
}

/// The RFC 3339 form of an expiry instant.
pub fn expiry_to_text(ms: i64) -> (r: String)
    ensures
        r@ == expiry_text(ms),
{
    format_rfc3339(ms)
}

} // verus!
