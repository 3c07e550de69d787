//! The calls into outside crates that the library relies on.
use vstd::prelude::*;

verus! {

/// The JSON payload a tool hands in with its request; the library carries it
/// through without reading it.
#[verifier::external_type_specification]
#[verifier::external_body]
pub struct ExValue(serde_json::Value);

/// The largest millisecond timestamp that chrono's `DateTime<Utc>` can hold:
/// its years end at 262142, a little over 8.21e15 ms after the Unix epoch.
pub const MAX_TIMESTAMP_MILLIS: i64 = 8_300_000_000_000_000;

/// Relies on `uuid::Uuid::new_v4` and `Uuid::as_u128`: a fresh random
/// identifier as its 128-bit value. Nothing is promised of the value.
#[verifier::external_body]
pub(crate) fn new_request_id() -> (r: u128) {
    uuid::Uuid::new_v4().as_u128()
}

/// Relies on `chrono::Utc::now` and `DateTime::timestamp_millis`: the current
/// time in milliseconds since the Unix epoch. `Utc::now` panics on a clock
/// set before the epoch, and a `DateTime` stays within chrono's year range,
/// so the value lies between zero and `MAX_TIMESTAMP_MILLIS`.
#[verifier::external_body]
pub(crate) fn now_millis() -> (r: i64)
    ensures
        0 <= r <= MAX_TIMESTAMP_MILLIS,
{
    chrono::Utc::now().timestamp_millis()
}

} // verus!
