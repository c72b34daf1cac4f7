//! The few calls this library makes into the system clock and the `uuid`
//! crate, each behind a small wrapper whose contract is believed.

use vstd::prelude::*;

use crate::render::uuid_text;

verus! {

/// Every value whose version nibble is 4 and whose variant bits are `10`:
/// the shape of a random (version 4, RFC 4122) UUID, read as a big-endian `u128`.
pub open spec fn is_random_uuid(v: u128) -> bool {
    v & 0xF000_C000_0000_0000_0000u128 == 0x4000_8000_0000_0000_0000u128
}

/// Calls `uuid::Uuid::new_v4` and reads the result as a big-endian `u128`
/// (`Uuid::as_u128`).  The value is random; the contract claims only what the
/// crate's source shows of every outcome: the version and variant bits are set.
#[verifier::external_body]
pub(crate) fn random_uuid_value() -> (v: u128)
    ensures
        is_random_uuid(v),
{
    uuid::Uuid::new_v4().as_u128()
}

/// Calls `chrono::Utc::now` and reads it as milliseconds since the Unix epoch
/// (`DateTime::timestamp_millis`).  The value depends on the clock; the contract
/// claims only that it is not negative, since `Utc::now` computes it from the
/// duration since the epoch.  (`Utc::now` panics if the system clock is set
/// before 1970; nothing here can rule that out.)
#[verifier::external_body]
pub(crate) fn current_millis() -> (ms: i64)
    ensures
        ms >= 0,
{
    chrono::Utc::now().timestamp_millis()
}

/// Calls `uuid::Uuid::from_u128` and then `to_string`, whose `Display` writes the
/// hyphenated lowercase form (`fmt::LowerHex` through `as_hyphenated`).  The
/// contract states that text exactly: 32 lowercase hexadecimal digits of the
/// big-endian value, grouped 8-4-4-4-12.
#[verifier::external_body]
pub(crate) fn uuid_string(v: u128) -> (s: String)
    ensures
        s@ == uuid_text(v),
{
    uuid::Uuid::from_u128(v).to_string()
}

} // verus!
