//! Values that every call makes anew: identifiers and the current time.
//!
//! Nothing in the library depends on which value comes back; the functions
//! that use these take the value as an argument in their exact form.
use vstd::prelude::*;

verus! {

/// A new random identifier, from `uuid::Uuid::new_v4` and `Uuid::as_u128`.
/// The 122 random bits are whatever the operating system's generator gave;
/// the contract states only the version and variant bits that a version 4
/// UUID fixes.
#[verifier::external_body]
pub(crate) fn new_identifier() -> (id: u128)
    ensures
        (id >> 76) & 0xf == 4,
        (id >> 62) & 0x3 == 2,
{
    uuid::Uuid::new_v4().as_u128()
}

/// The current time in microseconds since the Unix epoch, from
/// `chrono::Utc::now` and `DateTime::timestamp_micros`. Nothing is claimed of
/// the value.
#[verifier::external_body]
pub(crate) fn now_micros() -> (now: i64) {
    chrono::Utc::now().timestamp_micros()
}

/// The current time as an RFC 3339 text, from `chrono::Utc::now` and
/// `DateTime::to_rfc3339`. Nothing is claimed of the text.
#[verifier::external_body]
pub(crate) fn now_rfc3339() -> (text: String) {
    chrono::Utc::now().to_rfc3339()
}

} // verus!
