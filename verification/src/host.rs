//! Trusted boundary to the clock, the random-number generator, and string
//! building: small wrappers whose contracts the verifier believes.

use vstd::prelude::*;

use std::time::SystemTime;

verus! {

/// The wall clock now, as whole milliseconds since the Unix epoch — `None`
/// when the clock reads earlier than the epoch. Relies on
/// `std::time::SystemTime::now`, `SystemTime::duration_since` against
/// `std::time::UNIX_EPOCH`, and `core::time::Duration::as_millis`; nothing is
/// assumed of the value returned.
#[verifier::external_body]
pub(crate) fn now_millis() -> Option<u128> {
    match SystemTime::now().duration_since(std::time::UNIX_EPOCH) {
        Ok(duration) => Some(duration.as_millis()),
        Err(_) => None,
    }
}

/// Relies on `rand::random`: a byte drawn from the thread-local generator;
/// nothing is assumed of its value.
#[verifier::external_body]
pub(crate) fn random_byte() -> u8 {
    rand::random()
}

/// Relies on `alloc::string::String::push`: appends exactly the one
/// character.
#[verifier::external_body]
pub(crate) fn push_char(s: &mut String, c: char)
    ensures
        final(s)@ == old(s)@.push(c),
{
    s.push(c);
}

} // verus!
