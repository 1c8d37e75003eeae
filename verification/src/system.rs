//! What only the running system can supply: fresh identifiers and the
//! current time. Each comes back as plain numbers.

use chrono::Utc;
use uuid::Uuid;
use vstd::prelude::*;

verus! {

/// A point in time: whole seconds since 1970-01-01 00:00:00 UTC, and the
/// nanoseconds past that second.
#[derive(Clone, Copy, Debug, PartialEq, Eq, Structural)]
pub struct Timestamp {
    pub seconds: i64,
    pub nanoseconds: u32,
}

/// `id`, read as the 128 bits of a UUID, is a random (version 4) UUID of the
/// RFC 4122 variant: the version field holds 4 and the variant field `10`.
pub open spec fn is_random_uuid(id: u128) -> bool {
    (id >> 76) & 0xF == 4 && (id >> 62) & 0x3 == 2
}

/// A new random identifier: `uuid::Uuid::new_v4`, as the number
/// `Uuid::as_u128` gives. Trusted: whatever the random bits, `new_v4` sets
/// the version and variant fields. Two calls may differ, and nothing is
/// claimed about the other bits.
#[verifier::external_body]
pub(crate) fn fresh_id() -> (id: u128)
    ensures
        is_random_uuid(id),
{
    Uuid::new_v4().as_u128()
}

/// The current time: `chrono::Utc::now`, as `DateTime::timestamp` and
/// `DateTime::timestamp_subsec_nanos` give it. Trusted: `now` reads the
/// system clock as a span since the Unix epoch, so the seconds are not
/// negative and the nanoseconds stay below one second.
#[verifier::external_body]
pub(crate) fn now() -> (t: Timestamp)
    ensures
        t.seconds >= 0,
        t.nanoseconds < 1_000_000_000,
{
    let now = Utc::now();
    Timestamp { seconds: now.timestamp(), nanoseconds: now.timestamp_subsec_nanos() }
}

} // verus!
