//! Trusted bindings to the process environment: the current instant and
//! fresh identifiers. Everything that depends on their values takes them
//! as arguments and is verified for every value.

use vstd::prelude::*;

verus! {

/// Relies on chrono's `Utc::now` and `DateTime::timestamp_millis`: the
/// current instant as milliseconds since the epoch. Nothing is promised
/// of the clock's reading.
#[verifier::external_body]
pub fn now_millis() -> u64 {
    chrono::Utc::now().timestamp_millis() as u64
}

/// Relies on uuid's `Uuid::new_v4` and `Uuid::as_u128`: a randomly
/// generated identifier. Nothing is promised of a random value.
#[verifier::external_body]
pub fn fresh_id() -> u128 {
    uuid::Uuid::new_v4().as_u128()
}

} // verus!
