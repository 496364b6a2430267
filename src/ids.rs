use vstd::prelude::*;

verus! {

/// Relies on uuid's `Uuid::new_v4().as_u128()`: a random version-4 UUID as
/// an integer. Nothing is promised of its value.
#[verifier::external_body]
pub(crate) fn fresh_id() -> (r: u128) {
    uuid::Uuid::new_v4().as_u128()
}

/// Relies on rand's `random::<u16>()`: a value drawn from the thread-local
/// generator. Nothing is promised of it.
#[verifier::external_body]
pub(crate) fn random_hue() -> (r: u16) {
    rand::random::<u16>()
}

} // verus!
