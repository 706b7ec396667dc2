use vstd::prelude::*;

verus! {

/// Identifiers for players, clocks, landmarks and notes.  Each one carries
/// the 128 bits of a version-7 UUID; uniqueness is the only thing the rest
/// of the model needs, and nothing here depends on the internal layout.
pub type EntityId = u128;

/// Relies on `uuid::Uuid::now_v7`: draws a fresh time-ordered identifier.
/// The result depends on the clock and on random state, so nothing is
/// promised of it; callers state what holds whatever value comes back.
#[verifier::external_body]
pub(crate) fn fresh_id() -> EntityId {
    uuid::Uuid::now_v7().as_u128()
}

} // verus!
