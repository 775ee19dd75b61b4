//! Version-4 UUIDs, used as command, request and event identifiers and as
//! correlation keys for request/response routing.

use vstd::prelude::*;

verus! {

/// A UUID held as its 128-bit value.
#[derive(Clone, Copy, Debug, PartialEq, Eq, Structural, Hash)]
pub struct Uuid4 {
    pub value: u128,
}

impl Uuid4 {
    pub fn new(value: u128) -> (r: Self)
        ensures
            r.value == value,
    {
        Uuid4 { value }
    }

    /// Draws a fresh random identifier. Nothing is assumed of the value: every
    /// caller states what holds whatever comes back.
    ///
    /// Relies on `uuid::Uuid::new_v4`, which returns a random version-4 UUID.
    #[verifier::external_body]
    pub fn generate() -> (r: Uuid4) {
        Uuid4 { value: uuid::Uuid::new_v4().as_u128() }
    }
}

} // verus!
