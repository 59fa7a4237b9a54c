//! Identities of posts and of their owners.

use vstd::prelude::*;

verus! {

/// A 128-bit universally unique identifier, held as the integer that its
/// sixteen bytes spell, most significant byte first. Two identifiers are the
/// same exactly when these integers are equal.
#[derive(Debug, Clone, Copy, PartialEq, Eq, PartialOrd, Ord, Hash, Structural)]
pub struct Uuid {
    pub bits: u128,
}

impl Uuid {
    /// The identifier whose bytes spell `v`.
    pub fn from_u128(v: u128) -> (id: Uuid)
        ensures
            id.bits == v,
    {
        Uuid { bits: v }
    }

    /// The integer that the identifier's bytes spell.
    pub fn as_u128(&self) -> (v: u128)
        ensures
            v == self.bits,
    {
        self.bits
    }
}

/// Draws a random identifier with `uuid::Uuid::new_v4` and reads it with
/// `uuid::Uuid::as_u128`. The value comes from the operating system's random
/// source, so nothing is claimed of it: callers are verified for every
/// identifier that may come back. `new_v4` panics if that source cannot be
/// read.
#[verifier::external_body]
pub(crate) fn new_v4() -> Uuid {
    Uuid { bits: uuid::Uuid::new_v4().as_u128() }
}

} // verus!
