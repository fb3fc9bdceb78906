//! Opaque 128-bit identifiers of users, meetings, dates and comments.

use vstd::prelude::*;

verus! {

/// An identifier, held as the 128 bits of a UUID in big-endian order.
#[derive(Clone, Copy, Debug, PartialEq, Eq, Hash, Structural)]
pub struct Id {
    pub bits: u128,
}

impl Id {
    /// The bits that a random (version 4, RFC 9562 variant) UUID fixes:
    /// the version nibble reads 4 and the two variant bits read `10`.
    pub open spec fn is_random(self) -> bool {
        self.bits & 0xF000_C000_0000_0000_0000u128 == 0x4000_8000_0000_0000_0000u128
    }

    pub fn from_u128(bits: u128) -> (id: Id)
        ensures
            id.bits == bits,
    {
        Id { bits }
    }

    pub fn as_u128(&self) -> (bits: u128)
        ensures
            bits == self.bits,
    {
        self.bits
    }
}

/// Calls `uuid::Uuid::new_v4` and reads the result with `Uuid::as_u128`.
///
/// Trusted: the generator masks its random bits so that the version nibble
/// is 4 and the variant bits are `10`; nothing else is claimed of the value.
#[verifier::external_body]
pub(crate) fn new_v4() -> (id: Id)
    ensures
        id.is_random(),
{
    Id { bits: uuid::Uuid::new_v4().as_u128() }
}

} // verus!
