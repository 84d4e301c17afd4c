//! Identities of chats.
//!
//! A chat is known to the backend by a UUID, which this crate holds as the
//! 128-bit number that the UUID's sixteen bytes spell, first byte first.

use vstd::prelude::*;

verus! {

/// The bits of an identity that hold a UUID's version and variant.
pub const VERSION_AND_VARIANT_MASK: u128 = 0x0000_0000_0000_f000_c000_0000_0000_0000u128;

/// These bits in a random UUID: version 4, and the variant of RFC 9562.
pub const RANDOM_VERSION_AND_VARIANT: u128 = 0x0000_0000_0000_4000_8000_0000_0000_0000u128;

/// Whether `uuid` has the version and variant of a random UUID.
pub open spec fn is_random_uuid(uuid: u128) -> bool {
    uuid & VERSION_AND_VARIANT_MASK == RANDOM_VERSION_AND_VARIANT
}

/// A fresh random identity: `uuid::Uuid::new_v4()`, read as a number by
/// `Uuid::as_u128`.
///
/// Not verified. The contract claims only what `new_v4` does to every random
/// number it draws: it forces the four version bits to 4 and the two variant
/// bits to binary 10. Nothing is claimed of the other 122 bits, so two calls
/// may, as far as the contract goes, return the same identity. `new_v4` panics
/// when the operating system cannot supply random bytes.
#[verifier::external_body]
pub(crate) fn new_uuid() -> (uuid: u128)
    ensures
        is_random_uuid(uuid),
{
    uuid::Uuid::new_v4().as_u128()
}

} // verus!
