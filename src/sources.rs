//! The two values that the protocol engine takes from outside: fresh version ids and the time.
use vstd::prelude::*;

verus! {

/// The bits that every version-4 UUID has set: the version nibble (4) and the RFC 4122 variant.
pub const V4_MARKER_BITS: u128 = 0x40008000000000000000;

/// Relies on `uuid::Uuid::new_v4` and `Uuid::as_u128`: a random version-4 UUID, which masks
/// random bits and then sets the version and variant bits, read back as its 128 bits.
#[verifier::external_body]
pub(crate) fn new_version_id() -> (r: u128)
    ensures
        r & V4_MARKER_BITS == V4_MARKER_BITS,
{
    uuid::Uuid::new_v4().as_u128()
}

/// Relies on `chrono::Utc::now` and `DateTime::timestamp`: the current time, in whole seconds
/// since the Unix epoch.
#[verifier::external_body]
pub(crate) fn now_timestamp() -> (r: i64) {
    chrono::Utc::now().timestamp()
}

/// A fresh version id is never the nil id.
pub proof fn lemma_marked_id_not_nil(id: u128)
    requires
        id & V4_MARKER_BITS == V4_MARKER_BITS,
    ensures
        id != 0,
{
    assert(id & 0x40008000000000000000u128 == 0x40008000000000000000u128 ==> id != 0u128)
        by (bit_vector);
}

} // verus!
