//! Fingerprints, identities and claims.

use vstd::prelude::*;
use vstd::std_specs::cmp::PartialEqSpecImpl;

verus! {

/// A logical time marker, such as a block height. The registry stores it
/// verbatim and never compares or advances it.
pub type LogicalTime = u64;

/// An opaque 256-bit identifier of the content being claimed, such as a
/// cryptographic hash. Two fingerprints are equal when all their bytes are.
#[derive(Clone, Copy, Debug, Eq)]
pub struct Fingerprint(pub [u8; 32]);

/// An opaque 256-bit identifier of an authenticated principal. The registry
/// never validates an identity; it only compares identities for equality.
#[derive(Clone, Copy, Debug, Eq)]
pub struct Identity(pub [u8; 32]);

/// The record kept for a fingerprint while its claim is active.
#[derive(Clone, Copy, Debug, PartialEq, Eq)]
pub struct Claim {
    /// The identity that made the claim, and the only one that may revoke it.
    pub owner: Identity,
    /// The logical time at which the claim was made.
    pub registered_at: LogicalTime,
}

/// Byte-exact comparison of two 256-bit values.
fn bytes_equal(a: &[u8; 32], b: &[u8; 32]) -> (r: bool)
    ensures
        r == (*a == *b),
{
    let mut i: usize = 0;
    while i < 32
        invariant
            0 <= i <= 32,
            forall|j: int| 0 <= j < i ==> a[j] == b[j],
        decreases 32 - i,
    {
        if a[i] != b[i] {
            return false;
        }
        i += 1;
    }
    assert(*a =~= *b);
    true
}

impl PartialEq for Fingerprint {
    fn eq(&self, other: &Self) -> (r: bool) {
        bytes_equal(&self.0, &other.0)
    }
}

impl PartialEqSpecImpl for Fingerprint {
    open spec fn obeys_eq_spec() -> bool {
        true
    }

    open spec fn eq_spec(&self, other: &Self) -> bool {
        *self == *other
    }
}

impl PartialEq for Identity {
    fn eq(&self, other: &Self) -> (r: bool) {
        bytes_equal(&self.0, &other.0)
    }
}

impl PartialEqSpecImpl for Identity {
    open spec fn obeys_eq_spec() -> bool {
        true
    }

    open spec fn eq_spec(&self, other: &Self) -> bool {
        *self == *other
    }
}

} // verus!
