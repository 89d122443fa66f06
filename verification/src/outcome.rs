//! What an operation reports: the event of a success, the error of a failure.

use vstd::prelude::*;
use crate::types::{Fingerprint, Identity};

verus! {

/// An observable record of a successful operation.
#[derive(Clone, Copy, Debug, PartialEq, Eq)]
pub enum Event {
    /// A claim has been created.
    ClaimCreated { who: Identity, claim: Fingerprint },
    /// A claim has been revoked by its owner.
    ClaimRevoked { who: Identity, claim: Fingerprint },
}

/// Why an operation was rejected. A rejected operation changes nothing.
#[derive(Clone, Copy, Debug, PartialEq, Eq)]
pub enum Error {
    /// The fingerprint already has an active claim.
    AlreadyClaimed,
    /// The fingerprint has no active claim.
    NoSuchClaim,
    /// The claim is owned by another identity, so the caller cannot revoke it.
    NotClaimOwner,
}

} // verus!
