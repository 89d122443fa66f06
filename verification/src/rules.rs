//! The rules of the two operations, decided from the one slot they concern.
//!
//! A slot is what the registry holds for a fingerprint: `Some` claim while it
//! is active, `None` otherwise. Each rule is a total function of the slot and
//! the caller, so a host that keeps the claims in storage of its own can read
//! one slot, ask for the decision, and apply it.

use vstd::prelude::*;
use crate::outcome::{Error, Event};
use crate::types::{Claim, Fingerprint, Identity, LogicalTime};

verus! {

/// The rule for creating a claim: an occupied slot rejects the request; an
/// empty one takes a claim owned by the caller and stamped with `now`.
pub open spec fn create_rule(
    slot: Option<Claim>,
    who: Identity,
    claim: Fingerprint,
    now: LogicalTime,
) -> Result<(Claim, Event), Error> {
    match slot {
        Some(_) => Err(Error::AlreadyClaimed),
        None => Ok((Claim { owner: who, registered_at: now }, Event::ClaimCreated { who, claim })),
    }
}

/// The rule for revoking a claim: an empty slot has nothing to revoke, and an
/// occupied one yields only to its owner.
pub open spec fn revoke_rule(slot: Option<Claim>, who: Identity, claim: Fingerprint) -> Result<
    Event,
    Error,
> {
    match slot {
        None => Err(Error::NoSuchClaim),
        Some(record) => if record.owner == who {
            Ok(Event::ClaimRevoked { who, claim })
        } else {
            Err(Error::NotClaimOwner)
        },
    }
}

/// Decides a request by `who` to claim `claim` at time `now`, given the slot
/// of `claim`. On success returns the record to store and the event to emit.
pub fn decide_create(slot: Option<Claim>, who: Identity, claim: Fingerprint, now: LogicalTime) -> (r:
    Result<(Claim, Event), Error>)
    ensures
        r == create_rule(slot, who, claim, now),
{
    if slot.is_some() {
        return Err(Error::AlreadyClaimed);
    }
    Ok((Claim { owner: who, registered_at: now }, Event::ClaimCreated { who, claim }))
}

/// Decides a request by `who` to revoke the claim on `claim`, given the slot
/// of `claim`. On success the slot is to be emptied and the event emitted.
pub fn decide_revoke(slot: Option<Claim>, who: Identity, claim: Fingerprint) -> (r: Result<
    Event,
    Error,
>)
    ensures
        r == revoke_rule(slot, who, claim),
{
    match slot {
        None => Err(Error::NoSuchClaim),
        Some(record) => {
            if record.owner == who {
                Ok(Event::ClaimRevoked { who, claim })
            } else {
                Err(Error::NotClaimOwner)
            }
        },
    }
}

} // verus!
