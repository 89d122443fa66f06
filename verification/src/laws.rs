//! What holds of every registry.
//!
//! Each law is stated over the model, [`Registry`]. The operations of
//! [`crate::pallet::Pallet`] do to its view what the model's operations do,
//! so the laws hold of every executable registry too.

use vstd::prelude::*;
use crate::outcome::{Error, Event};
use crate::registry::Registry;
use crate::types::{Claim, Fingerprint, Identity, LogicalTime};

verus! {

/// A fingerprint has at most one active claim: a claim is created only for a
/// fingerprint that has none, it adds exactly one claim to the registry, and
/// it leaves the claim of every other fingerprint as it was.
pub proof fn law_uniqueness(
    registry: Registry,
    who: Identity,
    claim: Fingerprint,
    now: LogicalTime,
)
    requires
        registry.well_formed(),
        registry.create_claim(who, claim, now).1 is Ok,
    ensures
        registry.slot(claim) is None,
        registry.create_claim(who, claim, now).0.slot(claim) == Some(
            Claim { owner: who, registered_at: now },
        ),
        registry.create_claim(who, claim, now).0.well_formed(),
        registry.create_claim(who, claim, now).0.claims.len() == registry.claims.len() + 1,
        forall|other: Fingerprint|
            other != claim ==> registry.create_claim(who, claim, now).0.slot(other)
                == registry.slot(other),
{
}

/// Only the owner of a claim can revoke it: the owner's request is granted
/// and removes the claim; the request of any other identity fails with
/// `NotClaimOwner` and leaves the registry, and so the claim, as it was.
pub proof fn law_ownership(registry: Registry, who: Identity, claim: Fingerprint)
    requires
        registry.claims.contains_key(claim),
    ensures
        registry.revoke_claim(who, claim).1 is Ok <==> who == registry.claims[claim].owner,
        who == registry.claims[claim].owner ==> registry.revoke_claim(who, claim).0.slot(claim)
            is None,
        who != registry.claims[claim].owner ==> registry.revoke_claim(who, claim) == (
            registry,
            Err::<(), Error>(Error::NotClaimOwner),
        ),
{
}

/// A request that fails changes nothing: neither the claims nor the event
/// log.
pub proof fn law_failure_is_noop(
    registry: Registry,
    who: Identity,
    claim: Fingerprint,
    now: LogicalTime,
)
    ensures
        registry.create_claim(who, claim, now).1 is Err ==> registry.create_claim(
            who,
            claim,
            now,
        ).0 == registry,
        registry.revoke_claim(who, claim).1 is Err ==> registry.revoke_claim(who, claim).0
            == registry,
{
}

/// A fingerprint can be claimed again once its claim is revoked, by any
/// identity: after `first` has claimed and revoked it, a request by `second`
/// to claim it is granted, and the new claim belongs to `second`.
pub proof fn law_lifecycle_round_trip(
    registry: Registry,
    first: Identity,
    second: Identity,
    claim: Fingerprint,
    claimed_at: LogicalTime,
    reclaimed_at: LogicalTime,
)
    requires
        registry.create_claim(first, claim, claimed_at).1 is Ok,
    ensures
        ({
            let claimed = registry.create_claim(first, claim, claimed_at).0;
            let (revoked, revocation) = claimed.revoke_claim(first, claim);
            let (reclaimed, reclaim) = revoked.create_claim(second, claim, reclaimed_at);
            &&& revocation is Ok
            &&& revoked.claims == registry.claims
            &&& reclaim is Ok
            &&& reclaimed.slot(claim) == Some(Claim { owner: second, registered_at: reclaimed_at })
        }),
{
    let claimed = registry.create_claim(first, claim, claimed_at).0;
    let revoked = claimed.revoke_claim(first, claim).0;
    assert(revoked.claims =~= registry.claims);
}

/// A claimed fingerprint cannot be claimed again: once a request to claim it
/// is granted, every further request to claim it, by the same identity or by
/// another, fails with `AlreadyClaimed`.
pub proof fn law_double_create_rejected(
    registry: Registry,
    first: Identity,
    second: Identity,
    claim: Fingerprint,
    claimed_at: LogicalTime,
    later: LogicalTime,
)
    requires
        registry.create_claim(first, claim, claimed_at).1 is Ok,
    ensures
        ({
            let claimed = registry.create_claim(first, claim, claimed_at).0;
            claimed.create_claim(second, claim, later) == (
                claimed,
                Err::<(), Error>(Error::AlreadyClaimed),
            )
        }),
{
}

/// A fingerprint without an active claim has nothing to revoke: the request
/// fails with `NoSuchClaim`. So does the second of two requests to revoke
/// the same claim.
pub proof fn law_revoke_without_claim_rejected(
    registry: Registry,
    who: Identity,
    claim: Fingerprint,
)
    ensures
        !registry.claims.contains_key(claim) ==> registry.revoke_claim(who, claim) == (
            registry,
            Err::<(), Error>(Error::NoSuchClaim),
        ),
        registry.revoke_claim(who, claim).1 is Ok ==> registry.revoke_claim(
            who,
            claim,
        ).0.revoke_claim(who, claim).1 == Err::<(), Error>(Error::NoSuchClaim),
{
}

/// Events correspond to granted requests: a granted request to claim appends
/// exactly one `ClaimCreated` event that names the caller and the
/// fingerprint, a granted request to revoke appends exactly one such
/// `ClaimRevoked` event, and a request that fails appends nothing.
pub proof fn law_event_correspondence(
    registry: Registry,
    who: Identity,
    claim: Fingerprint,
    now: LogicalTime,
)
    ensures
        ({
            let (next, result) = registry.create_claim(who, claim, now);
            &&& result is Ok ==> next.events == registry.events.push(
                Event::ClaimCreated { who, claim },
            )
            &&& result is Err ==> next.events == registry.events
        }),
        ({
            let (next, result) = registry.revoke_claim(who, claim);
            &&& result is Ok ==> next.events == registry.events.push(
                Event::ClaimRevoked { who, claim },
            )
            &&& result is Err ==> next.events == registry.events
        }),
{
}

/// The event log tells the whole story: the empty registry agrees with its
/// log, and a registry that agrees with its log still does after each
/// request, granted or not. So in a registry that began empty, a fingerprint
/// has an active claim exactly if the last event that names it is a
/// `ClaimCreated`, and the owner of the claim is the caller named there.
pub proof fn law_claims_agree_with_log(
    registry: Registry,
    who: Identity,
    claim: Fingerprint,
    now: LogicalTime,
)
    ensures
        Registry::empty().agrees_with_log(),
        registry.agrees_with_log() ==> registry.create_claim(who, claim, now).0.agrees_with_log(),
        registry.agrees_with_log() ==> registry.revoke_claim(who, claim).0.agrees_with_log(),
{
    if registry.agrees_with_log() {
        let owners = Registry::owners_by_log(registry.events);
        let created = registry.create_claim(who, claim, now).0;
        if registry.create_claim(who, claim, now).1 is Ok {
            assert(created.events.drop_last() =~= registry.events);
            assert(Registry::owners_by_log(created.events) == owners.insert(claim, who));
            assert(created.claims.dom() =~= owners.insert(claim, who).dom());
        }
        let revoked = registry.revoke_claim(who, claim).0;
        if registry.revoke_claim(who, claim).1 is Ok {
            assert(revoked.events.drop_last() =~= registry.events);
            assert(Registry::owners_by_log(revoked.events) == owners.remove(claim));
            assert(revoked.claims.dom() =~= owners.remove(claim).dom());
        }
    }
}

} // verus!
