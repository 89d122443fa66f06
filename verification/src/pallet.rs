//! The executable registry.
//!
//! A [`Pallet`] owns its claims and its event log. Its view is a
//! [`Registry`], and each operation does to the view what the model's
//! operation of the same name does.

use vstd::prelude::*;
use crate::claims::Claims;
use crate::outcome::{Error, Event};
use crate::registry::Registry;
use crate::rules::{decide_create, decide_revoke};
use crate::types::{Claim, Fingerprint, Identity, LogicalTime};

verus! {

/// A registry of claims on content fingerprints, with the log of its events.
pub struct Pallet {
    claims: Claims,
    events: Vec<Event>,
}

impl View for Pallet {
    type V = Registry;

    closed spec fn view(&self) -> Registry {
        Registry { claims: self.claims@, events: self.events@ }
    }
}

impl Pallet {
    /// A registry in which nothing was ever claimed.
    pub fn new() -> (r: Pallet)
        ensures
            r@ == Registry::empty(),
    {
        Pallet { claims: Claims::new(), events: Vec::new() }
    }

    /// The active claim on `claim`, if there is one.
    pub fn claim_of(&self, claim: &Fingerprint) -> (r: Option<Claim>)
        ensures
            r == self@.slot(*claim),
    {
        self.claims.get(claim)
    }

    /// The number of active claims.
    pub fn len(&self) -> (r: usize)
        ensures
            self@.well_formed(),
            r == self@.claims.len(),
    {
        self.claims.len()
    }

    /// The events emitted so far, oldest first.
    pub fn events(&self) -> (r: &[Event])
        ensures
            r@ == self@.events,
    {
        self.events.as_slice()
    }

    /// Claims `claim` for `who` at time `now`.
    ///
    /// Fails with [`Error::AlreadyClaimed`] if `claim` has an active claim,
    /// whoever owns it. Otherwise stores the claim and appends
    /// [`Event::ClaimCreated`] to the log.
    pub fn create_claim(&mut self, who: Identity, claim: Fingerprint, now: LogicalTime) -> (r:
        Result<(), Error>)
        ensures
            (final(self)@, r) == old(self)@.create_claim(who, claim, now),
            r is Ok <==> !old(self)@.claims.contains_key(claim),
    {
        let slot = self.claims.get(&claim);
        match decide_create(slot, who, claim, now) {
            Ok((record, event)) => {
                self.claims.insert(claim, record);
                self.events.push(event);
                Ok(())
            },
            Err(error) => Err(error),
        }
    }

    /// Revokes the claim on `claim` at the request of `who`.
    ///
    /// Fails with [`Error::NoSuchClaim`] if `claim` has no active claim, and
    /// with [`Error::NotClaimOwner`] if its claim is owned by another
    /// identity. Otherwise removes the claim and appends
    /// [`Event::ClaimRevoked`] to the log.
    pub fn revoke_claim(&mut self, who: Identity, claim: Fingerprint) -> (r: Result<(), Error>)
        ensures
            (final(self)@, r) == old(self)@.revoke_claim(who, claim),
            r is Ok <==> old(self)@.claims.contains_key(claim) && old(self)@.claims[claim].owner
                == who,
    {
        let slot = self.claims.get(&claim);
        match decide_revoke(slot, who, claim) {
            Ok(event) => {
                self.claims.remove(&claim);
                self.events.push(event);
                Ok(())
            },
            Err(error) => Err(error),
        }
    }
}

} // verus!
