//! The mathematical model of the registry.
//!
//! A registry is a map from fingerprints to their active claims, together
//! with the log of the events emitted so far. The two operations are total
//! functions from a registry and a request to the next registry and the
//! result of the request.

use vstd::prelude::*;
use crate::outcome::{Error, Event};
use crate::rules::{create_rule, revoke_rule};
use crate::types::{Claim, Fingerprint, Identity, LogicalTime};

verus! {

/// The state of a registry: the active claims and the events emitted so far,
/// oldest first. A fingerprint is a key of `claims` exactly while it has an
/// active claim.
pub struct Registry {
    pub claims: Map<Fingerprint, Claim>,
    pub events: Seq<Event>,
}

impl Registry {
    /// The registry in which nothing was ever claimed.
    pub open spec fn empty() -> Registry {
        Registry { claims: Map::empty(), events: Seq::empty() }
    }

    /// What the registry holds for `claim`: its active claim, if it has one.
    pub open spec fn slot(self, claim: Fingerprint) -> Option<Claim> {
        if self.claims.contains_key(claim) {
            Some(self.claims[claim])
        } else {
            None
        }
    }

    /// A registry holds finitely many claims.
    pub open spec fn well_formed(self) -> bool {
        self.claims.dom().finite()
    }

    /// The owners of the active claims as the event log alone tells them:
    /// each `ClaimCreated` gives the fingerprint to its caller, and each
    /// `ClaimRevoked` takes it away again.
    pub open spec fn owners_by_log(events: Seq<Event>) -> Map<Fingerprint, Identity>
        decreases events.len(),
    {
        if events.len() == 0 {
            Map::empty()
        } else {
            let earlier = Self::owners_by_log(events.drop_last());
            match events.last() {
                Event::ClaimCreated { who, claim } => earlier.insert(claim, who),
                Event::ClaimRevoked { who, claim } => earlier.remove(claim),
            }
        }
    }

    /// The claims are those that the event log tells of, each with the owner
    /// that the log gives it.
    pub open spec fn agrees_with_log(self) -> bool {
        let owners = Self::owners_by_log(self.events);
        &&& self.claims.dom() == owners.dom()
        &&& forall|claim: Fingerprint| #[trigger]
            self.claims.contains_key(claim) ==> self.claims[claim].owner == owners[claim]
    }

    /// The registry after `who` asks to claim `claim` at time `now`, and the
    /// result of the request. A granted request stores one claim and appends
    /// one event; a rejected one leaves the registry as it was.
    pub open spec fn create_claim(self, who: Identity, claim: Fingerprint, now: LogicalTime) -> (
        Registry,
        Result<(), Error>,
    ) {
        match create_rule(self.slot(claim), who, claim, now) {
            Ok((record, event)) => (
                Registry {
                    claims: self.claims.insert(claim, record),
                    events: self.events.push(event),
                },
                Ok(()),
            ),
            Err(error) => (self, Err(error)),
        }
    }

    /// The registry after `who` asks to revoke the claim on `claim`, and the
    /// result of the request. A granted request removes one claim and appends
    /// one event; a rejected one leaves the registry as it was.
    pub open spec fn revoke_claim(self, who: Identity, claim: Fingerprint) -> (
        Registry,
        Result<(), Error>,
    ) {
        match revoke_rule(self.slot(claim), who, claim) {
            Ok(event) => (
                Registry { claims: self.claims.remove(claim), events: self.events.push(event) },
                Ok(()),
            ),
            Err(error) => (self, Err(error)),
        }
    }
}

} // verus!
