use proof_of_existence::{Claim, Error, Event, Fingerprint, Identity, Pallet};

fn identity(tag: u8) -> Identity {
    Identity([tag; 32])
}

fn alice() -> Identity {
    identity(0xA1)
}

fn bob() -> Identity {
    identity(0xB0)
}

fn dead() -> Fingerprint {
    let mut bytes = [0u8; 32];
    bytes[0] = 0xDE;
    bytes[1] = 0xAD;
    bytes[2] = 0xBE;
    bytes[3] = 0xEF;
    Fingerprint(bytes)
}

fn fingerprint(tag: u8) -> Fingerprint {
    Fingerprint([tag; 32])
}

#[test]
fn new_registry_is_empty() {
    let registry = Pallet::new();
    assert_eq!(registry.len(), 0);
    assert_eq!(registry.claim_of(&dead()), None);
    assert!(registry.events().is_empty());
}

#[test]
fn end_to_end_scenario() {
    let mut registry = Pallet::new();
    let f = dead();

    assert_eq!(registry.create_claim(alice(), f, 1), Ok(()));
    assert_eq!(registry.events(), &[Event::ClaimCreated { who: alice(), claim: f }]);

    assert_eq!(registry.revoke_claim(bob(), f), Err(Error::NotClaimOwner));
    assert_eq!(registry.events().len(), 1);

    assert_eq!(registry.revoke_claim(alice(), f), Ok(()));
    assert_eq!(
        registry.events(),
        &[
            Event::ClaimCreated { who: alice(), claim: f },
            Event::ClaimRevoked { who: alice(), claim: f },
        ]
    );

    assert_eq!(registry.revoke_claim(alice(), f), Err(Error::NoSuchClaim));
    assert_eq!(registry.events().len(), 2);
    assert_eq!(registry.len(), 0);
}

#[test]
fn create_stores_owner_and_time_verbatim() {
    let mut registry = Pallet::new();
    assert_eq!(registry.create_claim(alice(), dead(), 42), Ok(()));
    assert_eq!(registry.claim_of(&dead()), Some(Claim { owner: alice(), registered_at: 42 }));
    assert_eq!(registry.len(), 1);

    assert_eq!(registry.create_claim(bob(), fingerprint(7), u64::MAX), Ok(()));
    assert_eq!(
        registry.claim_of(&fingerprint(7)),
        Some(Claim { owner: bob(), registered_at: u64::MAX })
    );
    assert_eq!(registry.claim_of(&dead()), Some(Claim { owner: alice(), registered_at: 42 }));
    assert_eq!(registry.len(), 2);
}

#[test]
fn time_is_not_compared() {
    let mut registry = Pallet::new();
    assert_eq!(registry.create_claim(alice(), fingerprint(1), 100), Ok(()));
    assert_eq!(registry.create_claim(alice(), fingerprint(2), 0), Ok(()));
    assert_eq!(registry.claim_of(&fingerprint(1)).unwrap().registered_at, 100);
    assert_eq!(registry.claim_of(&fingerprint(2)).unwrap().registered_at, 0);
}

#[test]
fn double_create_is_rejected() {
    let mut registry = Pallet::new();
    assert_eq!(registry.create_claim(alice(), dead(), 1), Ok(()));

    assert_eq!(registry.create_claim(alice(), dead(), 2), Err(Error::AlreadyClaimed));
    assert_eq!(registry.create_claim(bob(), dead(), 3), Err(Error::AlreadyClaimed));

    assert_eq!(registry.claim_of(&dead()), Some(Claim { owner: alice(), registered_at: 1 }));
    assert_eq!(registry.len(), 1);
    assert_eq!(registry.events(), &[Event::ClaimCreated { who: alice(), claim: dead() }]);
}

#[test]
fn revoke_without_claim_is_rejected() {
    let mut registry = Pallet::new();
    assert_eq!(registry.revoke_claim(alice(), dead()), Err(Error::NoSuchClaim));
    assert_eq!(registry.len(), 0);
    assert!(registry.events().is_empty());

    assert_eq!(registry.create_claim(alice(), fingerprint(1), 5), Ok(()));
    assert_eq!(registry.revoke_claim(alice(), dead()), Err(Error::NoSuchClaim));
    assert_eq!(registry.claim_of(&fingerprint(1)), Some(Claim { owner: alice(), registered_at: 5 }));
    assert_eq!(registry.events().len(), 1);
}

#[test]
fn only_the_owner_revokes() {
    let mut registry = Pallet::new();
    assert_eq!(registry.create_claim(alice(), dead(), 9), Ok(()));

    assert_eq!(registry.revoke_claim(bob(), dead()), Err(Error::NotClaimOwner));
    assert_eq!(registry.claim_of(&dead()), Some(Claim { owner: alice(), registered_at: 9 }));
    assert_eq!(registry.len(), 1);
    assert_eq!(registry.events().len(), 1);

    assert_eq!(registry.revoke_claim(alice(), dead()), Ok(()));
    assert_eq!(registry.claim_of(&dead()), None);
    assert_eq!(registry.len(), 0);
}

#[test]
fn owner_differing_in_one_byte_is_another_identity() {
    let mut nearly_alice = alice();
    nearly_alice.0[31] ^= 1;
    let mut registry = Pallet::new();
    assert_eq!(registry.create_claim(alice(), dead(), 1), Ok(()));
    assert_eq!(registry.revoke_claim(nearly_alice, dead()), Err(Error::NotClaimOwner));
    assert_eq!(registry.revoke_claim(alice(), dead()), Ok(()));
}

#[test]
fn fingerprints_are_compared_byte_by_byte() {
    let f = dead();
    let mut g = dead();
    g.0[31] = 1;
    assert_ne!(f, g);
    assert_eq!(f, dead());

    let mut registry = Pallet::new();
    assert_eq!(registry.create_claim(alice(), f, 1), Ok(()));
    assert_eq!(registry.create_claim(bob(), g, 2), Ok(()));
    assert_eq!(registry.claim_of(&f), Some(Claim { owner: alice(), registered_at: 1 }));
    assert_eq!(registry.claim_of(&g), Some(Claim { owner: bob(), registered_at: 2 }));
    assert_eq!(registry.revoke_claim(bob(), f), Err(Error::NotClaimOwner));
    assert_eq!(registry.revoke_claim(bob(), g), Ok(()));
    assert_eq!(registry.claim_of(&f), Some(Claim { owner: alice(), registered_at: 1 }));
    assert_eq!(registry.claim_of(&g), None);
}

#[test]
fn lifecycle_round_trip() {
    let mut registry = Pallet::new();
    assert_eq!(registry.create_claim(alice(), dead(), 1), Ok(()));
    assert_eq!(registry.revoke_claim(alice(), dead()), Ok(()));
    assert_eq!(registry.create_claim(bob(), dead(), 7), Ok(()));
    assert_eq!(registry.claim_of(&dead()), Some(Claim { owner: bob(), registered_at: 7 }));
    assert_eq!(registry.revoke_claim(alice(), dead()), Err(Error::NotClaimOwner));
    assert_eq!(
        registry.events(),
        &[
            Event::ClaimCreated { who: alice(), claim: dead() },
            Event::ClaimRevoked { who: alice(), claim: dead() },
            Event::ClaimCreated { who: bob(), claim: dead() },
        ]
    );
}

#[test]
fn second_revoke_is_rejected() {
    let mut registry = Pallet::new();
    assert_eq!(registry.create_claim(alice(), dead(), 1), Ok(()));
    assert_eq!(registry.revoke_claim(alice(), dead()), Ok(()));
    assert_eq!(registry.revoke_claim(alice(), dead()), Err(Error::NoSuchClaim));
}

#[test]
fn each_success_emits_one_event_and_each_failure_none() {
    let mut registry = Pallet::new();
    let mut expected: Vec<Event> = Vec::new();

    assert_eq!(registry.create_claim(alice(), fingerprint(1), 1), Ok(()));
    expected.push(Event::ClaimCreated { who: alice(), claim: fingerprint(1) });
    assert_eq!(registry.events(), expected.as_slice());

    assert_eq!(registry.create_claim(bob(), fingerprint(1), 2), Err(Error::AlreadyClaimed));
    assert_eq!(registry.events(), expected.as_slice());

    assert_eq!(registry.create_claim(bob(), fingerprint(2), 3), Ok(()));
    expected.push(Event::ClaimCreated { who: bob(), claim: fingerprint(2) });
    assert_eq!(registry.events(), expected.as_slice());

    assert_eq!(registry.revoke_claim(alice(), fingerprint(2)), Err(Error::NotClaimOwner));
    assert_eq!(registry.revoke_claim(alice(), fingerprint(3)), Err(Error::NoSuchClaim));
    assert_eq!(registry.events(), expected.as_slice());

    assert_eq!(registry.revoke_claim(bob(), fingerprint(2)), Ok(()));
    expected.push(Event::ClaimRevoked { who: bob(), claim: fingerprint(2) });
    assert_eq!(registry.events(), expected.as_slice());
}

#[test]
fn revoking_one_claim_leaves_the_others() {
    let mut registry = Pallet::new();
    for tag in 0..5u8 {
        assert_eq!(registry.create_claim(identity(tag), fingerprint(tag), u64::from(tag)), Ok(()));
    }
    assert_eq!(registry.len(), 5);

    assert_eq!(registry.revoke_claim(identity(1), fingerprint(1)), Ok(()));
    assert_eq!(registry.revoke_claim(identity(4), fingerprint(4)), Ok(()));
    assert_eq!(registry.revoke_claim(identity(0), fingerprint(0)), Ok(()));
    assert_eq!(registry.len(), 2);

    for tag in [0u8, 1, 4] {
        assert_eq!(registry.claim_of(&fingerprint(tag)), None);
    }
    for tag in [2u8, 3] {
        assert_eq!(
            registry.claim_of(&fingerprint(tag)),
            Some(Claim { owner: identity(tag), registered_at: u64::from(tag) })
        );
    }
}

#[test]
fn a_fingerprint_never_has_two_claims() {
    let mut registry = Pallet::new();
    for round in 0..4u64 {
        let _ = registry.create_claim(alice(), dead(), round);
        let _ = registry.create_claim(bob(), dead(), round + 10);
        assert_eq!(registry.len(), 1);
        assert_eq!(registry.claim_of(&dead()), Some(Claim { owner: alice(), registered_at: 0 }));
    }
    assert_eq!(registry.events().len(), 1);
}

#[test]
fn the_log_tells_who_owns_what() {
    let mut registry = Pallet::new();
    let _ = registry.create_claim(alice(), fingerprint(1), 1);
    let _ = registry.create_claim(bob(), fingerprint(2), 2);
    let _ = registry.create_claim(bob(), fingerprint(1), 3);
    let _ = registry.revoke_claim(alice(), fingerprint(1));
    let _ = registry.create_claim(bob(), fingerprint(1), 4);
    let _ = registry.revoke_claim(alice(), fingerprint(2));
    let _ = registry.create_claim(alice(), fingerprint(3), 5);
    let _ = registry.revoke_claim(alice(), fingerprint(3));

    let mut owners: Vec<(Fingerprint, Identity)> = Vec::new();
    for event in registry.events() {
        match *event {
            Event::ClaimCreated { who, claim } => {
                owners.retain(|(held, _)| *held != claim);
                owners.push((claim, who));
            }
            Event::ClaimRevoked { claim, .. } => owners.retain(|(held, _)| *held != claim),
        }
    }
    assert_eq!(owners, vec![(fingerprint(2), bob()), (fingerprint(1), bob())]);
    assert_eq!(registry.len(), owners.len());
    for (claim, who) in owners {
        assert_eq!(registry.claim_of(&claim).map(|record| record.owner), Some(who));
    }
    assert_eq!(registry.claim_of(&fingerprint(3)), None);
}
