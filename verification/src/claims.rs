//! The table of active claims.
//!
//! [`Claims`] is a map from fingerprints to claims, kept as a list of entries
//! in which no fingerprint occurs twice.

use vstd::prelude::*;
use crate::types::{Claim, Fingerprint};

verus! {

/// One active claim: a fingerprint and the record kept for it.
struct Entry {
    claim: Fingerprint,
    record: Claim,
}

/// No fingerprint occurs in two entries.
spec fn distinct(entries: Seq<Entry>) -> bool {
    forall|i: int, j: int|
        0 <= i < j < entries.len() ==> (#[trigger] entries[i]).claim != (#[trigger] entries[j]).claim
}

/// Whether some entry is for `claim`.
spec fn listed(entries: Seq<Entry>, claim: Fingerprint) -> bool {
    exists|i: int| 0 <= i < entries.len() && (#[trigger] entries[i]).claim == claim
}

/// The map that a list of entries stands for.
spec fn claims_of(entries: Seq<Entry>) -> Map<Fingerprint, Claim> {
    Map::new(
        |claim: Fingerprint| listed(entries, claim),
        |claim: Fingerprint|
            entries[choose|i: int| 0 <= i < entries.len() && (#[trigger] entries[i]).claim == claim].record,
    )
}

/// In a list without repetition, each entry is what the map holds for its
/// fingerprint.
proof fn lemma_entry_is_slot(entries: Seq<Entry>, i: int)
    requires
        distinct(entries),
        0 <= i < entries.len(),
    ensures
        claims_of(entries).contains_key(entries[i].claim),
        claims_of(entries)[entries[i].claim] == entries[i].record,
{
    let claim = entries[i].claim;
    let k = choose|k: int| 0 <= k < entries.len() && (#[trigger] entries[k]).claim == claim;
    assert(k == i);
}

/// Appending an entry for an unlisted fingerprint inserts it into the map.
proof fn lemma_push(entries: Seq<Entry>, entry: Entry)
    requires
        distinct(entries),
        !listed(entries, entry.claim),
    ensures
        distinct(entries.push(entry)),
        claims_of(entries.push(entry)) == claims_of(entries).insert(entry.claim, entry.record),
{
    let after = entries.push(entry);
    assert(distinct(after)) by {
        assert forall|i: int, j: int| 0 <= i < j < after.len() implies (#[trigger] after[i]).claim
            != (#[trigger] after[j]).claim by {
            assert(after[i] == entries[i]);
            if j < entries.len() {
                assert(after[j] == entries[j]);
            }
        }
    }
    let expected = claims_of(entries).insert(entry.claim, entry.record);
    assert forall|claim: Fingerprint| #[trigger]
        claims_of(after).contains_key(claim) == expected.contains_key(claim) by {
        if listed(after, claim) {
            let i = choose|i: int| 0 <= i < after.len() && (#[trigger] after[i]).claim == claim;
            if i < entries.len() {
                assert(entries[i].claim == claim);
            }
        }
        if listed(entries, claim) {
            let i = choose|i: int| 0 <= i < entries.len() && (#[trigger] entries[i]).claim == claim;
            assert(after[i].claim == claim);
        }
        if claim == entry.claim {
            assert(after[entries.len() as int].claim == claim);
        }
    }
    assert forall|claim: Fingerprint| #[trigger] expected.contains_key(claim) implies claims_of(
        after,
    )[claim] == expected[claim] by {
        if claim == entry.claim {
            lemma_entry_is_slot(after, entries.len() as int);
        } else {
            let i = choose|i: int| 0 <= i < entries.len() && (#[trigger] entries[i]).claim == claim;
            lemma_entry_is_slot(entries, i);
            assert(after[i] == entries[i]);
            lemma_entry_is_slot(after, i);
        }
    }
    assert(claims_of(after) =~= expected);
}

/// Moving the last entry into the place of entry `i` removes the fingerprint
/// of entry `i` from the map.
proof fn lemma_swap_remove(entries: Seq<Entry>, i: int)
    requires
        distinct(entries),
        0 <= i < entries.len(),
    ensures
        distinct(entries.update(i, entries.last()).drop_last()),
        claims_of(entries.update(i, entries.last()).drop_last()) == claims_of(entries).remove(
            entries[i].claim,
        ),
{
    let last = entries.len() - 1;
    let after = entries.update(i, entries.last()).drop_last();
    let gone = entries[i].claim;
    // Entry `k` of `after` is entry `origin(k)` of `entries`.
    let origin = |k: int| if k == i { last } else { k };
    assert forall|k: int| 0 <= k < after.len() implies #[trigger] after[k] == entries[origin(k)] by {}
    assert(distinct(after)) by {
        assert forall|a: int, b: int| 0 <= a < b < after.len() implies (#[trigger] after[a]).claim
            != (#[trigger] after[b]).claim by {
            assert(after[a] == entries[origin(a)]);
            assert(after[b] == entries[origin(b)]);
            if origin(a) < origin(b) {
                assert(entries[origin(a)].claim != entries[origin(b)].claim);
            } else {
                assert(entries[origin(b)].claim != entries[origin(a)].claim);
            }
        }
    }
    let expected = claims_of(entries).remove(gone);
    assert forall|claim: Fingerprint| #[trigger]
        claims_of(after).contains_key(claim) == expected.contains_key(claim) by {
        if listed(after, claim) {
            let k = choose|k: int| 0 <= k < after.len() && (#[trigger] after[k]).claim == claim;
            assert(after[k] == entries[origin(k)]);
            assert(entries[origin(k)].claim == claim);
            if origin(k) < i {
                assert(entries[origin(k)].claim != entries[i].claim);
            } else {
                assert(entries[i].claim != entries[origin(k)].claim);
            }
        }
        if listed(entries, claim) && claim != gone {
            let k = choose|k: int| 0 <= k < entries.len() && (#[trigger] entries[k]).claim == claim;
            if k == last {
                assert(after[i].claim == claim);
            } else {
                assert(after[k].claim == claim);
            }
        }
    }
    assert forall|claim: Fingerprint| #[trigger] expected.contains_key(claim) implies claims_of(
        after,
    )[claim] == expected[claim] by {
        let k = choose|k: int| 0 <= k < entries.len() && (#[trigger] entries[k]).claim == claim;
        lemma_entry_is_slot(entries, k);
        let moved = if k == last { i } else { k };
        assert(after[moved] == entries[k]);
        lemma_entry_is_slot(after, moved);
    }
    assert(claims_of(after) =~= expected);
}

/// Replacing the record of entry `i` replaces it in the map.
proof fn lemma_update(entries: Seq<Entry>, i: int, record: Claim)
    requires
        distinct(entries),
        0 <= i < entries.len(),
    ensures
        distinct(entries.update(i, Entry { claim: entries[i].claim, record })),
        claims_of(entries.update(i, Entry { claim: entries[i].claim, record })) == claims_of(
            entries,
        ).insert(entries[i].claim, record),
{
    let claim = entries[i].claim;
    let after = entries.update(i, Entry { claim, record });
    assert forall|k: int| 0 <= k < after.len() implies (#[trigger] after[k]).claim
        == entries[k].claim by {}
    assert(distinct(after)) by {
        assert forall|a: int, b: int| 0 <= a < b < after.len() implies (#[trigger] after[a]).claim
            != (#[trigger] after[b]).claim by {
            assert(entries[a].claim != entries[b].claim);
        }
    }
    let expected = claims_of(entries).insert(claim, record);
    assert forall|f: Fingerprint| #[trigger]
        claims_of(after).contains_key(f) == expected.contains_key(f) by {
        if listed(after, f) {
            let k = choose|k: int| 0 <= k < after.len() && (#[trigger] after[k]).claim == f;
            assert(entries[k].claim == f);
        }
        if listed(entries, f) {
            let k = choose|k: int| 0 <= k < entries.len() && (#[trigger] entries[k]).claim == f;
            assert(after[k].claim == f);
        }
        if f == claim {
            assert(after[i].claim == f);
        }
    }
    assert forall|f: Fingerprint| #[trigger] expected.contains_key(f) implies claims_of(after)[f]
        == expected[f] by {
        let k = choose|k: int| 0 <= k < entries.len() && (#[trigger] entries[k]).claim == f;
        lemma_entry_is_slot(entries, k);
        lemma_entry_is_slot(after, k);
    }
    assert(claims_of(after) =~= expected);
}

/// A list without repetition stands for a finite map with one key for each
/// entry.
proof fn lemma_count(entries: Seq<Entry>)
    requires
        distinct(entries),
    ensures
        claims_of(entries).dom().finite(),
        claims_of(entries).len() == entries.len(),
    decreases entries.len(),
{
    if entries.len() == 0 {
        assert(claims_of(entries) =~= Map::empty());
    } else {
        let front = entries.drop_last();
        let last = entries.last();
        assert(distinct(front)) by {
            assert forall|i: int, j: int| 0 <= i < j < front.len() implies (#[trigger] front[i]).claim
                != (#[trigger] front[j]).claim by {
                assert(front[i] == entries[i]);
                assert(front[j] == entries[j]);
            }
        }
        assert(!listed(front, last.claim)) by {
            if listed(front, last.claim) {
                let i = choose|i: int| 0 <= i < front.len() && (#[trigger] front[i]).claim == last.claim;
                assert(front[i] == entries[i]);
                assert(entries[i].claim != entries[entries.len() - 1].claim);
            }
        }
        lemma_count(front);
        lemma_push(front, last);
        assert(front.push(last) =~= entries);
    }
}

/// The active claims, at most one for each fingerprint.
pub struct Claims {
    entries: Vec<Entry>,
}

impl View for Claims {
    type V = Map<Fingerprint, Claim>;

    closed spec fn view(&self) -> Map<Fingerprint, Claim> {
        claims_of(self.entries@)
    }
}

impl Claims {
    #[verifier::type_invariant]
    spec fn unique_fingerprints(self) -> bool {
        distinct(self.entries@)
    }

    /// A table without claims.
    pub fn new() -> (r: Claims)
        ensures
            r@ == Map::<Fingerprint, Claim>::empty(),
    {
        let r = Claims { entries: Vec::new() };
        assert(r@ =~= Map::empty());
        r
    }

    /// The place of the entry for `claim`, if there is one.
    fn position(&self, claim: &Fingerprint) -> (r: Option<usize>)
        ensures
            match r {
                Some(i) => i < self.entries@.len() && self.entries@[i as int].claim == *claim,
                None => !listed(self.entries@, *claim),
            },
    {
        let mut i: usize = 0;
        while i < self.entries.len()
            invariant
                0 <= i <= self.entries@.len(),
                forall|k: int| 0 <= k < i ==> (#[trigger] self.entries@[k]).claim != *claim,
            decreases self.entries@.len() - i,
        {
            if self.entries[i].claim == *claim {
                return Some(i);
            }
            i += 1;
        }
        None
    }

    /// The claim stored for `claim`, if there is one.
    pub fn get(&self, claim: &Fingerprint) -> (r: Option<Claim>)
        ensures
            r == (if self@.contains_key(*claim) {
                Some(self@[*claim])
            } else {
                None
            }),
    {
        proof {
            use_type_invariant(self);
        }
        match self.position(claim) {
            Some(i) => {
                proof {
                    lemma_entry_is_slot(self.entries@, i as int);
                }
                Some(self.entries[i].record)
            },
            None => None,
        }
    }

    /// Stores `record` for `claim`, in place of what was stored for it.
    pub fn insert(&mut self, claim: Fingerprint, record: Claim)
        ensures
            final(self)@ == old(self)@.insert(claim, record),
    {
        proof {
            use_type_invariant(&*self);
        }
        let place = self.position(&claim);
        let mut entries: Vec<Entry> = Vec::new();
        std::mem::swap(&mut entries, &mut self.entries);
        match place {
            Some(i) => {
                proof {
                    lemma_update(entries@, i as int, record);
                }
                entries[i] = Entry { claim, record };
            },
            None => {
                proof {
                    lemma_push(entries@, Entry { claim, record });
                }
                entries.push(Entry { claim, record });
            },
        }
        self.entries = entries;
    }

    /// Removes what is stored for `claim`, if anything.
    pub fn remove(&mut self, claim: &Fingerprint)
        ensures
            final(self)@ == old(self)@.remove(*claim),
    {
        proof {
            use_type_invariant(&*self);
        }
        match self.position(claim) {
            Some(i) => {
                let mut entries: Vec<Entry> = Vec::new();
                std::mem::swap(&mut entries, &mut self.entries);
                proof {
                    lemma_swap_remove(entries@, i as int);
                }
                entries.swap_remove(i);
                self.entries = entries;
            },
            None => {
                assert(self@.remove(*claim) =~= self@);
            },
        }
    }

    /// The number of claims stored.
    pub fn len(&self) -> (r: usize)
        ensures
            self@.dom().finite(),
            r == self@.len(),
    {
        proof {
            use_type_invariant(self);
            lemma_count(self.entries@);
        }
        self.entries.len()
    }
}

} // verus!
