//! The listing registry: a persistent keyed store mapping an asset key
//! (collection identifier, serial number) to its current listing record.
//! At most one listing exists per key, and iteration order is the insertion
//! order of first-time key creation.

use vstd::prelude::*;
use crate::listing::{bytes_eq, ListingView, NftListing};

verus! {

/// The listing's key equals the given collection identifier and serial number.
pub open spec fn key_matches(l: ListingView, nft_token: Seq<u8>, nft_nonce: u64) -> bool {
    l.nft_token == nft_token && l.nft_nonce == nft_nonce
}

/// Two listings carry the same asset key.
pub open spec fn same_key(a: ListingView, b: ListingView) -> bool {
    a.nft_token == b.nft_token && a.nft_nonce == b.nft_nonce
}

/// Some listing with the given key is present.
pub open spec fn spec_contains_key(s: Seq<ListingView>, nft_token: Seq<u8>, nft_nonce: u64) -> bool {
    exists|i: int| 0 <= i < s.len() && key_matches(#[trigger] s[i], nft_token, nft_nonce)
}

/// The position of the listing with the given key; meaningful only when
/// `spec_contains_key` holds, and then unique under `unique_keys`.
pub open spec fn spec_index_of(s: Seq<ListingView>, nft_token: Seq<u8>, nft_nonce: u64) -> int {
    choose|i: int| 0 <= i < s.len() && key_matches(#[trigger] s[i], nft_token, nft_nonce)
}

/// The listing stored under the given key; meaningful only when
/// `spec_contains_key` holds.
pub open spec fn spec_get(s: Seq<ListingView>, nft_token: Seq<u8>, nft_nonce: u64) -> ListingView {
    s[spec_index_of(s, nft_token, nft_nonce)]
}

/// The registry key invariant: at most one listing per asset key.
pub open spec fn unique_keys(s: Seq<ListingView>) -> bool {
    forall|i: int, j: int|
        #![trigger s[i], s[j]]
        0 <= i < s.len() && 0 <= j < s.len() && i != j ==> !same_key(s[i], s[j])
}

/// Any index whose listing matches the key is the index `spec_index_of` names.
pub proof fn lemma_index_of_unique(s: Seq<ListingView>, nft_token: Seq<u8>, nft_nonce: u64, i: int)
    requires
        unique_keys(s),
        0 <= i < s.len(),
        key_matches(s[i], nft_token, nft_nonce),
    ensures
        spec_contains_key(s, nft_token, nft_nonce),
        spec_index_of(s, nft_token, nft_nonce) == i,
        spec_get(s, nft_token, nft_nonce) == s[i],
{
    assert(spec_contains_key(s, nft_token, nft_nonce));
    let j = spec_index_of(s, nft_token, nft_nonce);
    assert(0 <= j < s.len() && key_matches(s[j], nft_token, nft_nonce));
    if i != j {
        assert(!same_key(s[i], s[j]));
        assert(false);
    }
}

/// Law (round trip): inserting a listing under a fresh key and looking that
/// key up returns exactly the listing that was inserted.
pub proof fn lemma_fresh_listing_round_trip(s: Seq<ListingView>, l: ListingView)
    requires
        !spec_contains_key(s, l.nft_token, l.nft_nonce),
    ensures
        spec_contains_key(s.push(l), l.nft_token, l.nft_nonce),
        spec_get(s.push(l), l.nft_token, l.nft_nonce) == l,
{
    let s2 = s.push(l);
    assert(s2[s.len() as int] == l);
    assert(spec_contains_key(s2, l.nft_token, l.nft_nonce));
    let j = spec_index_of(s2, l.nft_token, l.nft_nonce);
    assert(0 <= j < s2.len() && key_matches(s2[j], l.nft_token, l.nft_nonce));
    if j < s.len() {
        assert(key_matches(s[j], l.nft_token, l.nft_nonce));
        assert(false);
    }
}

/// Law (exclusivity): once the listing at a key is removed, no listing with
/// that key remains until a new one is inserted.
pub proof fn lemma_removed_key_absent(s: Seq<ListingView>, nft_token: Seq<u8>, nft_nonce: u64)
    requires
        unique_keys(s),
        spec_contains_key(s, nft_token, nft_nonce),
    ensures
        !spec_contains_key(s.remove(spec_index_of(s, nft_token, nft_nonce)), nft_token, nft_nonce),
{
    let j = spec_index_of(s, nft_token, nft_nonce);
    assert(0 <= j < s.len() && key_matches(s[j], nft_token, nft_nonce));
    let s2 = s.remove(j);
    s.remove_ensures(j);
    assert forall|i: int| 0 <= i < s2.len() implies !key_matches(#[trigger] s2[i], nft_token, nft_nonce) by {
        if i < j {
            assert(s2[i] == s[i]);
            if key_matches(s[i], nft_token, nft_nonce) {
                assert(!same_key(s[i], s[j]));
                assert(false);
            }
        } else {
            assert(s2[i] == s[i + 1]);
            if key_matches(s[i + 1], nft_token, nft_nonce) {
                assert(!same_key(s[i + 1], s[j]));
                assert(false);
            }
        }
    }
}

/// The keyed store of active listings, in insertion order of first-time key
/// creation. Its view is the sequence of listing images; `unique_keys` is
/// the invariant every mutating operation preserves.
pub struct ListingRegistry {
    entries: Vec<NftListing>,
}

impl View for ListingRegistry {
    type V = Seq<ListingView>;

    closed spec fn view(&self) -> Seq<ListingView> {
        Seq::new(self.entries@.len(), |i: int| self.entries@[i]@)
    }
}

impl ListingRegistry {
    /// An empty registry.
    pub fn new() -> (r: ListingRegistry)
        ensures
            r@ == Seq::<ListingView>::empty(),
            unique_keys(r@),
    {
        let r = ListingRegistry { entries: Vec::new() };
        proof {
            assert(r@ =~= Seq::<ListingView>::empty());
        }
        r
    }

    /// How many listings are active.
    pub fn len(&self) -> (n: usize)
        ensures
            n == self@.len(),
    {
        self.entries.len()
    }

    /// The position of the listing under the given key, if any.
    fn find_index(&self, nft_token: &Vec<u8>, nft_nonce: u64) -> (r: Option<usize>)
        ensures
            match r {
                Some(i) => 0 <= i < self@.len() && key_matches(self@[i as int], nft_token@, nft_nonce),
                None => !spec_contains_key(self@, nft_token@, nft_nonce),
            },
    {
        let mut i: usize = 0;
        while i < self.entries.len()
            invariant
                i <= self.entries.len(),
                forall|j: int| 0 <= j < i ==> !key_matches(#[trigger] self@[j], nft_token@, nft_nonce),
            decreases self.entries.len() - i,
        {
            let entry = &self.entries[i];
            if entry.nft_nonce == nft_nonce && bytes_eq(&entry.nft_token, nft_token) {
                return Some(i);
            }
            i += 1;
        }
        None
    }

    /// Whether a listing is stored under the given key.
    pub fn contains_key(&self, nft_token: &Vec<u8>, nft_nonce: u64) -> (r: bool)
        ensures
            r == spec_contains_key(self@, nft_token@, nft_nonce),
    {
        match self.find_index(nft_token, nft_nonce) {
            Some(i) => {
                proof {
                    assert(key_matches(self@[i as int], nft_token@, nft_nonce));
                }
                true
            },
            None => false,
        }
    }

    /// The listing stored under the given key, absent if none exists.
    pub fn get(&self, nft_token: &Vec<u8>, nft_nonce: u64) -> (r: Option<&NftListing>)
        requires
            unique_keys(self@),
        ensures
            match r {
                Some(l) => spec_contains_key(self@, nft_token@, nft_nonce)
                    && l@ == spec_get(self@, nft_token@, nft_nonce),
                None => !spec_contains_key(self@, nft_token@, nft_nonce),
            },
    {
        match self.find_index(nft_token, nft_nonce) {
            Some(i) => {
                proof {
                    lemma_index_of_unique(self@, nft_token@, nft_nonce, i as int);
                }
                Some(&self.entries[i])
            },
            None => None,
        }
    }

    /// Insert the listing under its own key, or overwrite the record already
    /// stored under that key. Keeps every other listing, and keeps order.
    pub fn put(&mut self, listing: NftListing)
        requires
            unique_keys(old(self)@),
        ensures
            unique_keys(final(self)@),
            spec_contains_key(final(self)@, listing@.nft_token, listing@.nft_nonce),
            !spec_contains_key(old(self)@, listing@.nft_token, listing@.nft_nonce)
                ==> final(self)@ == old(self)@.push(listing@),
            spec_contains_key(old(self)@, listing@.nft_token, listing@.nft_nonce)
                ==> final(self)@ == old(self)@.update(
                    spec_index_of(old(self)@, listing@.nft_token, listing@.nft_nonce),
                    listing@,
                ),
    {
        let ghost s_old = self@;
        let ghost lv = listing@;
        match self.find_index(&listing.nft_token, listing.nft_nonce) {
            Some(i) => {
                proof {
                    lemma_index_of_unique(s_old, lv.nft_token, lv.nft_nonce, i as int);
                }
                self.entries[i] = listing;
                proof {
                    assert(self@ =~= s_old.update(i as int, lv));
                    assert forall|k: int, l: int|
                        0 <= k < self@.len() && 0 <= l < self@.len() && k != l
                        implies !same_key(#[trigger] self@[k], #[trigger] self@[l]) by {
                        if k == i as int {
                            if same_key(lv, s_old[l]) {
                                assert(!same_key(s_old[k], s_old[l]));
                                assert(false);
                            }
                        } else if l == i as int {
                            if same_key(s_old[k], lv) {
                                assert(!same_key(s_old[k], s_old[l]));
                                assert(false);
                            }
                        } else {
                            assert(!same_key(s_old[k], s_old[l]));
                        }
                    }
                    assert(key_matches(self@[i as int], lv.nft_token, lv.nft_nonce));
                }
            },
            None => {
                self.entries.push(listing);
                proof {
                    assert(self@ =~= s_old.push(lv));
                    let n = s_old.len() as int;
                    assert forall|k: int, l: int|
                        0 <= k < self@.len() && 0 <= l < self@.len() && k != l
                        implies !same_key(#[trigger] self@[k], #[trigger] self@[l]) by {
                        if k == n {
                            if same_key(lv, s_old[l]) {
                                assert(key_matches(s_old[l], lv.nft_token, lv.nft_nonce));
                                assert(false);
                            }
                        } else if l == n {
                            if same_key(s_old[k], lv) {
                                assert(key_matches(s_old[k], lv.nft_token, lv.nft_nonce));
                                assert(false);
                            }
                        } else {
                            assert(!same_key(s_old[k], s_old[l]));
                        }
                    }
                    assert(key_matches(self@[n], lv.nft_token, lv.nft_nonce));
                }
            },
        }
    }

    /// Delete the listing under the given key; a no-op if none exists.
    pub fn remove(&mut self, nft_token: &Vec<u8>, nft_nonce: u64)
        requires
            unique_keys(old(self)@),
        ensures
            unique_keys(final(self)@),
            !spec_contains_key(final(self)@, nft_token@, nft_nonce),
            !spec_contains_key(old(self)@, nft_token@, nft_nonce)
                ==> final(self)@ == old(self)@,
            spec_contains_key(old(self)@, nft_token@, nft_nonce)
                ==> final(self)@ == old(self)@.remove(
                    spec_index_of(old(self)@, nft_token@, nft_nonce),
                ),
    {
        let ghost s_old = self@;
        match self.find_index(nft_token, nft_nonce) {
            Some(i) => {
                proof {
                    lemma_index_of_unique(s_old, nft_token@, nft_nonce, i as int);
                    s_old.remove_ensures(i as int);
                }
                self.entries.remove(i);
                proof {
                    assert(self@ =~= s_old.remove(i as int));
                    assert forall|k: int, l: int|
                        0 <= k < self@.len() && 0 <= l < self@.len() && k != l
                        implies !same_key(#[trigger] self@[k], #[trigger] self@[l]) by {
                        let k0: int = if k < i as int { k } else { k + 1 };
                        let l0: int = if l < i as int { l } else { l + 1 };
                        assert(self@[k] == s_old[k0]);
                        assert(self@[l] == s_old[l0]);
                        assert(!same_key(s_old[k0], s_old[l0]));
                    }
                    lemma_removed_key_absent(s_old, nft_token@, nft_nonce);
                }
            },
            None => {},
        }
    }

    /// A point-in-time copy of every active listing, in insertion order.
    pub fn all(&self) -> (r: Vec<NftListing>)
        ensures
            r@.len() == self@.len(),
            forall|i: int| 0 <= i < self@.len() ==> #[trigger] r@[i]@ == self@[i],
    {
        let mut r: Vec<NftListing> = Vec::new();
        let mut i: usize = 0;
        while i < self.entries.len()
            invariant
                i <= self.entries.len(),
                r@.len() == i,
                forall|j: int| 0 <= j < i ==> #[trigger] r@[j]@ == self@[j],
            decreases self.entries.len() - i,
        {
            let copy = self.entries[i].duplicate();
            r.push(copy);
            i += 1;
        }
        r
    }
}

} // verus!
