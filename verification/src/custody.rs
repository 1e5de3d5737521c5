//! Custody facts: what the external asset ledger reports about one asset
//! held by the marketplace's own custody account. The host reads them from
//! the ledger and hands them in as plain values; the library decides on them.

use vstd::prelude::*;

verus! {

/// A point-in-time reading of the external ledger for one asset key.
pub struct AssetFacts {
    /// How many units of the asset the marketplace's custody account holds.
    pub owned_amount: u128,
    /// Whether the ledger reports the asset as non-fungible.
    pub is_non_fungible: bool,
    /// The creator royalty attached to the asset, in basis points.
    pub royalty_rate: u64,
    /// The identity owed the royalty.
    pub creator_address: Vec<u8>,
}

impl AssetFacts {
    /// Custody holds exactly one unit and the asset is non-fungible: the
    /// only state in which a listing may be created.
    pub open spec fn spec_single_nft(&self) -> bool {
        self.owned_amount == 1 && self.is_non_fungible
    }

    /// Decide `spec_single_nft` on a concrete reading.
    pub fn is_single_nft(&self) -> (r: bool)
        ensures
            r == self.spec_single_nft(),
    {
        self.owned_amount == 1 && self.is_non_fungible
    }
}

} // verus!
