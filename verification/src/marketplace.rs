//! The marketplace orchestrator: the four public operations (list, buy,
//! update price, cancel) over the listing registry, plus the two read-only
//! projections. Each operation runs to completion or fails with a named
//! error and no effect.
//!
//! The host environment serializes all calls, supplies the custody facts,
//! the caller identity and the logical clock as plain values, and executes
//! the transfers a successful `buy_nft` or `cancel_listing` decides on.

use vstd::prelude::*;
use crate::custody::AssetFacts;
use crate::listing::{copy_bytes, ListingView, NftListing};
use crate::registry::{
    key_matches, spec_contains_key, spec_get, spec_index_of, unique_keys, ListingRegistry,
};
use crate::settlement::{
    spec_fee, spec_royalty, spec_seller_proceeds, split, MARKETPLACE_CUT, MAX_LISTABLE_PRICE,
    NFT_AMOUNT, PERCENTAGE_TOTAL,
};

verus! {

/// The failure taxonomy. Every failure is caller-visible, synchronous, and
/// leaves registry state exactly as before the call.
#[derive(Clone, Copy, Debug, PartialEq, Eq, Structural)]
pub enum MarketplaceError {
    /// The operation referenced a key with no active listing.
    NotFound,
    /// The caller is not the listing's original owner.
    NotOwner,
    /// The payment does not equal the ask price exactly.
    AmountMismatch,
    /// Custody does not hold exactly one non-fungible unit.
    InvalidAssetKind,
    /// Marketplace cut plus royalty rate would consume the whole price.
    FeeRoyaltyOverflow,
}

/// What a successful purchase obliges the host to transfer, as one
/// all-or-nothing unit of work, in this fixed order: the asset unit to the
/// buyer, the fee to the platform, the royalty to the creator, and the
/// proceeds to the seller.
#[derive(Debug)]
pub struct SettlementPlan {
    /// The buyer, who receives the asset unit.
    pub nft_recipient: Vec<u8>,
    /// Collection identifier of the sold asset.
    pub nft_token: Vec<u8>,
    /// Serial number of the sold asset.
    pub nft_nonce: u64,
    /// How many units to transfer: always `NFT_AMOUNT`.
    pub nft_amount: u64,
    /// The platform fee.
    pub marketplace_service_fee: u128,
    /// The platform account, which receives the fee.
    pub fee_recipient: Vec<u8>,
    /// The creator royalty, at the royalty rate read at sale time.
    pub royalty_amount: u128,
    /// The asset's creator, who receives the royalty.
    pub royalty_recipient: Vec<u8>,
    /// What the seller keeps.
    pub seller_proceeds: u128,
    /// The seller recorded in the listing, who receives the proceeds.
    pub seller_recipient: Vec<u8>,
}

/// The marketplace: the listing registry together with the rules that keep
/// custody, listing state and payment state consistent.
pub struct Ghostversemarketplace {
    listings: ListingRegistry,
}

impl View for Ghostversemarketplace {
    type V = Seq<ListingView>;

    closed spec fn view(&self) -> Seq<ListingView> {
        self.listings@
    }
}

impl Ghostversemarketplace {
    /// Well-formedness: at most one listing per asset key, and every stored
    /// ask price small enough for the settlement arithmetic.
    pub open spec fn wf(&self) -> bool {
        &&& unique_keys(self@)
        &&& forall|i: int|
            0 <= i < self@.len() ==> (#[trigger] self@[i]).listing_amount <= MAX_LISTABLE_PRICE
    }

    /// A fresh marketplace with no listings.
    pub fn init() -> (r: Ghostversemarketplace)
        ensures
            r@ == Seq::<ListingView>::empty(),
            r.wf(),
    {
        Ghostversemarketplace { listings: ListingRegistry::new() }
    }

    /// Reserved for later use; keeps all state as it is.
    pub fn upgrade(&mut self)
        ensures
            *final(self) == *old(self),
    {
    }

    /// The registry of active listings.
    pub fn listing_details(&self) -> (r: &ListingRegistry)
        ensures
            r@ == self@,
    {
        &self.listings
    }

    /// A point-in-time copy of every active listing, in insertion order of
    /// first-time key creation.
    pub fn get_full_marketplace_data(&self) -> (r: Vec<NftListing>)
        ensures
            r@.len() == self@.len(),
            forall|i: int| 0 <= i < self@.len() ==> #[trigger] r@[i]@ == self@[i],
    {
        self.listings.all()
    }

    /// The listing under the given key, or `NotFound`. Read-only: the result
    /// is a function of the current registry state alone, so repeated calls
    /// without an intervening mutation return identical records.
    pub fn get_listing(&self, nft_token: &Vec<u8>, nft_nonce: u64) -> (r: Result<
        NftListing,
        MarketplaceError,
    >)
        requires
            self.wf(),
        ensures
            r is Ok <==> spec_contains_key(self@, nft_token@, nft_nonce),
            r matches Ok(l) ==> l@ == spec_get(self@, nft_token@, nft_nonce),
            r matches Err(e) ==> e == MarketplaceError::NotFound,
    {
        match self.listings.get(nft_token, nft_nonce) {
            Some(l) => Ok(l.duplicate()),
            None => Err(MarketplaceError::NotFound),
        }
    }

    /// Create a listing for an asset key that has none, after the custody
    /// check. Rejects with `InvalidAssetKind` unless custody holds exactly
    /// one non-fungible unit, and with `FeeRoyaltyOverflow` unless the
    /// marketplace cut plus the asset's royalty rate stays strictly below
    /// `PERCENTAGE_TOTAL`. On success the listing is appended with the
    /// caller as seller and the given publish time.
    pub fn list_nft(
        &mut self,
        nft_token: Vec<u8>,
        nft_nonce: u64,
        listing_amount: u128,
        caller: Vec<u8>,
        nft_info: &AssetFacts,
        publish_time: u64,
    ) -> (r: Result<(), MarketplaceError>)
        requires
            old(self).wf(),
            !spec_contains_key(old(self)@, nft_token@, nft_nonce),
            listing_amount <= MAX_LISTABLE_PRICE,
        ensures
            final(self).wf(),
            r is Ok <==> nft_info.spec_single_nft()
                && MARKETPLACE_CUT + nft_info.royalty_rate < PERCENTAGE_TOTAL,
            r is Ok ==> final(self)@ == old(self)@.push(
                (ListingView {
                    nft_token: nft_token@,
                    nft_nonce,
                    nft_original_owner: caller@,
                    listing_amount,
                    listing_publish_time: publish_time,
                }),
            ),
            r == Err::<(), MarketplaceError>(MarketplaceError::InvalidAssetKind)
                <==> !nft_info.spec_single_nft(),
            r == Err::<(), MarketplaceError>(MarketplaceError::FeeRoyaltyOverflow)
                <==> nft_info.spec_single_nft()
                && MARKETPLACE_CUT + nft_info.royalty_rate >= PERCENTAGE_TOTAL,
            r is Err ==> final(self)@ == old(self)@,
    {
        if !nft_info.is_single_nft() {
            return Err(MarketplaceError::InvalidAssetKind);
        }
        if nft_info.royalty_rate >= PERCENTAGE_TOTAL - MARKETPLACE_CUT {
            return Err(MarketplaceError::FeeRoyaltyOverflow);
        }
        let listing = NftListing {
            nft_token,
            nft_nonce,
            nft_original_owner: caller,
            listing_amount,
            listing_publish_time: publish_time,
        };
        self.listings.put(listing);
        Ok(())
    }

    /// Overwrite the ask price of the caller's own listing; the seller and
    /// publish time are preserved unchanged. Rejects with `NotFound` if the
    /// key has no listing, and with `NotOwner` if the caller is not the
    /// listing's original owner; either failure leaves the registry as it was.
    pub fn update_price(
        &mut self,
        nft_token: &Vec<u8>,
        nft_nonce: u64,
        listing_amount: u128,
        caller: &Vec<u8>,
    ) -> (r: Result<(), MarketplaceError>)
        requires
            old(self).wf(),
            listing_amount <= MAX_LISTABLE_PRICE,
        ensures
            final(self).wf(),
            r is Ok <==> spec_contains_key(old(self)@, nft_token@, nft_nonce)
                && spec_get(old(self)@, nft_token@, nft_nonce).nft_original_owner == caller@,
            r == Err::<(), MarketplaceError>(MarketplaceError::NotFound)
                <==> !spec_contains_key(old(self)@, nft_token@, nft_nonce),
            r == Err::<(), MarketplaceError>(MarketplaceError::NotOwner)
                <==> spec_contains_key(old(self)@, nft_token@, nft_nonce)
                && spec_get(old(self)@, nft_token@, nft_nonce).nft_original_owner != caller@,
            r is Ok ==> final(self)@ == old(self)@.update(
                spec_index_of(old(self)@, nft_token@, nft_nonce),
                (ListingView {
                    listing_amount,
                    ..spec_get(old(self)@, nft_token@, nft_nonce)
                }),
            ),
            r is Err ==> final(self)@ == old(self)@,
    {
        let listing = match self.listings.get(nft_token, nft_nonce) {
            None => {
                return Err(MarketplaceError::NotFound);
            },
            Some(l) => l,
        };
        if !crate::listing::bytes_eq(&listing.nft_original_owner, caller) {
            return Err(MarketplaceError::NotOwner);
        }
        let mut updated = listing.duplicate();
        updated.listing_amount = listing_amount;
        self.listings.put(updated);
        Ok(())
    }

    /// Withdraw the caller's own listing: the record is removed, and the
    /// host returns the asset unit to the caller afterwards. Rejects with
    /// `NotFound` or `NotOwner` as `update_price` does, with no effect.
    pub fn cancel_listing(
        &mut self,
        nft_token: &Vec<u8>,
        nft_nonce: u64,
        caller: &Vec<u8>,
    ) -> (r: Result<(), MarketplaceError>)
        requires
            old(self).wf(),
        ensures
            final(self).wf(),
            r is Ok <==> spec_contains_key(old(self)@, nft_token@, nft_nonce)
                && spec_get(old(self)@, nft_token@, nft_nonce).nft_original_owner == caller@,
            r == Err::<(), MarketplaceError>(MarketplaceError::NotFound)
                <==> !spec_contains_key(old(self)@, nft_token@, nft_nonce),
            r == Err::<(), MarketplaceError>(MarketplaceError::NotOwner)
                <==> spec_contains_key(old(self)@, nft_token@, nft_nonce)
                && spec_get(old(self)@, nft_token@, nft_nonce).nft_original_owner != caller@,
            r is Ok ==> final(self)@ == old(self)@.remove(
                spec_index_of(old(self)@, nft_token@, nft_nonce),
            ),
            r is Ok ==> !spec_contains_key(final(self)@, nft_token@, nft_nonce),
            r is Err ==> final(self)@ == old(self)@,
    {
        let listing = match self.listings.get(nft_token, nft_nonce) {
            None => {
                return Err(MarketplaceError::NotFound);
            },
            Some(l) => l,
        };
        if !crate::listing::bytes_eq(&listing.nft_original_owner, caller) {
            return Err(MarketplaceError::NotOwner);
        }
        self.listings.remove(nft_token, nft_nonce);
        Ok(())
    }

    /// Buy a listed asset by paying its ask price exactly. Rejects with
    /// `NotFound` if the key has no listing and with `AmountMismatch` unless
    /// the payment equals the ask price, with no effect. On success the
    /// listing is removed and the returned plan fixes the four transfers the
    /// host must execute as one unit: the asset unit to the buyer, the fee
    /// to the platform account, the royalty (at the rate re-read from the
    /// ledger at sale time) to the creator, and the remaining proceeds to
    /// the seller.
    ///
    /// The bound on the combined rate mirrors the listing-time check: a
    /// sale-time royalty reading that broke it would be a fault of the
    /// ledger, which the host surfaces as a total abort, never as a split.
    pub fn buy_nft(
        &mut self,
        payment_amount: u128,
        nft_token: &Vec<u8>,
        nft_nonce: u64,
        buyer: Vec<u8>,
        platform_account: Vec<u8>,
        nft_info: &AssetFacts,
    ) -> (r: Result<SettlementPlan, MarketplaceError>)
        requires
            old(self).wf(),
            MARKETPLACE_CUT + nft_info.royalty_rate < PERCENTAGE_TOTAL,
        ensures
            final(self).wf(),
            r is Ok <==> spec_contains_key(old(self)@, nft_token@, nft_nonce)
                && payment_amount == spec_get(old(self)@, nft_token@, nft_nonce).listing_amount,
            r == Err::<SettlementPlan, MarketplaceError>(MarketplaceError::NotFound)
                <==> !spec_contains_key(old(self)@, nft_token@, nft_nonce),
            r == Err::<SettlementPlan, MarketplaceError>(MarketplaceError::AmountMismatch)
                <==> spec_contains_key(old(self)@, nft_token@, nft_nonce)
                && payment_amount != spec_get(old(self)@, nft_token@, nft_nonce).listing_amount,
            r matches Ok(plan) ==> ({
                let listing = spec_get(old(self)@, nft_token@, nft_nonce);
                &&& final(self)@ == old(self)@.remove(
                    spec_index_of(old(self)@, nft_token@, nft_nonce),
                )
                &&& !spec_contains_key(final(self)@, nft_token@, nft_nonce)
                &&& plan.nft_recipient@ == buyer@
                &&& plan.nft_token@ == nft_token@
                &&& plan.nft_nonce == nft_nonce
                &&& plan.nft_amount == NFT_AMOUNT
                &&& plan.marketplace_service_fee == spec_fee(listing.listing_amount as int)
                &&& plan.fee_recipient@ == platform_account@
                &&& plan.royalty_amount == spec_royalty(
                    listing.listing_amount as int,
                    nft_info.royalty_rate as int,
                )
                &&& plan.royalty_recipient@ == nft_info.creator_address@
                &&& plan.seller_proceeds == spec_seller_proceeds(
                    listing.listing_amount as int,
                    nft_info.royalty_rate as int,
                )
                &&& plan.seller_recipient@ == listing.nft_original_owner
                &&& plan.marketplace_service_fee + plan.royalty_amount + plan.seller_proceeds
                    == listing.listing_amount
            }),
            r is Err ==> final(self)@ == old(self)@,
    {
        let found = match self.listings.get(nft_token, nft_nonce) {
            None => {
                return Err(MarketplaceError::NotFound);
            },
            Some(l) => l,
        };
        if payment_amount != found.listing_amount {
            return Err(MarketplaceError::AmountMismatch);
        }
        let listing = found.duplicate();
        proof {
            let i = spec_index_of(self@, nft_token@, nft_nonce);
            assert(0 <= i < self@.len() && key_matches(self@[i], nft_token@, nft_nonce));
            assert(self@[i].listing_amount <= MAX_LISTABLE_PRICE);
        }
        let shares = split(listing.listing_amount, nft_info.royalty_rate);
        self.listings.remove(nft_token, nft_nonce);
        Ok(
            SettlementPlan {
                nft_recipient: buyer,
                nft_token: copy_bytes(nft_token),
                nft_nonce,
                nft_amount: NFT_AMOUNT,
                marketplace_service_fee: shares.fee,
                fee_recipient: platform_account,
                royalty_amount: shares.royalty,
                royalty_recipient: copy_bytes(&nft_info.creator_address),
                seller_proceeds: shares.seller_proceeds,
                seller_recipient: listing.nft_original_owner,
            },
        )
    }
}

} // verus!
