//! The listing record stored per asset key, its mathematical image, and the
//! byte-string helpers used to compare and copy identifiers.

use vstd::prelude::*;

verus! {

/// A listing: a seller's standing offer to sell one specific non-fungible
/// unit at a fixed ask price. The collection identifier and serial number
/// are a redundant copy of the registry key, kept for response payloads.
#[derive(Debug)]
pub struct NftListing {
    /// Collection identifier of the listed asset.
    pub nft_token: Vec<u8>,
    /// Serial number of the asset inside its collection.
    pub nft_nonce: u64,
    /// The seller: the only identity entitled to update or cancel the
    /// listing, and the one owed the proceeds of a sale.
    pub nft_original_owner: Vec<u8>,
    /// Ask price, in the smallest native value unit.
    pub listing_amount: u128,
    /// Logical timestamp recorded at creation; price updates keep it.
    pub listing_publish_time: u64,
}

/// The mathematical image of a listing record.
pub ghost struct ListingView {
    pub nft_token: Seq<u8>,
    pub nft_nonce: u64,
    pub nft_original_owner: Seq<u8>,
    pub listing_amount: u128,
    pub listing_publish_time: u64,
}

impl View for NftListing {
    type V = ListingView;

    open spec fn view(&self) -> ListingView {
        ListingView {
            nft_token: self.nft_token@,
            nft_nonce: self.nft_nonce,
            nft_original_owner: self.nft_original_owner@,
            listing_amount: self.listing_amount,
            listing_publish_time: self.listing_publish_time,
        }
    }
}

impl NftListing {
    /// A fresh record with the same contents, for read-only snapshots.
    pub fn duplicate(&self) -> (r: NftListing)
        ensures
            r@ == self@,
    {
        NftListing {
            nft_token: copy_bytes(&self.nft_token),
            nft_nonce: self.nft_nonce,
            nft_original_owner: copy_bytes(&self.nft_original_owner),
            listing_amount: self.listing_amount,
            listing_publish_time: self.listing_publish_time,
        }
    }
}

/// Whether two byte strings hold the same bytes.
pub fn bytes_eq(a: &Vec<u8>, b: &Vec<u8>) -> (r: bool)
    ensures
        r == (a@ == b@),
{
    if a.len() != b.len() {
        return false;
    }
    let mut i: usize = 0;
    while i < a.len()
        invariant
            a@.len() == b@.len(),
            i <= a@.len(),
            forall|j: int| 0 <= j < i ==> a@[j] == b@[j],
        decreases a@.len() - i,
    {
        if a[i] != b[i] {
            return false;
        }
        i += 1;
    }
    proof {
        assert(a@ =~= b@);
    }
    true
}

/// A fresh byte string with the same bytes.
pub fn copy_bytes(src: &Vec<u8>) -> (r: Vec<u8>)
    ensures
        r@ == src@,
{
    let mut r: Vec<u8> = Vec::new();
    let mut i: usize = 0;
    while i < src.len()
        invariant
            i <= src@.len(),
            r@.len() == i,
            forall|j: int| 0 <= j < i ==> r@[j] == src@[j],
        decreases src@.len() - i,
    {
        r.push(src[i]);
        i += 1;
    }
    proof {
        assert(r@ =~= src@);
    }
    r
}

} // verus!
