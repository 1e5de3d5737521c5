use ghostversemarketplace::listing::{bytes_eq, NftListing};
use ghostversemarketplace::registry::ListingRegistry;

fn record(token: &[u8], nonce: u64, amount: u128) -> NftListing {
    NftListing {
        nft_token: token.to_vec(),
        nft_nonce: nonce,
        nft_original_owner: b"erd1seller".to_vec(),
        listing_amount: amount,
        listing_publish_time: 5,
    }
}

#[test]
fn bytes_eq_compares_contents() {
    assert!(bytes_eq(&b"GHOSTSET-531aff".to_vec(), &b"GHOSTSET-531aff".to_vec()));
    assert!(!bytes_eq(&b"GHOSTSET-531aff".to_vec(), &b"GHOSTSET-531afe".to_vec()));
    assert!(!bytes_eq(&b"GHOSTSET".to_vec(), &b"GHOSTSET-531aff".to_vec()));
    assert!(bytes_eq(&Vec::new(), &Vec::new()));
}

#[test]
fn duplicate_copies_every_field() {
    let original = record(b"GHOSTSET-531aff", 1, 42);
    let copy = original.duplicate();
    assert_eq!(copy.nft_token, original.nft_token);
    assert_eq!(copy.nft_nonce, original.nft_nonce);
    assert_eq!(copy.nft_original_owner, original.nft_original_owner);
    assert_eq!(copy.listing_amount, original.listing_amount);
    assert_eq!(copy.listing_publish_time, original.listing_publish_time);
}

#[test]
fn empty_registry_has_nothing() {
    let reg = ListingRegistry::new();
    assert_eq!(reg.len(), 0);
    assert!(!reg.contains_key(&b"GHOSTSET-531aff".to_vec(), 1));
    assert!(reg.get(&b"GHOSTSET-531aff".to_vec(), 1).is_none());
    assert_eq!(reg.all().len(), 0);
}

#[test]
fn put_inserts_and_overwrites_in_place() {
    let mut reg = ListingRegistry::new();
    reg.put(record(b"ALPHA-000001", 1, 10));
    reg.put(record(b"BETA-000002", 2, 20));
    assert_eq!(reg.len(), 2);
    assert!(reg.contains_key(&b"ALPHA-000001".to_vec(), 1));

    // Overwriting the first key keeps its position and the other record.
    reg.put(record(b"ALPHA-000001", 1, 11));
    assert_eq!(reg.len(), 2);
    let all = reg.all();
    assert_eq!(all[0].nft_token, b"ALPHA-000001".to_vec());
    assert_eq!(all[0].listing_amount, 11);
    assert_eq!(all[1].nft_token, b"BETA-000002".to_vec());
    assert_eq!(all[1].listing_amount, 20);
}

#[test]
fn remove_deletes_only_its_key_and_tolerates_absence() {
    let mut reg = ListingRegistry::new();
    reg.put(record(b"ALPHA-000001", 1, 10));
    reg.put(record(b"BETA-000002", 2, 20));

    // Removing an absent key is a no-op.
    reg.remove(&b"GAMMA-000003".to_vec(), 3);
    assert_eq!(reg.len(), 2);

    reg.remove(&b"ALPHA-000001".to_vec(), 1);
    assert_eq!(reg.len(), 1);
    assert!(!reg.contains_key(&b"ALPHA-000001".to_vec(), 1));
    let kept = reg.get(&b"BETA-000002".to_vec(), 2).unwrap();
    assert_eq!(kept.listing_amount, 20);
}
