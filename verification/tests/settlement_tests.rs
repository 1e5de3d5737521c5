use ghostversemarketplace::settlement::{split, MARKETPLACE_CUT, NFT_AMOUNT, PERCENTAGE_TOTAL};

#[test]
fn constants_are_the_documented_ones() {
    assert_eq!(NFT_AMOUNT, 1);
    assert_eq!(MARKETPLACE_CUT, 300);
    assert_eq!(PERCENTAGE_TOTAL, 10_000);
}

#[test]
fn split_of_scenario_price() {
    // 3% platform cut and 5% royalty on 1_000_000.
    let s = split(1_000_000, 500);
    assert_eq!(s.fee, 30_000);
    assert_eq!(s.royalty, 50_000);
    assert_eq!(s.seller_proceeds, 920_000);
    assert_eq!(s.fee + s.royalty + s.seller_proceeds, 1_000_000);
}

#[test]
fn split_conserves_price_with_rounding_dust() {
    // 9_999 * 300 / 10_000 rounds down to 299 and 9_999 * 1 / 10_000 to 0;
    // all dust accrues to the seller.
    let s = split(9_999, 1);
    assert_eq!(s.fee, 299);
    assert_eq!(s.royalty, 0);
    assert_eq!(s.seller_proceeds, 9_700);
    assert_eq!(s.fee + s.royalty + s.seller_proceeds, 9_999);
}

#[test]
fn split_of_zero_price() {
    let s = split(0, 9_699);
    assert_eq!(s.fee, 0);
    assert_eq!(s.royalty, 0);
    assert_eq!(s.seller_proceeds, 0);
}

#[test]
fn split_at_largest_accepted_royalty() {
    // 300 + 9_699 == 9_999 < 10_000: still accepted, seller keeps the rest.
    let s = split(10_000, 9_699);
    assert_eq!(s.fee, 300);
    assert_eq!(s.royalty, 9_699);
    assert_eq!(s.seller_proceeds, 1);
    assert_eq!(s.fee + s.royalty + s.seller_proceeds, 10_000);
}
