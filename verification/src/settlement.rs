//! The settlement calculator: the pure three-way split of a sale price into
//! platform fee, creator royalty and seller proceeds.

use vstd::prelude::*;
use vstd::arithmetic::div_mod::{lemma_div_pos_is_pos, lemma_fundamental_div_mod, lemma_mod_bound};
use vstd::arithmetic::mul::{
    lemma_mul_inequality, lemma_mul_is_commutative, lemma_mul_is_distributive_add,
    lemma_mul_is_distributive_sub, lemma_mul_nonnegative, lemma_mul_upper_bound,
};

verus! {

/// Number of units a listing covers: the marketplace sells single
/// non-fungible objects only.
pub const NFT_AMOUNT: u64 = 1;

/// The marketplace service fee, in basis points (3%).
pub const MARKETPLACE_CUT: u64 = 300;

/// Denominator of all basis-point percentages (100%).
pub const PERCENTAGE_TOTAL: u64 = 10_000;

/// Largest ask price a listing may carry, in the smallest native value unit.
/// The bound keeps `price * rate` inside `u128` for every basis-point rate
/// below `PERCENTAGE_TOTAL`.
pub const MAX_LISTABLE_PRICE: u128 = 10_000_000_000_000_000_000_000_000_000_000_000;

/// The platform fee on a sale: `floor(price * MARKETPLACE_CUT / PERCENTAGE_TOTAL)`.
pub open spec fn spec_fee(price: int) -> int {
    price * (MARKETPLACE_CUT as int) / (PERCENTAGE_TOTAL as int)
}

/// The creator royalty on a sale: `floor(price * royalty_rate / PERCENTAGE_TOTAL)`.
pub open spec fn spec_royalty(price: int, royalty_rate: int) -> int {
    price * royalty_rate / (PERCENTAGE_TOTAL as int)
}

/// What the seller keeps: the price minus fee and royalty. All rounding dust
/// from the two floor divisions accrues here, never to fee or royalty.
pub open spec fn spec_seller_proceeds(price: int, royalty_rate: int) -> int {
    price - spec_fee(price) - spec_royalty(price, royalty_rate)
}

/// The three-way split of a sale price.
pub struct Split {
    pub fee: u128,
    pub royalty: u128,
    pub seller_proceeds: u128,
}

/// Law: for every price and royalty rate accepted at listing time
/// (`MARKETPLACE_CUT + royalty_rate < PERCENTAGE_TOTAL`), the three split
/// parts are each non-negative and sum to the price exactly.
pub proof fn lemma_split_conserves_price(price: int, royalty_rate: int)
    requires
        0 <= price,
        0 <= royalty_rate,
        MARKETPLACE_CUT + royalty_rate < PERCENTAGE_TOTAL,
    ensures
        0 <= spec_fee(price) <= price,
        0 <= spec_royalty(price, royalty_rate) <= price,
        0 <= spec_seller_proceeds(price, royalty_rate) <= price,
        spec_fee(price) + spec_royalty(price, royalty_rate)
            + spec_seller_proceeds(price, royalty_rate) == price,
{
    let t = PERCENTAGE_TOTAL as int;
    let c = MARKETPLACE_CUT as int;
    let f = spec_fee(price);
    let ry = spec_royalty(price, royalty_rate);
    lemma_mul_nonnegative(price, c);
    lemma_mul_nonnegative(price, royalty_rate);
    lemma_div_pos_is_pos(price * c, t);
    lemma_div_pos_is_pos(price * royalty_rate, t);
    // t * f <= price * c and t * ry <= price * royalty_rate
    lemma_fundamental_div_mod(price * c, t);
    lemma_mod_bound(price * c, t);
    lemma_fundamental_div_mod(price * royalty_rate, t);
    lemma_mod_bound(price * royalty_rate, t);
    // price * c + price * royalty_rate == price * (c + royalty_rate) <= price * (t - 1)
    lemma_mul_is_distributive_add(price, c, royalty_rate);
    lemma_mul_inequality(c + royalty_rate, t - 1, price);
    lemma_mul_is_commutative(price, c + royalty_rate);
    lemma_mul_is_commutative(price, t - 1);
    // price * (t - 1) == price * t - price
    lemma_mul_is_distributive_sub(price, t, 1);
    // t * (f + ry) <= price * t - price
    lemma_mul_is_distributive_add(t, f, ry);
    lemma_mul_is_commutative(price, t);
    if f + ry > price {
        // then t * (f + ry) >= t * (price + 1) == t * price + t, contradiction
        lemma_mul_inequality(price + 1, f + ry, t);
        lemma_mul_is_commutative(price + 1, t);
        lemma_mul_is_commutative(f + ry, t);
        lemma_mul_is_distributive_add(t, price, 1);
        assert(false);
    }
}

/// The product of a bounded price and a basis-point rate fits in `u128`.
proof fn lemma_rate_product_fits(price: int, rate: int)
    requires
        0 <= price <= MAX_LISTABLE_PRICE,
        0 <= rate < PERCENTAGE_TOTAL,
    ensures
        price * rate <= u128::MAX,
{
    lemma_mul_upper_bound(price, MAX_LISTABLE_PRICE as int, rate, (PERCENTAGE_TOTAL - 1) as int);
}

/// Split a sale price into platform fee, creator royalty and seller proceeds,
/// with floor rounding on fee and royalty and the remainder going to the
/// seller. The precondition on the combined rate is the one `list` enforces
/// when a listing is created; a re-read royalty rate that broke it would
/// leave the seller nothing, a fault the host must surface as a total abort,
/// never as a split.
pub fn split(price: u128, royalty_rate: u64) -> (s: Split)
    requires
        price <= MAX_LISTABLE_PRICE,
        MARKETPLACE_CUT + royalty_rate < PERCENTAGE_TOTAL,
    ensures
        s.fee == spec_fee(price as int),
        s.royalty == spec_royalty(price as int, royalty_rate as int),
        s.seller_proceeds == spec_seller_proceeds(price as int, royalty_rate as int),
        s.fee + s.royalty + s.seller_proceeds == price,
{
    proof {
        lemma_rate_product_fits(price as int, MARKETPLACE_CUT as int);
        lemma_rate_product_fits(price as int, royalty_rate as int);
        lemma_split_conserves_price(price as int, royalty_rate as int);
    }
    let fee: u128 = price * (MARKETPLACE_CUT as u128) / (PERCENTAGE_TOTAL as u128);
    let royalty: u128 = price * (royalty_rate as u128) / (PERCENTAGE_TOTAL as u128);
    let seller_proceeds: u128 = price - fee - royalty;
    Split { fee, royalty, seller_proceeds }
}

} // verus!
