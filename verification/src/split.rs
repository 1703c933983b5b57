//! The arithmetic of one bid: the price escalation and the division of the
//! new price among the outgoing king, the fee owner and the jackpot.

use vstd::prelude::*;

verus! {

/// Percentage by which a bid raises the price.
pub const RAISE_PERCENT: u64 = 30;

/// Percentage of the old price paid to the outgoing king on top of the refund.
pub const PROFIT_PERCENT: u64 = 15;

/// Percentage of the old price paid to the fee owner.
pub const CREATOR_FEE_PERCENT: u64 = 5;

/// `percent` hundredths of `amount`, rounded down.
pub open spec fn percent_of(amount: nat, percent: nat) -> nat {
    amount * percent / 100
}

/// The amount by which a bid at `price` raises the price.
pub open spec fn raise_of(price: nat) -> nat {
    percent_of(price, RAISE_PERCENT as nat)
}

/// The price after a bid at `price`.
pub open spec fn new_price_of(price: nat) -> nat {
    price + raise_of(price)
}

/// The outgoing king's profit from a bid at `price`.
pub open spec fn profit_of(price: nat) -> nat {
    percent_of(price, PROFIT_PERCENT as nat)
}

/// The fee owner's cut of a bid at `price`.
pub open spec fn creator_fee_of(price: nat) -> nat {
    percent_of(price, CREATOR_FEE_PERCENT as nat)
}

/// Everything a bid at `price` pays out to named recipients.
pub open spec fn total_payouts_of(price: nat) -> nat {
    price + profit_of(price) + creator_fee_of(price)
}

/// What is left of the new price for the jackpot.
pub open spec fn jackpot_share_of(price: nat) -> int {
    new_price_of(price) - total_payouts_of(price)
}

/// Every intermediate value of a bid at `price` fits in 64 unsigned bits and
/// the jackpot share is not negative.
pub open spec fn split_fits(price: nat) -> bool {
    &&& price * RAISE_PERCENT <= u64::MAX
    &&& new_price_of(price) <= u64::MAX
    &&& price * PROFIT_PERCENT <= u64::MAX
    &&& price * CREATOR_FEE_PERCENT <= u64::MAX
    &&& total_payouts_of(price) <= u64::MAX
    &&& jackpot_share_of(price) >= 0
}

/// The amounts that one bid moves.
#[derive(Clone, Copy, Debug, PartialEq, Eq, Structural)]
pub struct BidSplit {
    /// Increase of the price.
    pub raise: u64,
    /// The price after the bid: what the bidder pays in total.
    pub new_price: u64,
    /// The old price, returned to the outgoing king.
    pub refund: u64,
    /// The outgoing king's gain.
    pub profit: u64,
    /// The fee owner's cut.
    pub creator_fee: u64,
    /// The remainder, added to the jackpot.
    pub jackpot_share: u64,
}

impl BidSplit {
    /// This split is the one that a bid at `price` produces.
    pub open spec fn is_split_of(&self, price: nat) -> bool {
        &&& self.raise == raise_of(price)
        &&& self.new_price == new_price_of(price)
        &&& self.refund == price
        &&& self.profit == profit_of(price)
        &&& self.creator_fee == creator_fee_of(price)
        &&& self.jackpot_share == jackpot_share_of(price)
    }
}

/// The jackpot share is never negative: the raise, rounded down, covers the
/// profit and the fee, each rounded down on its own.
pub proof fn lemma_share_not_negative(price: nat)
    ensures
        jackpot_share_of(price) >= 0,
        profit_of(price) + creator_fee_of(price) <= raise_of(price),
{
    let a = profit_of(price);
    let b = creator_fee_of(price);
    assert(a * 100 <= price * 15) by (nonlinear_arith)
        requires
            a == price * 15 / 100,
    ;
    assert(b * 100 <= price * 5) by (nonlinear_arith)
        requires
            b == price * 5 / 100,
    ;
    assert(a + b <= price * 30 / 100) by (nonlinear_arith)
        requires
            a * 100 <= price * 15,
            b * 100 <= price * 5,
    ;
}

/// A bid's arithmetic fits exactly when thirty times the price does: every
/// later step is bounded by the first product.
pub proof fn lemma_split_fits_iff_raise_product_fits(price: nat)
    ensures
        split_fits(price) <==> price * RAISE_PERCENT <= u64::MAX,
{
    lemma_share_not_negative(price);
    if price * RAISE_PERCENT <= u64::MAX {
        assert(price * 30 / 100 <= price * 30 - price) by (nonlinear_arith);
        assert(price * 15 <= price * 30) by (nonlinear_arith);
        assert(price * 5 <= price * 30) by (nonlinear_arith);
    }
}

/// Conservation: the new price is exactly the refund, the profit, the fee and
/// the jackpot share together, and none of the four is negative.
pub proof fn lemma_split_conserves_value(price: nat)
    ensures
        new_price_of(price) == price + profit_of(price) + creator_fee_of(price)
            + jackpot_share_of(price),
        jackpot_share_of(price) >= 0,
{
    lemma_share_not_negative(price);
}

/// Computes the amounts of a bid at `price` with checked arithmetic.
///
/// Returns `None` exactly when some step does not fit in a `u64`; otherwise
/// the split of `price`, whose parts add up to the new price.
pub fn split_bid(price: u64) -> (r: Option<BidSplit>)
    ensures
        r.is_some() <==> split_fits(price as nat),
        r.is_some() ==> r.unwrap().is_split_of(price as nat),
        r.is_some() ==> r.unwrap().new_price == r.unwrap().refund + r.unwrap().profit
            + r.unwrap().creator_fee + r.unwrap().jackpot_share,
{
    let raise = match price.checked_mul(RAISE_PERCENT) {
        Some(product) => product / 100,
        None => { return None; },
    };
    let new_price = match price.checked_add(raise) {
        Some(sum) => sum,
        None => { return None; },
    };
    let refund = price;
    let profit = match price.checked_mul(PROFIT_PERCENT) {
        Some(product) => product / 100,
        None => { return None; },
    };
    let creator_fee = match price.checked_mul(CREATOR_FEE_PERCENT) {
        Some(product) => product / 100,
        None => { return None; },
    };
    let with_profit = match refund.checked_add(profit) {
        Some(sum) => sum,
        None => { return None; },
    };
    let total_payouts = match with_profit.checked_add(creator_fee) {
        Some(sum) => sum,
        None => { return None; },
    };
    let jackpot_share = match new_price.checked_sub(total_payouts) {
        Some(rest) => rest,
        None => { return None; },
    };
    Some(BidSplit { raise, new_price, refund, profit, creator_fee, jackpot_share })
}

} // verus!
