//! Bidding: the rules by which a bidder takes the throne.
//!
//! A bid is checked, priced and split before anything changes. The caller
//! moves the money that the outcome names; the record it gets back is the
//! one to commit once every transfer has gone through.

use vstd::prelude::*;
use crate::identity::Identity;
use crate::split::{
    creator_fee_of, jackpot_share_of, lemma_share_not_negative, new_price_of, profit_of,
    split_bid, split_fits,
};
use crate::state::{GameError, GameState, Round, ANTI_SNIPE_SECONDS};

verus! {

/// The deadline after a bid at time `now` on a round that ends at `end`:
/// pushed out to five minutes from `now` if less than that was left,
/// otherwise as it was.
pub open spec fn deadline_after_bid(end: int, now: int) -> int {
    if end - now < ANTI_SNIPE_SECONDS {
        now + ANTI_SNIPE_SECONDS
    } else {
        end
    }
}

/// The time left and the deadline after the bid both fit in 64 signed bits.
pub open spec fn bid_times_fit(end: int, now: int) -> bool {
    &&& i64::MIN <= end - now <= i64::MAX
    &&& i64::MIN <= deadline_after_bid(end, now) <= i64::MAX
}

/// Every number that a bid on `round` at time `now` computes fits.
pub open spec fn bid_fits(round: Round, now: int) -> bool {
    &&& split_fits(round.price)
    &&& round.jackpot + jackpot_share_of(round.price) <= u64::MAX
    &&& bid_times_fit(round.end_timestamp, now)
}

/// Why a bid is rejected, if it is. The checks run in this order: the
/// deadline, the fee recipient, the refund recipient, the arithmetic.
pub open spec fn bid_error(
    round: Round,
    previous_king: Seq<u8>,
    fee_owner: Seq<u8>,
    now: int,
) -> Option<GameError> {
    if now > round.end_timestamp {
        Some(GameError::GameEnded)
    } else if fee_owner != round.fee_owner {
        Some(GameError::WrongFeeOwner)
    } else if previous_king != round.king {
        Some(GameError::WrongPreviousKing)
    } else if !bid_fits(round, now) {
        Some(GameError::ArithmeticOverflow)
    } else {
        None
    }
}

/// The record after an accepted bid by `bidder` at time `now`.
pub open spec fn after_bid(round: Round, bidder: Seq<u8>, now: int) -> Round {
    Round {
        king: bidder,
        price: new_price_of(round.price),
        end_timestamp: deadline_after_bid(round.end_timestamp, now),
        jackpot: (round.jackpot + jackpot_share_of(round.price)) as nat,
        fee_owner: round.fee_owner,
    }
}

/// The accounts of a bid.
#[derive(Clone, Copy, Debug, PartialEq, Eq)]
pub struct UsurpThrone {
    /// The game record.
    pub game: GameState,
    /// The bidder, who pays.
    pub new_king: Identity,
    /// The account offered as the outgoing king, to be refunded.
    pub previous_king: Identity,
    /// The account offered as the fee owner.
    pub creator: Identity,
}

/// The audit record of an accepted bid.
#[derive(Clone, Copy, Debug, PartialEq, Eq)]
pub struct NewKingEvent {
    pub new_king: Identity,
    pub previous_king: Identity,
    pub price: u64,
    pub timestamp: i64,
}

/// What an accepted bid obliges the bidder to pay, and the event to publish.
#[derive(Clone, Copy, Debug, PartialEq, Eq)]
pub struct Usurpation {
    /// From the bidder to the outgoing king: refund and profit.
    pub king_payout: u64,
    /// From the bidder to the fee owner.
    pub creator_fee: u64,
    /// From the bidder into the pool.
    pub to_jackpot: u64,
    /// The audit record.
    pub event: NewKingEvent,
}

impl Usurpation {
    /// These are the payments and the event of a bid by `bidder` at time
    /// `now` on the record `before`.
    pub open spec fn settles(&self, before: GameState, bidder: Identity, now: i64) -> bool {
        let price = before.price as nat;
        &&& self.king_payout == price + profit_of(price)
        &&& self.creator_fee == creator_fee_of(price)
        &&& self.to_jackpot == jackpot_share_of(price)
        &&& self.event.new_king == bidder
        &&& self.event.previous_king == before.king
        &&& self.event.price == new_price_of(price)
        &&& self.event.timestamp == now
    }
}

/// The deadline after a bid, or `None` where the time left or the new
/// deadline overflows.
pub fn extend_deadline(end_timestamp: i64, current_time: i64) -> (r: Option<i64>)
    ensures
        r.is_some() <==> bid_times_fit(end_timestamp as int, current_time as int),
        r.is_some() ==> r.unwrap() == deadline_after_bid(
            end_timestamp as int,
            current_time as int,
        ),
{
    match end_timestamp.checked_sub(current_time) {
        Some(remaining) => {
            if remaining < ANTI_SNIPE_SECONDS {
                current_time.checked_add(ANTI_SNIPE_SECONDS)
            } else {
                Some(end_timestamp)
            }
        },
        None => None,
    }
}

/// Places a bid at time `current_time`.
///
/// The bid is rejected, and nothing changes, if the round is over, if
/// `creator` is not the stored fee owner, if `previous_king` is not the
/// stored king, or if a number overflows: in that order. Otherwise the bidder
/// becomes king, the price rises by thirty percent, the jackpot grows by the
/// remainder of the split, the deadline is extended if it was near, and the
/// payments to make are returned with the audit event.
pub fn usurp_throne(ctx: &mut UsurpThrone, current_time: i64) -> (res: Result<
    Usurpation,
    GameError,
>)
    ensures
        res.is_ok() <==> bid_error(
            old(ctx).game@,
            old(ctx).previous_king@,
            old(ctx).creator@,
            current_time as int,
        ) is None,
        res is Err ==> Some(res->Err_0) == bid_error(
            old(ctx).game@,
            old(ctx).previous_king@,
            old(ctx).creator@,
            current_time as int,
        ) && *final(ctx) == *old(ctx),
        res is Ok ==> final(ctx).game@ == after_bid(
            old(ctx).game@,
            old(ctx).new_king@,
            current_time as int,
        ),
        res is Ok ==> final(ctx).game.king == old(ctx).new_king && final(ctx).game.fee_owner == old(ctx).game.fee_owner,
        res is Ok ==> final(ctx).new_king == old(ctx).new_king && final(ctx).previous_king == old(ctx).previous_king && final(ctx).creator == old(ctx).creator,
        res is Ok ==> (res->Ok_0).settles(old(ctx).game, old(ctx).new_king, current_time),
        res is Ok ==> (res->Ok_0).king_payout + (res->Ok_0).creator_fee + (res->Ok_0).to_jackpot
            == final(ctx).game.price,
{
    if current_time > ctx.game.end_timestamp {
        return Err(GameError::GameEnded);
    }
    if !ctx.creator.same(&ctx.game.fee_owner) {
        return Err(GameError::WrongFeeOwner);
    }
    if !ctx.previous_king.same(&ctx.game.king) {
        return Err(GameError::WrongPreviousKing);
    }
    let split = match split_bid(ctx.game.price) {
        Some(split) => split,
        None => { return Err(GameError::ArithmeticOverflow); },
    };
    proof {
        lemma_share_not_negative(ctx.game.price as nat);
    }
    let king_payout: u64 = split.refund + split.profit;
    let jackpot = match ctx.game.jackpot.checked_add(split.jackpot_share) {
        Some(sum) => sum,
        None => { return Err(GameError::ArithmeticOverflow); },
    };
    let end_timestamp = match extend_deadline(ctx.game.end_timestamp, current_time) {
        Some(end) => end,
        None => { return Err(GameError::ArithmeticOverflow); },
    };
    let event = NewKingEvent {
        new_king: ctx.new_king,
        previous_king: ctx.game.king,
        price: split.new_price,
        timestamp: current_time,
    };
    ctx.game.king = ctx.new_king;
    ctx.game.price = split.new_price;
    ctx.game.jackpot = jackpot;
    ctx.game.end_timestamp = end_timestamp;
    Ok(Usurpation {
        king_payout,
        creator_fee: split.creator_fee,
        to_jackpot: split.jackpot_share,
        event,
    })
}

} // verus!
