//! What holds of the game over whole histories: the record as a state
//! machine, and its laws.

use vstd::prelude::*;
use crate::auction::{after_bid, bid_error};
use crate::claim::{after_claim, claim_error};
use crate::genesis::{genesis, genesis_error};
use crate::split::{creator_fee_of, jackpot_share_of, lemma_share_not_negative, profit_of};
use crate::state::{GameError, Round, ANTI_SNIPE_SECONDS, RESET_PRICE, ROUND_SECONDS};

verus! {

/// One call against an existing record.
pub enum Operation {
    /// A second genesis.
    Genesis { creator: Seq<u8>, start_price: nat, now: int },
    /// A bid.
    Bid { bidder: Seq<u8>, previous_king: Seq<u8>, fee_owner: Seq<u8>, now: int },
    /// A claim.
    Claim { caller: Seq<u8>, now: int },
}

/// Why `op` is rejected on `round`, if it is.
pub open spec fn rejection(round: Round, op: Operation) -> Option<GameError> {
    match op {
        Operation::Genesis { creator, start_price, now } => genesis_error(true, now),
        Operation::Bid { bidder, previous_king, fee_owner, now } => bid_error(
            round,
            previous_king,
            fee_owner,
            now,
        ),
        Operation::Claim { caller, now } => claim_error(round, caller, now),
    }
}

/// The record after `op`: changed as the operation says if it is accepted,
/// untouched if it is rejected.
pub open spec fn step(round: Round, op: Operation) -> Round {
    if rejection(round, op) is Some {
        round
    } else {
        match op {
            Operation::Genesis { creator, start_price, now } => genesis(creator, start_price, now),
            Operation::Bid { bidder, previous_king, fee_owner, now } => after_bid(
                round,
                bidder,
                now,
            ),
            Operation::Claim { caller, now } => after_claim(round, now),
        }
    }
}

/// The record after the operations `ops`, applied in order.
pub open spec fn run(round: Round, ops: Seq<Operation>) -> Round
    decreases ops.len(),
{
    if ops.len() == 0 {
        round
    } else {
        step(run(round, ops.drop_last()), ops.last())
    }
}

/// Genesis on a record that exists is always rejected as a collision, and
/// changes nothing.
pub proof fn lemma_second_genesis_collides(
    round: Round,
    creator: Seq<u8>,
    start_price: nat,
    now: int,
)
    ensures
        genesis_error(true, now) == Some(GameError::StorageCollision),
        step(round, Operation::Genesis { creator, start_price, now }) == round,
{
}

/// After genesis the creator is king and fee owner, and the pool is empty.
pub proof fn lemma_genesis_is_idle(creator: Seq<u8>, start_price: nat, now: int)
    ensures
        genesis(creator, start_price, now).is_idle(),
        genesis(creator, start_price, now).fee_owner == creator,
        genesis(creator, start_price, now).jackpot == 0,
        genesis(creator, start_price, now).price == start_price,
        genesis(creator, start_price, now).end_timestamp == now + ROUND_SECONDS,
{
}

/// No single operation changes the fee owner.
pub proof fn lemma_step_keeps_fee_owner(round: Round, op: Operation)
    ensures
        step(round, op).fee_owner == round.fee_owner,
{
}

/// The fee owner is the same after every sequence of operations.
pub proof fn lemma_fee_owner_never_changes(round: Round, ops: Seq<Operation>)
    ensures
        run(round, ops).fee_owner == round.fee_owner,
    decreases ops.len(),
{
    if ops.len() > 0 {
        lemma_fee_owner_never_changes(round, ops.drop_last());
        lemma_step_keeps_fee_owner(run(round, ops.drop_last()), ops.last());
    }
}

/// The deadline never moves back, whatever the operations.
pub proof fn lemma_deadline_never_regresses(round: Round, ops: Seq<Operation>)
    ensures
        run(round, ops).end_timestamp >= round.end_timestamp,
    decreases ops.len(),
{
    if ops.len() > 0 {
        lemma_deadline_never_regresses(round, ops.drop_last());
    }
}

/// A record that fits the machine still fits after every sequence of
/// operations whose bidders are 32-byte identities.
pub proof fn lemma_run_stays_representable(round: Round, ops: Seq<Operation>)
    requires
        round.representable(),
        forall|i: int|
            0 <= i < ops.len() && #[trigger] ops[i] is Bid ==> ops[i]->bidder.len() == 32,
    ensures
        run(round, ops).representable(),
    decreases ops.len(),
{
    if ops.len() > 0 {
        lemma_run_stays_representable(round, ops.drop_last());
        let before = run(round, ops.drop_last());
        let op = ops.last();
        assert(op == ops[ops.len() - 1]);
        lemma_share_not_negative(before.price);
    }
}

/// An accepted bid never lowers the price or the jackpot, and the new price
/// is exactly what the bid pays out and adds to the pool.
pub proof fn lemma_bid_conserves_value(
    round: Round,
    bidder: Seq<u8>,
    previous_king: Seq<u8>,
    fee_owner: Seq<u8>,
    now: int,
)
    requires
        bid_error(round, previous_king, fee_owner, now) is None,
    ensures
        after_bid(round, bidder, now).price == round.price + profit_of(round.price)
            + creator_fee_of(round.price) + jackpot_share_of(round.price),
        after_bid(round, bidder, now).jackpot == round.jackpot + jackpot_share_of(round.price),
        after_bid(round, bidder, now).price >= round.price,
        after_bid(round, bidder, now).jackpot >= round.jackpot,
        after_bid(round, bidder, now).king == bidder,
{
    lemma_share_not_negative(round.price);
}

/// A claim at or before the deadline is rejected as too early, whoever makes
/// it, and changes nothing.
pub proof fn lemma_early_claim_rejected(round: Round, caller: Seq<u8>, now: int)
    requires
        now <= round.end_timestamp,
    ensures
        claim_error(round, caller, now) == Some(GameError::GameNotOver),
        step(round, Operation::Claim { caller, now }) == round,
{
}

/// Anti-snipe: an accepted bid with less than five minutes left moves the
/// deadline to five minutes after the bid; one with five minutes or more
/// left leaves the deadline where it was. Either way no time is lost.
pub proof fn lemma_anti_snipe(
    round: Round,
    bidder: Seq<u8>,
    previous_king: Seq<u8>,
    fee_owner: Seq<u8>,
    now: int,
)
    requires
        bid_error(round, previous_king, fee_owner, now) is None,
    ensures
        round.end_timestamp - now < ANTI_SNIPE_SECONDS ==> after_bid(
            round,
            bidder,
            now,
        ).end_timestamp == now + ANTI_SNIPE_SECONDS,
        round.end_timestamp - now >= ANTI_SNIPE_SECONDS ==> after_bid(
            round,
            bidder,
            now,
        ).end_timestamp == round.end_timestamp,
        after_bid(round, bidder, now).end_timestamp >= round.end_timestamp,
        after_bid(round, bidder, now).end_timestamp - now >= ANTI_SNIPE_SECONDS,
{
}

/// After an accepted claim the throne is back with the fee owner, the pool is
/// empty, the price is the reset price and a full round is on the clock.
pub proof fn lemma_claim_resets(round: Round, caller: Seq<u8>, now: int)
    requires
        claim_error(round, caller, now) is None,
    ensures
        after_claim(round, now).king == round.fee_owner,
        after_claim(round, now).is_idle(),
        after_claim(round, now).jackpot == 0,
        after_claim(round, now).price == RESET_PRICE,
        after_claim(round, now).end_timestamp == now + ROUND_SECONDS,
        after_claim(round, now).end_timestamp > round.end_timestamp,
        caller == round.king,
{
}

/// A bid made in time that names a fee recipient other than the stored fee
/// owner is rejected for that reason, and changes nothing.
pub proof fn lemma_wrong_fee_owner_rejected(
    round: Round,
    bidder: Seq<u8>,
    previous_king: Seq<u8>,
    fee_owner: Seq<u8>,
    now: int,
)
    requires
        fee_owner != round.fee_owner,
        now <= round.end_timestamp,
    ensures
        bid_error(round, previous_king, fee_owner, now) == Some(GameError::WrongFeeOwner),
        step(round, Operation::Bid { bidder, previous_king, fee_owner, now }) == round,
{
}

/// A bid that names a fee recipient other than the stored fee owner is never
/// accepted, in time or not, and changes nothing.
pub proof fn lemma_fee_redirection_never_accepted(
    round: Round,
    bidder: Seq<u8>,
    previous_king: Seq<u8>,
    fee_owner: Seq<u8>,
    now: int,
)
    requires
        fee_owner != round.fee_owner,
    ensures
        bid_error(round, previous_king, fee_owner, now) is Some,
        step(round, Operation::Bid { bidder, previous_king, fee_owner, now }) == round,
{
}

/// A rejected operation leaves the record as it was.
pub proof fn lemma_rejection_changes_nothing(round: Round, op: Operation)
    requires
        rejection(round, op) is Some,
    ensures
        step(round, op) == round,
{
}

} // verus!
