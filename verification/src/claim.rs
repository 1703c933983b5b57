//! Claiming: the king takes the jackpot once the round is over, and the
//! record is reset for the next round.

use vstd::prelude::*;
use crate::identity::Identity;
use crate::state::{GameError, GameState, Round, RESET_PRICE, ROUND_SECONDS};

verus! {

/// Why a claim is rejected, if it is. The checks run in this order: the
/// deadline (a claim exactly at the deadline is too early), the caller, the
/// next deadline.
pub open spec fn claim_error(round: Round, caller: Seq<u8>, now: int) -> Option<GameError> {
    if now <= round.end_timestamp {
        Some(GameError::GameNotOver)
    } else if caller != round.king {
        Some(GameError::NotTheKing)
    } else if now + ROUND_SECONDS > i64::MAX {
        Some(GameError::ArithmeticOverflow)
    } else {
        None
    }
}

/// The record after an accepted claim at time `now`: a fresh round at the
/// reset price, with an empty pool and the throne back with the fee owner.
pub open spec fn after_claim(round: Round, now: int) -> Round {
    Round {
        king: round.fee_owner,
        price: RESET_PRICE as nat,
        end_timestamp: now + ROUND_SECONDS,
        jackpot: 0,
        fee_owner: round.fee_owner,
    }
}

/// The accounts of a claim.
#[derive(Clone, Copy, Debug, PartialEq, Eq)]
pub struct ClaimJackpot {
    /// The game record.
    pub game: GameState,
    /// The caller, who must be the king.
    pub king: Identity,
}

/// Claims the jackpot at time `current_time`.
///
/// The claim is rejected, and nothing changes, if the deadline has not
/// passed, if the caller is not the king, or if the next deadline overflows:
/// in that order. Otherwise the whole jackpot, which may be zero, is returned
/// as the amount to pay from the pool to the caller, and the record is reset.
pub fn claim_jackpot(ctx: &mut ClaimJackpot, current_time: i64) -> (res: Result<u64, GameError>)
    ensures
        res.is_ok() <==> claim_error(old(ctx).game@, old(ctx).king@, current_time as int) is None,
        res is Err ==> Some(res->Err_0) == claim_error(
            old(ctx).game@,
            old(ctx).king@,
            current_time as int,
        ) && *final(ctx) == *old(ctx),
        res is Ok ==> res->Ok_0 == old(ctx).game.jackpot,
        res is Ok ==> final(ctx).game@ == after_claim(old(ctx).game@, current_time as int),
        res is Ok ==> final(ctx).game.king == old(ctx).game.fee_owner && final(ctx).game.fee_owner
            == old(ctx).game.fee_owner && final(ctx).king == old(ctx).king,
{
    if current_time <= ctx.game.end_timestamp {
        return Err(GameError::GameNotOver);
    }
    if !ctx.king.same(&ctx.game.king) {
        return Err(GameError::NotTheKing);
    }
    let end_timestamp = match current_time.checked_add(ROUND_SECONDS) {
        Some(end) => end,
        None => { return Err(GameError::ArithmeticOverflow); },
    };
    let jackpot_amount = ctx.game.jackpot;
    ctx.game.price = RESET_PRICE;
    ctx.game.jackpot = 0;
    ctx.game.end_timestamp = end_timestamp;
    ctx.game.king = ctx.game.fee_owner;
    Ok(jackpot_amount)
}

} // verus!
