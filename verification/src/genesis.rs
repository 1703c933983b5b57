//! Genesis: the one creation of the game record.

use vstd::prelude::*;
use crate::identity::Identity;
use crate::state::{GameError, GameState, Round, ROUND_SECONDS};

verus! {

/// Why genesis is rejected, if it is: the record already exists, or the first
/// deadline overflows.
pub open spec fn genesis_error(exists: bool, now: int) -> Option<GameError> {
    if exists {
        Some(GameError::StorageCollision)
    } else if now + ROUND_SECONDS > i64::MAX {
        Some(GameError::ArithmeticOverflow)
    } else {
        None
    }
}

/// The record that genesis by `creator` at time `now` writes: the creator is
/// king and fee owner, the pool is empty and the round lasts a day.
pub open spec fn genesis(creator: Seq<u8>, start_price: nat, now: int) -> Round {
    Round {
        king: creator,
        price: start_price,
        end_timestamp: now + ROUND_SECONDS,
        jackpot: 0,
        fee_owner: creator,
    }
}

/// The accounts of genesis.
#[derive(Clone, Copy, Debug, PartialEq, Eq)]
pub struct Initialize {
    /// The slot of the game record: `None` until genesis has run.
    pub game: Option<GameState>,
    /// The caller, who becomes the permanent fee owner.
    pub creator: Identity,
}

/// Creates the game record at time `current_time` with the given starting
/// price, which may be any value.
///
/// Genesis is rejected, and nothing changes, if the record already exists or
/// if the first deadline overflows. Otherwise the slot holds the new record.
pub fn initialize(ctx: &mut Initialize, start_price: u64, current_time: i64) -> (res: Result<
    (),
    GameError,
>)
    ensures
        res.is_ok() <==> genesis_error(old(ctx).game is Some, current_time as int) is None,
        res is Err ==> Some(res->Err_0) == genesis_error(
            old(ctx).game is Some,
            current_time as int,
        ) && *final(ctx) == *old(ctx),
        res is Ok ==> final(ctx).creator == old(ctx).creator && final(ctx).game is Some,
        res is Ok ==> final(ctx).game->Some_0@ == genesis(
            old(ctx).creator@,
            start_price as nat,
            current_time as int,
        ),
        res is Ok ==> final(ctx).game->Some_0.king == old(ctx).creator && final(ctx).game->Some_0.fee_owner == old(ctx).creator,
{
    if ctx.game.is_some() {
        return Err(GameError::StorageCollision);
    }
    let end_timestamp = match current_time.checked_add(ROUND_SECONDS) {
        Some(end) => end,
        None => { return Err(GameError::ArithmeticOverflow); },
    };
    ctx.game = Some(
        GameState {
            king: ctx.creator,
            price: start_price,
            end_timestamp,
            jackpot: 0,
            fee_owner: ctx.creator,
        },
    );
    Ok(())
}

} // verus!
