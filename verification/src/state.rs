//! The game record, its mathematical model and the error kinds.

use vstd::prelude::*;
use crate::identity::Identity;

verus! {

/// Length of a round in seconds, counted from genesis or from a claim.
pub const ROUND_SECONDS: i64 = 86400;

/// The least time that a successful bid leaves on the clock, in seconds.
pub const ANTI_SNIPE_SECONDS: i64 = 300;

/// The price at which a new round starts after a claim.
pub const RESET_PRICE: u64 = 100_000_000;

/// Why an operation was rejected. A rejected operation changes nothing.
#[derive(Clone, Copy, Debug, PartialEq, Eq, Structural)]
pub enum GameError {
    /// A bid arrived after the deadline.
    GameEnded,
    /// A claim arrived at or before the deadline.
    GameNotOver,
    /// A claim was made by someone other than the king.
    NotTheKing,
    /// A bid named a fee recipient other than the fee owner.
    WrongFeeOwner,
    /// A bid named a refund recipient other than the current king.
    WrongPreviousKing,
    /// A value did not fit in its 64 bits.
    ArithmeticOverflow,
    /// Genesis was attempted on a record that already exists.
    StorageCollision,
}

impl GameError {
    /// The text that describes this error to a person.
    pub open spec fn message_text(self) -> Seq<char> {
        match self {
            GameError::GameEnded => "The game has ended!"@,
            GameError::GameNotOver => "The game is not over yet!"@,
            GameError::NotTheKing => "You are not the King!"@,
            GameError::WrongFeeOwner =>
                "Security Alert: Someone tried to redirect fees to the wrong wallet!"@,
            GameError::WrongPreviousKing => "The refund account is not the current King!"@,
            GameError::ArithmeticOverflow => "A value did not fit in 64 bits!"@,
            GameError::StorageCollision => "The game already exists!"@,
        }
    }

    /// The text that describes this error to a person.
    pub fn message(&self) -> (text: &'static str)
        ensures
            text@ == self.message_text(),
    {
        match self {
            GameError::GameEnded => "The game has ended!",
            GameError::GameNotOver => "The game is not over yet!",
            GameError::NotTheKing => "You are not the King!",
            GameError::WrongFeeOwner =>
                "Security Alert: Someone tried to redirect fees to the wrong wallet!",
            GameError::WrongPreviousKing => "The refund account is not the current King!",
            GameError::ArithmeticOverflow => "A value did not fit in 64 bits!",
            GameError::StorageCollision => "The game already exists!",
        }
    }
}

/// The single persistent record of the game.
#[derive(Clone, Copy, Debug, PartialEq, Eq)]
pub struct GameState {
    /// Current holder of the throne.
    pub king: Identity,
    /// Current bid price.
    pub price: u64,
    /// Deadline of the round, in epoch seconds.
    pub end_timestamp: i64,
    /// Accumulated pool.
    pub jackpot: u64,
    /// Permanent fee recipient, fixed at genesis.
    pub fee_owner: Identity,
}

/// The game record as mathematics: identities as byte sequences, amounts and
/// times as unbounded integers.
pub struct Round {
    pub king: Seq<u8>,
    pub price: nat,
    pub end_timestamp: int,
    pub jackpot: nat,
    pub fee_owner: Seq<u8>,
}

impl View for GameState {
    type V = Round;

    open spec fn view(&self) -> Round {
        Round {
            king: self.king@,
            price: self.price as nat,
            end_timestamp: self.end_timestamp as int,
            jackpot: self.jackpot as nat,
            fee_owner: self.fee_owner@,
        }
    }
}

impl Round {
    /// The record fits the machine representation: 32-byte identities,
    /// unsigned 64-bit amounts and a signed 64-bit deadline.
    pub open spec fn representable(self) -> bool {
        &&& self.king.len() == 32
        &&& self.fee_owner.len() == 32
        &&& self.price <= u64::MAX
        &&& self.jackpot <= u64::MAX
        &&& i64::MIN <= self.end_timestamp <= i64::MAX
    }

    /// The throne is idle: it rests with the fee owner.
    pub open spec fn is_idle(self) -> bool {
        self.king == self.fee_owner
    }
}

/// Every stored record is representable.
pub proof fn lemma_state_representable(state: GameState)
    ensures
        state@.representable(),
{
}

} // verus!
