//! A shared "king of the hill" auction: bidders escalate a price to seize the
//! throne, each bid is split among the outgoing king, a permanent fee owner
//! and a jackpot, and the last king standing at the deadline claims the pool.

pub mod auction;
pub mod claim;
pub mod genesis;
pub mod identity;
pub mod laws;
pub mod split;
pub mod state;

pub use auction::{extend_deadline, usurp_throne, NewKingEvent, UsurpThrone, Usurpation};
pub use claim::{claim_jackpot, ClaimJackpot};
pub use genesis::{initialize, Initialize};
pub use identity::Identity;
pub use split::{split_bid, BidSplit};
pub use state::{GameError, GameState, ANTI_SNIPE_SECONDS, RESET_PRICE, ROUND_SECONDS};
