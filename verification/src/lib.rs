//! A wagering ledger: an operator publishes fixed-odds markets, bettors stake
//! against those odds, and settlement pays winners out of the funds that the
//! market took into escrow when the stakes were placed.
//!
//! Every operation is one atomic step on the records it is handed: it either
//! applies in full or rejects and leaves every record as it found it.

pub mod admission;
pub mod bet;
pub mod error;
pub mod history;
pub mod market;
pub mod odds;
pub mod party;
pub mod settlement;

pub use admission::{place_bet, PlaceBet};
pub use bet::{Bet, BetResult};
pub use error::MyError;
pub use market::{
    close_market, initialize_market, open_market, update_odds, CloseMarket, InitializeMarket,
    Market, OpenMarket, UpdateOdds,
};
pub use party::{Identity, Wallet};
pub use settlement::{settle_bet, settle_market, SettleBet, SettleMarket};
