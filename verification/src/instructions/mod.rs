//! The operations on a market, one module each. Every operation takes the
//! records it works on together, validates first, and then either applies
//! all of its effects or none.

pub mod cancel;
pub mod claim_refund;
pub mod create_market;
pub mod place_bet;
pub mod resolve;
pub mod settle;

pub use cancel::CancelMarket;
pub use claim_refund::ClaimRefund;
pub use create_market::{CreateMarket, CreateMarketParams};
pub use place_bet::PlaceBet;
pub use resolve::ResolveMarket;
pub use settle::Settle;
