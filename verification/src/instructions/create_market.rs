//! Creating a market.

use vstd::prelude::*;
use vstd::utf8::encode_utf8;
use crate::errors::PercolatorError;
use crate::pubkey::Pubkey;
use crate::state::{GlobalConfig, Market, MarketRule, MarketStatus, Outcome, Vault};

verus! {

/// The longest question a market can carry, in bytes.
pub const MAX_QUESTION_LEN: usize = 256;

/// Parameters for creating a new prediction market.
#[derive(Clone, Debug)]
pub struct CreateMarketParams {
    /// Human-readable prediction question (at most 256 bytes).
    pub question: String,
    /// Resolution rule.
    pub rule: MarketRule,
    /// Target value for resolution; its meaning depends on `rule`.
    pub target_value: u64,
    /// The asset this market is about.
    pub token_mint: Pubkey,
    /// Oracle authority that can resolve this market.
    pub oracle: Pubkey,
    /// Unix timestamp deadline.
    pub deadline: i64,
}

/// The records the creation of a market works on.
#[derive(Clone, Debug)]
pub struct CreateMarket {
    /// The participant creating the market.
    pub creator: Pubkey,
    /// Protocol counters; they give the market its id.
    pub config: GlobalConfig,
    /// The record that becomes the market.
    pub market: Market,
    /// The vault that will hold the stakes on this market.
    pub vault: Vault,
    /// YES position token mint.
    pub yes_mint: Pubkey,
    /// NO position token mint.
    pub no_mint: Pubkey,
    /// Bump seed of the vault.
    pub vault_bump: u8,
    /// Bump seed of the market record.
    pub market_bump: u8,
}

impl CreateMarket {
    /// Why creating a market with `params` at time `now` is refused, if it
    /// is. The checks come in this order.
    pub open spec fn rejection(&self, params: CreateMarketParams, now: i64) -> Option<
        PercolatorError,
    > {
        if encode_utf8(params.question@).len() > MAX_QUESTION_LEN {
            Some(PercolatorError::QuestionTooLong)
        } else if params.deadline <= now {
            Some(PercolatorError::DeadlineInPast)
        } else if self.config.next_market_id + 1 > u64::MAX || self.config.total_markets + 1
            > u64::MAX {
            Some(PercolatorError::Overflow)
        } else {
            None
        }
    }

    /// The market that `params` describe: open, unresolved, with empty pools
    /// and a full h-ratio, under the next free id.
    pub open spec fn new_market(&self, params: CreateMarketParams) -> Market {
        Market {
            market_id: self.config.next_market_id,
            creator: self.creator,
            oracle: params.oracle,
            question: params.question,
            rule: params.rule,
            target_value: params.target_value,
            token_mint: params.token_mint,
            deadline: params.deadline,
            status: MarketStatus::Open,
            outcome: Outcome::Unresolved,
            yes_pool: 0,
            no_pool: 0,
            yes_mint: self.yes_mint,
            no_mint: self.no_mint,
            vault: self.vault.key,
            vault_bump: self.vault_bump,
            bump: self.market_bump,
            h_ratio_bps: 10_000,
            settled_amount: 0,
            settlements_count: 0,
        }
    }

    /// The records after the market was created: the market is the new one,
    /// and the protocol has counted it.
    pub open spec fn created(&self, params: CreateMarketParams) -> CreateMarket {
        CreateMarket {
            market: self.new_market(params),
            config: GlobalConfig {
                next_market_id: (self.config.next_market_id + 1) as u64,
                total_markets: (self.config.total_markets + 1) as u64,
                ..self.config
            },
            ..*self
        }
    }
}

/// Creates a market from `params` at time `now`.
///
/// The creation is refused with `QuestionTooLong` when the question is
/// longer than 256 bytes, with `DeadlineInPast` unless the deadline lies
/// strictly after `now`, and with `Overflow` when the protocol's counters
/// are exhausted. A refused creation changes nothing.
///
/// The new market takes the protocol's next id, is open and unresolved, has
/// empty pools and an h-ratio of 10000; the protocol's next id and market
/// count each grow by one.
pub fn handler(ctx: &mut CreateMarket, params: CreateMarketParams, now: i64) -> (done: Result<
    (),
    PercolatorError,
>)
    ensures
        match old(ctx).rejection(params, now) {
            Some(e) => done == Err::<(), PercolatorError>(e) && *final(ctx) == *old(ctx),
            None => done == Ok::<(), PercolatorError>(()) && *final(ctx) == old(ctx).created(
                params,
            ),
        },
{
    if params.question.as_str().as_bytes().len() > MAX_QUESTION_LEN {
        return Err(PercolatorError::QuestionTooLong);
    }
    if params.deadline <= now {
        return Err(PercolatorError::DeadlineInPast);
    }
    let counters = (
        ctx.config.next_market_id.checked_add(1),
        ctx.config.total_markets.checked_add(1),
    );
    match counters {
        (Some(next_market_id), Some(total_markets)) => {
            ctx.market = Market {
                market_id: ctx.config.next_market_id,
                creator: ctx.creator,
                oracle: params.oracle,
                question: params.question,
                rule: params.rule,
                target_value: params.target_value,
                token_mint: params.token_mint,
                deadline: params.deadline,
                status: MarketStatus::Open,
                outcome: Outcome::Unresolved,
                yes_pool: 0,
                no_pool: 0,
                yes_mint: ctx.yes_mint,
                no_mint: ctx.no_mint,
                vault: ctx.vault.key,
                vault_bump: ctx.vault_bump,
                bump: ctx.market_bump,
                h_ratio_bps: 10_000,
                settled_amount: 0,
                settlements_count: 0,
            };
            ctx.config.next_market_id = next_market_id;
            ctx.config.total_markets = total_markets;
            Ok(())
        },
        _ => Err(PercolatorError::Overflow),
    }
}

} // verus!
