//! Resolving a market to one of its two outcomes.

use vstd::prelude::*;
use crate::errors::PercolatorError;
use crate::pubkey::Pubkey;
use crate::state::{h_ratio, Market, MarketStatus, Outcome, Vault};

verus! {

/// The records a resolution works on.
#[derive(Clone, Debug)]
pub struct ResolveMarket {
    /// The caller, who must be the market's oracle.
    pub oracle: Pubkey,
    /// The market to resolve.
    pub market: Market,
    /// The market's vault, whose balance decides the h-ratio.
    pub vault: Vault,
}

impl ResolveMarket {
    /// Why resolving to `outcome` is refused, if it is. The checks come in
    /// this order.
    pub open spec fn rejection(&self, outcome: Outcome) -> Option<PercolatorError> {
        if self.oracle != self.market.oracle {
            Some(PercolatorError::UnauthorizedOracle)
        } else if self.market.status != MarketStatus::Open && self.market.status
            != MarketStatus::Closed {
            Some(PercolatorError::AlreadyResolved)
        } else if outcome == Outcome::Unresolved {
            Some(PercolatorError::InvalidOutcome)
        } else {
            None
        }
    }

    /// Whether no haircut is due when the market resolves to `outcome`:
    /// nobody staked on the winning side, or the vault covers both pools.
    pub open spec fn fully_solvent(&self, outcome: Outcome) -> bool {
        let decided = Market { outcome: outcome, ..self.market };
        decided.winner_pool() == 0 || self.vault.lamports >= decided.winner_pool()
            + decided.loser_pool()
    }

    /// The market after it resolved to `outcome`: the outcome is recorded,
    /// the h-ratio is what the vault's balance gives for the pools, and the
    /// status is `Resolved`.
    pub open spec fn resolved_market(&self, outcome: Outcome) -> Market {
        let decided = Market { outcome: outcome, ..self.market };
        Market {
            h_ratio_bps: h_ratio(
                decided.winner_pool(),
                decided.loser_pool(),
                self.vault.lamports,
            ) as u16,
            status: MarketStatus::Resolved,
            ..decided
        }
    }

    /// The records after the market resolved to `outcome`.
    pub open spec fn resolved(&self, outcome: Outcome) -> ResolveMarket {
        ResolveMarket { market: self.resolved_market(outcome), ..*self }
    }
}

/// Resolves the market to `outcome` and freezes its h-ratio.
///
/// The resolution is refused with `UnauthorizedOracle` unless the caller is
/// the market's oracle, with `AlreadyResolved` unless the market is open or
/// closed, and with `InvalidOutcome` when `outcome` is `Unresolved`. A
/// refused resolution changes nothing.
///
/// The h-ratio is computed from the vault's balance at this moment. It is at
/// most 10000, and it is 10000 when nobody staked on the winning side or
/// when the vault covers both pools.
pub fn handler(ctx: &mut ResolveMarket, outcome: Outcome) -> (done: Result<(), PercolatorError>)
    ensures
        match old(ctx).rejection(outcome) {
            Some(e) => done == Err::<(), PercolatorError>(e) && *final(ctx) == *old(ctx),
            None => {
                &&& done == Ok::<(), PercolatorError>(())
                &&& *final(ctx) == old(ctx).resolved(outcome)
                &&& final(ctx).market.h_ratio_bps <= 10_000
                &&& old(ctx).fully_solvent(outcome) ==> final(ctx).market.h_ratio_bps == 10_000
            },
        },
{
    if ctx.oracle != ctx.market.oracle {
        return Err(PercolatorError::UnauthorizedOracle);
    }
    if ctx.market.status != MarketStatus::Open && ctx.market.status != MarketStatus::Closed {
        return Err(PercolatorError::AlreadyResolved);
    }
    if outcome == Outcome::Unresolved {
        return Err(PercolatorError::InvalidOutcome);
    }
    let vault_balance: u64 = ctx.vault.balance();
    ctx.market.outcome = outcome;
    let bps: u16 = ctx.market.compute_h_ratio(vault_balance);
    ctx.market.h_ratio_bps = bps;
    ctx.market.status = MarketStatus::Resolved;
    Ok(())
}

} // verus!
