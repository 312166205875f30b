//! Refunding a position of a cancelled market.

use vstd::prelude::*;
use crate::errors::PercolatorError;
use crate::pubkey::Pubkey;
use crate::state::{Market, MarketStatus, UserPosition, Vault};

verus! {

/// The records a refund works on.
#[derive(Clone, Debug)]
pub struct ClaimRefund {
    /// The participant claiming the refund.
    pub user: Pubkey,
    /// The cancelled market.
    pub market: Market,
    /// The participant's position in this market.
    pub position: UserPosition,
    /// The market's vault, which the refund comes from.
    pub vault: Vault,
}

impl ClaimRefund {
    /// Why the refund is refused, if it is. The checks come in this order.
    pub open spec fn rejection(&self) -> Option<PercolatorError> {
        if self.market.status != MarketStatus::Cancelled {
            Some(PercolatorError::InvalidMarketStatus)
        } else if self.position.settled {
            Some(PercolatorError::AlreadySettled)
        } else if self.position.user != self.user {
            Some(PercolatorError::NoPosition)
        } else if self.position.deposited > self.vault.lamports {
            Some(PercolatorError::VaultInsolvency)
        } else {
            None
        }
    }

    /// The records after the refund: the stake has left the vault, and the
    /// position is settled and records the stake as its payout.
    pub open spec fn refunded(&self) -> ClaimRefund {
        ClaimRefund {
            position: UserPosition {
                settled: true,
                payout: self.position.deposited,
                ..self.position
            },
            vault: Vault {
                lamports: (self.vault.lamports - self.position.deposited) as u64,
                ..self.vault
            },
            ..*self
        }
    }
}

/// Refunds the position: the participant gets back exactly what was
/// deposited, with no profit and no haircut.
///
/// The refund is refused with `InvalidMarketStatus` unless the market is
/// cancelled, with `AlreadySettled` when the position was settled or
/// refunded before, with `NoPosition` when the position is not the caller's,
/// and with `VaultInsolvency` when the vault holds less than the stake. A
/// refused refund changes nothing; in particular a position is refunded at
/// most once.
pub fn handler(ctx: &mut ClaimRefund) -> (done: Result<(), PercolatorError>)
    ensures
        match old(ctx).rejection() {
            Some(e) => done == Err::<(), PercolatorError>(e) && *final(ctx) == *old(ctx),
            None => done == Ok::<(), PercolatorError>(()) && *final(ctx) == old(ctx).refunded(),
        },
{
    if ctx.market.status != MarketStatus::Cancelled {
        return Err(PercolatorError::InvalidMarketStatus);
    }
    if ctx.position.settled {
        return Err(PercolatorError::AlreadySettled);
    }
    if ctx.position.user != ctx.user {
        return Err(PercolatorError::NoPosition);
    }
    let refund_amount: u64 = ctx.position.deposited;
    if refund_amount > ctx.vault.lamports {
        return Err(PercolatorError::VaultInsolvency);
    }
    ctx.vault.lamports = ctx.vault.lamports - refund_amount;
    ctx.position.settled = true;
    ctx.position.payout = refund_amount;
    Ok(())
}

} // verus!
