//! Cancelling a market before it is resolved.

use vstd::prelude::*;
use crate::errors::PercolatorError;
use crate::pubkey::Pubkey;
use crate::state::{Market, MarketStatus};

verus! {

/// The records a cancellation works on.
#[derive(Clone, Debug)]
pub struct CancelMarket {
    /// The caller, who must be the market's creator or its oracle.
    pub authority: Pubkey,
    /// The market to cancel.
    pub market: Market,
}

impl CancelMarket {
    /// Why the cancellation is refused, if it is. The checks come in this
    /// order.
    pub open spec fn rejection(&self) -> Option<PercolatorError> {
        if self.authority != self.market.creator && self.authority != self.market.oracle {
            Some(PercolatorError::UnauthorizedCreator)
        } else if self.market.status != MarketStatus::Open && self.market.status
            != MarketStatus::Closed {
            Some(PercolatorError::CannotCancelResolved)
        } else {
            None
        }
    }

    /// The records after the cancellation: only the market's status differs.
    pub open spec fn cancelled(&self) -> CancelMarket {
        CancelMarket { market: Market { status: MarketStatus::Cancelled, ..self.market }, ..*self }
    }
}

/// Cancels the market, so that every stake on it can be refunded.
///
/// The cancellation is refused with `UnauthorizedCreator` unless the caller
/// is the market's creator or its oracle, and with `CannotCancelResolved`
/// unless the market is open or closed. A refused cancellation changes
/// nothing. An accepted one sets the status to `Cancelled` and touches no
/// accounting.
pub fn handler(ctx: &mut CancelMarket) -> (done: Result<(), PercolatorError>)
    ensures
        match old(ctx).rejection() {
            Some(e) => done == Err::<(), PercolatorError>(e) && *final(ctx) == *old(ctx),
            None => done == Ok::<(), PercolatorError>(()) && *final(ctx) == old(ctx).cancelled(),
        },
{
    if ctx.authority != ctx.market.creator && ctx.authority != ctx.market.oracle {
        return Err(PercolatorError::UnauthorizedCreator);
    }
    if ctx.market.status != MarketStatus::Open && ctx.market.status != MarketStatus::Closed {
        return Err(PercolatorError::CannotCancelResolved);
    }
    ctx.market.status = MarketStatus::Cancelled;
    Ok(())
}

} // verus!
