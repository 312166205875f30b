//! Placing a stake on one side of an open market.

use vstd::prelude::*;
use crate::errors::PercolatorError;
use crate::pubkey::Pubkey;
use crate::state::{BetSide, GlobalConfig, Market, MarketStatus, UserPosition, Vault};

verus! {

/// The records a bet works on.
#[derive(Clone, Debug)]
pub struct PlaceBet {
    /// The participant placing the stake.
    pub bettor: Pubkey,
    /// Where the market record lives.
    pub market_key: Pubkey,
    /// The market staked on.
    pub market: Market,
    /// The bettor's position in this market; blank before the first bet.
    pub position: UserPosition,
    /// Bump seed of the position record.
    pub position_bump: u8,
    /// The market's vault, which receives the stake.
    pub vault: Vault,
    /// Protocol counters, for volume tracking.
    pub config: GlobalConfig,
}

impl PlaceBet {
    /// The pool that a stake on `side` goes to.
    pub open spec fn pool(&self, side: BetSide) -> u64 {
        match side {
            BetSide::Yes => self.market.yes_pool,
            BetSide::No => self.market.no_pool,
        }
    }

    /// Whether one of the four sums that a bet of `amount` on `side` updates
    /// would not fit.
    pub open spec fn overflows(&self, side: BetSide, amount: u64) -> bool {
        ||| self.vault.lamports + amount > u64::MAX
        ||| self.pool(side) + amount > u64::MAX
        ||| self.position.deposited + amount > u64::MAX
        ||| self.config.total_volume + amount > u64::MAX
    }

    /// Why a bet of `amount` on `side` at time `now` is refused, if it is.
    /// The checks come in this order.
    pub open spec fn rejection(&self, side: BetSide, amount: u64, now: i64) -> Option<
        PercolatorError,
    > {
        if self.market.status != MarketStatus::Open {
            Some(PercolatorError::InvalidMarketStatus)
        } else if amount == 0 {
            Some(PercolatorError::ZeroBetAmount)
        } else if now >= self.market.deadline {
            Some(PercolatorError::MarketExpired)
        } else if self.overflows(side, amount) {
            Some(PercolatorError::Overflow)
        } else {
            None
        }
    }

    /// The market after a stake of `amount` on `side`: that side's pool has
    /// grown by `amount`.
    pub open spec fn market_after(&self, side: BetSide, amount: u64) -> Market {
        match side {
            BetSide::Yes => Market {
                yes_pool: (self.market.yes_pool + amount) as u64,
                ..self.market
            },
            BetSide::No => Market { no_pool: (self.market.no_pool + amount) as u64, ..self.market },
        }
    }

    /// The position after a stake of `amount`: a blank position is bound to
    /// this market, bettor and side; one that holds a stake keeps its side.
    /// Either way the stake grows by `amount`.
    pub open spec fn position_after(&self, side: BetSide, amount: u64) -> UserPosition {
        if self.position.deposited == 0 {
            UserPosition {
                market: self.market_key,
                user: self.bettor,
                side: side,
                bump: self.position_bump,
                deposited: amount,
                ..self.position
            }
        } else {
            UserPosition {
                deposited: (self.position.deposited + amount) as u64,
                ..self.position
            }
        }
    }

    /// The records after an accepted bet of `amount` on `side`.
    pub open spec fn accepted(&self, side: BetSide, amount: u64) -> PlaceBet {
        PlaceBet {
            market: self.market_after(side, amount),
            position: self.position_after(side, amount),
            vault: Vault { lamports: (self.vault.lamports + amount) as u64, ..self.vault },
            config: GlobalConfig {
                total_volume: (self.config.total_volume + amount) as u64,
                ..self.config
            },
            ..*self
        }
    }
}

/// Places a stake of `amount` on `side` at time `now`.
///
/// The bet is refused with `InvalidMarketStatus` unless the market is open,
/// with `ZeroBetAmount` when `amount` is 0, with `MarketExpired` when `now`
/// has reached the deadline, and with `Overflow` when the vault, the pool,
/// the position or the protocol's volume could not hold the new sum. A
/// refused bet changes nothing.
///
/// An accepted bet moves `amount` into the vault, adds it to the pool of
/// `side`, to the bettor's position and to the protocol's volume. The first
/// bet binds the position to the bettor and to `side`; later bets never
/// change the side recorded there.
pub fn handler(ctx: &mut PlaceBet, side: BetSide, amount: u64, now: i64) -> (done: Result<
    (),
    PercolatorError,
>)
    ensures
        match old(ctx).rejection(side, amount, now) {
            Some(e) => done == Err::<(), PercolatorError>(e) && *final(ctx) == *old(ctx),
            None => done == Ok::<(), PercolatorError>(()) && *final(ctx) == old(ctx).accepted(
                side,
                amount,
            ),
        },
{
    if ctx.market.status != MarketStatus::Open {
        return Err(PercolatorError::InvalidMarketStatus);
    }
    if amount == 0 {
        return Err(PercolatorError::ZeroBetAmount);
    }
    if now >= ctx.market.deadline {
        return Err(PercolatorError::MarketExpired);
    }
    let pool: u64 = match side {
        BetSide::Yes => ctx.market.yes_pool,
        BetSide::No => ctx.market.no_pool,
    };
    let sums = (
        ctx.vault.lamports.checked_add(amount),
        pool.checked_add(amount),
        ctx.position.deposited.checked_add(amount),
        ctx.config.total_volume.checked_add(amount),
    );
    match sums {
        (Some(lamports), Some(new_pool), Some(deposited), Some(total_volume)) => {
            ctx.vault.lamports = lamports;
            match side {
                BetSide::Yes => {
                    ctx.market.yes_pool = new_pool;
                },
                BetSide::No => {
                    ctx.market.no_pool = new_pool;
                },
            }
            if ctx.position.deposited == 0 {
                ctx.position.market = ctx.market_key;
                ctx.position.user = ctx.bettor;
                ctx.position.side = side;
                ctx.position.bump = ctx.position_bump;
            }
            ctx.position.deposited = deposited;
            ctx.config.total_volume = total_volume;
            Ok(())
        },
        _ => Err(PercolatorError::Overflow),
    }
}

} // verus!
