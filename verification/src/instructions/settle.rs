//! Paying out a winning position of a resolved market.

use vstd::prelude::*;
use crate::errors::PercolatorError;
use crate::pubkey::Pubkey;
use crate::state::{winning_payout, Market, MarketStatus, UserPosition, Vault};

verus! {

/// The records a settlement works on.
#[derive(Clone, Debug)]
pub struct Settle {
    /// The participant claiming the payout.
    pub user: Pubkey,
    /// The resolved market.
    pub market: Market,
    /// The participant's position in this market.
    pub position: UserPosition,
    /// The market's vault, which the payout comes from.
    pub vault: Vault,
}

impl Settle {
    /// Whether the position holds a claim as a winner: it is on the side the
    /// market resolved to, and that side's pool is not empty.
    pub open spec fn is_winner(&self) -> bool {
        self.market.is_winning_side(self.position.side) && self.market.winner_pool() != 0
    }

    /// What the position is paid if it is a winner: its stake in full, plus
    /// its share of the losing pool scaled by the market's h-ratio.
    pub open spec fn payout(&self) -> u64 {
        winning_payout(
            self.position.deposited,
            self.market.winner_pool(),
            self.market.loser_pool(),
            self.market.h_ratio_bps,
        ) as u64
    }

    /// Why the settlement is refused, if it is. The checks come in this
    /// order.
    pub open spec fn rejection(&self) -> Option<PercolatorError> {
        if self.market.status != MarketStatus::Resolved {
            Some(PercolatorError::InvalidMarketStatus)
        } else if self.position.settled {
            Some(PercolatorError::AlreadySettled)
        } else if self.position.user != self.user {
            Some(PercolatorError::NoPosition)
        } else if !self.is_winner() {
            Some(PercolatorError::LosingSide)
        } else if self.payout() > self.vault.lamports {
            Some(PercolatorError::VaultInsolvency)
        } else if self.market.settled_amount + self.payout() > u64::MAX
            || self.market.settlements_count + 1 > u64::MAX {
            Some(PercolatorError::Overflow)
        } else {
            None
        }
    }

    /// The records after the settlement: the payout has left the vault, the
    /// position is settled and records it, and the market's totals count it.
    pub open spec fn settled(&self) -> Settle {
        Settle {
            market: Market {
                settled_amount: (self.market.settled_amount + self.payout()) as u64,
                settlements_count: (self.market.settlements_count + 1) as u64,
                ..self.market
            },
            position: UserPosition { settled: true, payout: self.payout(), ..self.position },
            vault: Vault { lamports: (self.vault.lamports - self.payout()) as u64, ..self.vault },
            ..*self
        }
    }
}

/// Settles the position: pays the participant the stake back in full and,
/// on top, the stake's share of the losing pool scaled by the h-ratio that
/// was frozen at resolution.
///
/// The settlement is refused with `InvalidMarketStatus` unless the market is
/// resolved, with `AlreadySettled` when the position was settled before,
/// with `NoPosition` when the position is not the caller's, with
/// `LosingSide` when the position is not on the resolved side or nobody
/// staked on that side, with `VaultInsolvency` when the vault holds less
/// than the payout, and with `Overflow` when the market's totals could not
/// count it. A refused settlement changes nothing; in particular a position
/// is paid at most once.
///
/// What was paid is recorded in `position.payout`; it is never less than
/// the stake.
pub fn handler(ctx: &mut Settle) -> (done: Result<(), PercolatorError>)
    ensures
        match old(ctx).rejection() {
            Some(e) => done == Err::<(), PercolatorError>(e) && *final(ctx) == *old(ctx),
            None => done == Ok::<(), PercolatorError>(()) && *final(ctx) == old(ctx).settled()
                && final(ctx).position.payout >= old(ctx).position.deposited,
        },
{
    if ctx.market.status != MarketStatus::Resolved {
        return Err(PercolatorError::InvalidMarketStatus);
    }
    if ctx.position.settled {
        return Err(PercolatorError::AlreadySettled);
    }
    if ctx.position.user != ctx.user {
        return Err(PercolatorError::NoPosition);
    }
    if !is_winner(&ctx.market, &ctx.position) {
        return Err(PercolatorError::LosingSide);
    }
    let payout: u64 = ctx.market.calculate_payout(ctx.position.deposited);
    if payout > ctx.vault.lamports {
        return Err(PercolatorError::VaultInsolvency);
    }
    let totals = (
        ctx.market.settled_amount.checked_add(payout),
        ctx.market.settlements_count.checked_add(1),
    );
    match totals {
        (Some(settled_amount), Some(settlements_count)) => {
            ctx.vault.lamports = ctx.vault.lamports - payout;
            ctx.position.settled = true;
            ctx.position.payout = payout;
            ctx.market.settled_amount = settled_amount;
            ctx.market.settlements_count = settlements_count;
            Ok(())
        },
        _ => Err(PercolatorError::Overflow),
    }
}

/// Whether `position` holds a claim as a winner of `market`.
fn is_winner(market: &Market, position: &UserPosition) -> (winner: bool)
    ensures
        winner == (market.is_winning_side(position.side) && market.winner_pool() != 0),
{
    match (market.outcome, position.side) {
        (crate::state::Outcome::Yes, crate::state::BetSide::Yes) => market.yes_pool != 0,
        (crate::state::Outcome::No, crate::state::BetSide::No) => market.no_pool != 0,
        _ => false,
    }
}

} // verus!
