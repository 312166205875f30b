//! A settlement engine for binary prediction markets: stakes on two
//! outcomes, a one-way market lifecycle, and a two-claim payout in which
//! principal is senior and profit is scaled by the market's h-ratio.
//!
//! The six operations below are the engine's whole surface. Each takes the
//! records it works on, checks them, and either applies all of its effects
//! or leaves everything as it was and says why.

use vstd::prelude::*;

pub mod errors;
pub mod instructions;
pub mod ledger;
pub mod pubkey;
pub mod state;

use crate::errors::PercolatorError;
use crate::instructions::{
    CancelMarket, ClaimRefund, CreateMarket, CreateMarketParams, PlaceBet, ResolveMarket, Settle,
};
use crate::state::{BetSide, Outcome};

verus! {

/// Create a new binary prediction market.
///
/// Resolution criteria are encoded in the rule and target value of `params`.
pub fn create_market(ctx: &mut CreateMarket, params: CreateMarketParams, now: i64) -> (done:
    Result<(), PercolatorError>)
    ensures
        match old(ctx).rejection(params, now) {
            Some(e) => done == Err::<(), PercolatorError>(e) && *final(ctx) == *old(ctx),
            None => done == Ok::<(), PercolatorError>(()) && *final(ctx) == old(ctx).created(
                params,
            ),
        },
{
    instructions::create_market::handler(ctx, params, now)
}

/// Place a bet on YES or NO.
///
/// Moves `amount` into the market's vault and counts it in the pool of
/// `side` and in the bettor's position.
pub fn place_bet(ctx: &mut PlaceBet, side: BetSide, amount: u64, now: i64) -> (done: Result<
    (),
    PercolatorError,
>)
    ensures
        match old(ctx).rejection(side, amount, now) {
            Some(e) => done == Err::<(), PercolatorError>(e) && *final(ctx) == *old(ctx),
            None => done == Ok::<(), PercolatorError>(()) && *final(ctx) == old(ctx).accepted(
                side,
                amount,
            ),
        },
{
    instructions::place_bet::handler(ctx, side, amount, now)
}

/// Resolve the market outcome.
///
/// Only the designated oracle may do so. Sets the outcome to YES or NO and
/// freezes the h-ratio that the vault's balance gives.
pub fn resolve_market(ctx: &mut ResolveMarket, outcome: Outcome) -> (done: Result<
    (),
    PercolatorError,
>)
    ensures
        match old(ctx).rejection(outcome) {
            Some(e) => done == Err::<(), PercolatorError>(e) && *final(ctx) == *old(ctx),
            None => {
                &&& done == Ok::<(), PercolatorError>(())
                &&& *final(ctx) == old(ctx).resolved(outcome)
                &&& final(ctx).market.h_ratio_bps <= 10_000
                &&& old(ctx).fully_solvent(outcome) ==> final(ctx).market.h_ratio_bps == 10_000
            },
        },
{
    instructions::resolve::handler(ctx, outcome)
}

/// Settle a position after market resolution.
///
/// The payout has two parts: the capital (senior), which is the stake and is
/// returned in full, and the profit (junior), which is the stake's share of
/// the losing pool scaled by the h-ratio.
pub fn settle(ctx: &mut Settle) -> (done: Result<(), PercolatorError>)
    ensures
        match old(ctx).rejection() {
            Some(e) => done == Err::<(), PercolatorError>(e) && *final(ctx) == *old(ctx),
            None => done == Ok::<(), PercolatorError>(()) && *final(ctx) == old(ctx).settled()
                && final(ctx).position.payout >= old(ctx).position.deposited,
        },
{
    instructions::settle::handler(ctx)
}

/// Cancel a market before resolution (creator or oracle only).
///
/// Every position can then be refunded in full through `claim_refund`.
pub fn cancel_market(ctx: &mut CancelMarket) -> (done: Result<(), PercolatorError>)
    ensures
        match old(ctx).rejection() {
            Some(e) => done == Err::<(), PercolatorError>(e) && *final(ctx) == *old(ctx),
            None => done == Ok::<(), PercolatorError>(()) && *final(ctx) == old(ctx).cancelled(),
        },
{
    instructions::cancel::handler(ctx)
}

/// Claim the refund of a position from a cancelled market.
///
/// Returns exactly what the position deposited.
pub fn claim_refund(ctx: &mut ClaimRefund) -> (done: Result<(), PercolatorError>)
    ensures
        match old(ctx).rejection() {
            Some(e) => done == Err::<(), PercolatorError>(e) && *final(ctx) == *old(ctx),
            None => done == Ok::<(), PercolatorError>(()) && *final(ctx) == old(ctx).refunded(),
        },
{
    instructions::claim_refund::handler(ctx)
}

} // verus!
