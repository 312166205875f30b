//! What holds of a market's books over whole runs of operations: stakes are
//! counted exactly, a vault is never overdrawn, and a position is closed
//! once and for all.

use vstd::prelude::*;
use crate::errors::PercolatorError;
use crate::instructions::{CancelMarket, ClaimRefund, PlaceBet, ResolveMarket, Settle};
use crate::pubkey::Pubkey;
use crate::state::{winning_payout, BetSide, Market, MarketStatus, Outcome, UserPosition};

verus! {

/// One attempt to place a bet: who bets, the position they hold at that
/// moment, and what they ask for.
pub struct BetAttempt {
    pub bettor: Pubkey,
    pub position: UserPosition,
    pub position_bump: u8,
    pub side: BetSide,
    pub amount: u64,
    pub now: i64,
}

/// The records that the attempt `bet` meets when it arrives at `books`: the
/// market, vault and counters are those of `books`, the bettor and position
/// are the attempt's own.
pub open spec fn bet_arrives(books: PlaceBet, bet: BetAttempt) -> PlaceBet {
    PlaceBet {
        bettor: bet.bettor,
        position: bet.position,
        position_bump: bet.position_bump,
        ..books
    }
}

/// Whether the attempt `bet` is accepted when it arrives at `books`.
pub open spec fn bet_accepted(books: PlaceBet, bet: BetAttempt) -> bool {
    bet_arrives(books, bet).rejection(bet.side, bet.amount, bet.now) is None
}

/// The records after the attempt `bet` arrived at `books`, accepted or not.
pub open spec fn after_bet(books: PlaceBet, bet: BetAttempt) -> PlaceBet {
    if bet_accepted(books, bet) {
        bet_arrives(books, bet).accepted(bet.side, bet.amount)
    } else {
        bet_arrives(books, bet)
    }
}

/// The records after the attempts `bets` arrived at `books` one after
/// another.
pub open spec fn after_bets(books: PlaceBet, bets: Seq<BetAttempt>) -> PlaceBet
    decreases bets.len(),
{
    if bets.len() == 0 {
        books
    } else {
        after_bet(after_bets(books, bets.drop_last()), bets.last())
    }
}

/// The sum of the amounts of those attempts among `bets` that were accepted
/// when they arrived.
pub open spec fn accepted_stakes(books: PlaceBet, bets: Seq<BetAttempt>) -> int
    decreases bets.len(),
{
    if bets.len() == 0 {
        0
    } else {
        accepted_stakes(books, bets.drop_last()) + if bet_accepted(
            after_bets(books, bets.drop_last()),
            bets.last(),
        ) {
            bets.last().amount as int
        } else {
            0
        }
    }
}

/// Over any run of bet attempts, whoever makes them and in whatever order,
/// the two pools together grow by exactly the sum of the accepted amounts:
/// no stake is lost and none is counted twice. The vault and the protocol's
/// volume grow by the same sum, so a vault that covered the pools before the
/// run covers them after it.
pub proof fn lemma_pools_count_accepted_stakes(books: PlaceBet, bets: Seq<BetAttempt>)
    ensures
        after_bets(books, bets).market.yes_pool + after_bets(books, bets).market.no_pool
            == books.market.yes_pool + books.market.no_pool + accepted_stakes(books, bets),
        after_bets(books, bets).vault.lamports == books.vault.lamports + accepted_stakes(
            books,
            bets,
        ),
        after_bets(books, bets).config.total_volume == books.config.total_volume
            + accepted_stakes(books, bets),
        accepted_stakes(books, bets) >= 0,
    decreases bets.len(),
{
    if bets.len() > 0 {
        lemma_pools_count_accepted_stakes(books, bets.drop_last());
    }
}

/// A run of bet attempts changes nothing of a market but its two pools, and
/// those never shrink.
pub proof fn lemma_bets_only_grow_pools(books: PlaceBet, bets: Seq<BetAttempt>)
    ensures
        after_bets(books, bets).market == (Market {
            yes_pool: after_bets(books, bets).market.yes_pool,
            no_pool: after_bets(books, bets).market.no_pool,
            ..books.market
        }),
        after_bets(books, bets).market.yes_pool >= books.market.yes_pool,
        after_bets(books, bets).market.no_pool >= books.market.no_pool,
    decreases bets.len(),
{
    if bets.len() > 0 {
        lemma_bets_only_grow_pools(books, bets.drop_last());
    }
}

/// Bets commute: where two attempts are both accepted in one order, they
/// are both accepted in the other, and the market, the vault and the
/// protocol's counters end up the same either way.
pub proof fn lemma_bets_commute(books: PlaceBet, first: BetAttempt, second: BetAttempt)
    requires
        bet_accepted(books, first),
        bet_accepted(after_bet(books, first), second),
    ensures
        bet_accepted(books, second),
        bet_accepted(after_bet(books, second), first),
        after_bet(after_bet(books, second), first).market == after_bet(
            after_bet(books, first),
            second,
        ).market,
        after_bet(after_bet(books, second), first).vault == after_bet(
            after_bet(books, first),
            second,
        ).vault,
        after_bet(after_bet(books, second), first).config == after_bet(
            after_bet(books, first),
            second,
        ).config,
{
}

/// A position that holds a stake keeps its side, its owner and its market
/// through every accepted bet, whichever side the bet names; only the stake
/// grows, by the amount of the bet.
pub proof fn lemma_position_keeps_its_side(ctx: PlaceBet, side: BetSide, amount: u64, now: i64)
    requires
        ctx.position.deposited > 0,
        ctx.rejection(side, amount, now) is None,
    ensures
        ctx.accepted(side, amount).position == (UserPosition {
            deposited: (ctx.position.deposited + amount) as u64,
            ..ctx.position
        }),
        ctx.accepted(side, amount).position.deposited > ctx.position.deposited,
{
}

/// One attempt to settle: who claims, and the position they present.
pub struct SettleAttempt {
    pub user: Pubkey,
    pub position: UserPosition,
}

/// The records that the attempt `claim` meets when it arrives at `books`.
pub open spec fn claim_arrives(books: Settle, claim: SettleAttempt) -> Settle {
    Settle { user: claim.user, position: claim.position, ..books }
}

/// Whether the attempt `claim` is paid when it arrives at `books`.
pub open spec fn claim_paid(books: Settle, claim: SettleAttempt) -> bool {
    claim_arrives(books, claim).rejection() is None
}

/// The records after the attempt `claim` arrived at `books`, paid or not.
pub open spec fn after_claim(books: Settle, claim: SettleAttempt) -> Settle {
    if claim_paid(books, claim) {
        claim_arrives(books, claim).settled()
    } else {
        claim_arrives(books, claim)
    }
}

/// The records after the attempts `claims` arrived at `books` one after
/// another.
pub open spec fn after_claims(books: Settle, claims: Seq<SettleAttempt>) -> Settle
    decreases claims.len(),
{
    if claims.len() == 0 {
        books
    } else {
        after_claim(after_claims(books, claims.drop_last()), claims.last())
    }
}

/// The sum of the payouts of those attempts among `claims` that were paid
/// when they arrived.
pub open spec fn paid_out(books: Settle, claims: Seq<SettleAttempt>) -> int
    decreases claims.len(),
{
    if claims.len() == 0 {
        0
    } else {
        paid_out(books, claims.drop_last()) + if claim_paid(
            after_claims(books, claims.drop_last()),
            claims.last(),
        ) {
            claim_arrives(after_claims(books, claims.drop_last()), claims.last()).payout() as int
        } else {
            0
        }
    }
}

/// Over any run of settlement attempts on a market, in whatever order and
/// however many of them succeed, what was paid out and what the vault still
/// holds add up to what the vault held before the run. So the payouts of a
/// resolved market never exceed the vault's balance at resolution, and the
/// market's `settled_amount` counts exactly what left the vault.
pub proof fn lemma_settlements_never_overdraw(books: Settle, claims: Seq<SettleAttempt>)
    ensures
        paid_out(books, claims) + after_claims(books, claims).vault.lamports
            == books.vault.lamports,
        0 <= paid_out(books, claims) <= books.vault.lamports,
        after_claims(books, claims).market.settled_amount == books.market.settled_amount
            + paid_out(books, claims),
    decreases claims.len(),
{
    if claims.len() > 0 {
        lemma_settlements_never_overdraw(books, claims.drop_last());
    }
}

/// A run of settlement attempts changes nothing of a market but its two
/// settlement totals: the outcome, the pools and the h-ratio stay frozen.
pub proof fn lemma_settlements_keep_terms(books: Settle, claims: Seq<SettleAttempt>)
    ensures
        after_claims(books, claims).market == (Market {
            settled_amount: after_claims(books, claims).market.settled_amount,
            settlements_count: after_claims(books, claims).market.settlements_count,
            ..books.market
        }),
    decreases claims.len(),
{
    if claims.len() > 0 {
        lemma_settlements_keep_terms(books, claims.drop_last());
    }
}

/// The sum of the stakes of those attempts among `claims` whose position is
/// on the side that the market of `books` resolved to.
pub open spec fn winning_stakes(books: Settle, claims: Seq<SettleAttempt>) -> int
    decreases claims.len(),
{
    if claims.len() == 0 {
        0
    } else {
        winning_stakes(books, claims.drop_last()) + if books.market.is_winning_side(
            claims.last().position.side,
        ) {
            claims.last().position.deposited as int
        } else {
            0
        }
    }
}

/// A vault that covers both pools pays every winner. Take a market whose
/// h-ratio is at most 10000 and whose vault holds at least the two pools
/// together, and any run of settlement attempts in which the stakes
/// presented on the winning side sum to at most the winning pool: then the
/// last attempt of the run is not refused for want of funds. Every
/// beginning of such a run is such a run, so none of its attempts is.
pub proof fn lemma_covered_vault_pays_every_winner(books: Settle, claims: Seq<SettleAttempt>)
    requires
        claims.len() > 0,
        books.market.h_ratio_bps <= 10_000,
        winning_stakes(books, claims) <= books.market.winner_pool(),
        books.vault.lamports >= books.market.winner_pool() + books.market.loser_pool(),
    ensures
        claim_arrives(after_claims(books, claims.drop_last()), claims.last()).rejection() != Some(
            PercolatorError::VaultInsolvency,
        ),
{
    let before = claims.drop_last();
    let arrived = claim_arrives(after_claims(books, before), claims.last());
    let w = books.market.winner_pool() as int;
    let l = books.market.loser_pool() as int;
    lemma_settlements_keep_terms(books, before);
    lemma_settlements_never_overdraw(books, before);
    lemma_paid_within_share(books, before);
    lemma_winning_stakes_nonnegative(books, before);
    if arrived.is_winner() {
        let s = claims.last().position.deposited as int;
        let a = winning_stakes(books, before);
        lemma_payout_within_share(
            claims.last().position.deposited,
            books.market.winner_pool(),
            books.market.loser_pool(),
            books.market.h_ratio_bps,
        );
        lemma_shares_add_up(a, s, l, w);
        lemma_share_within_pool(a + s, l, w);
    }
}

/// What a run paid out is within what the stakes presented on the winning
/// side claim: the stakes themselves and their share of the losing pool.
proof fn lemma_paid_within_share(books: Settle, claims: Seq<SettleAttempt>)
    requires
        books.market.h_ratio_bps <= 10_000,
    ensures
        books.market.winner_pool() == 0 ==> paid_out(books, claims) == 0,
        books.market.winner_pool() != 0 ==> paid_out(books, claims) <= winning_stakes(
            books,
            claims,
        ) + (winning_stakes(books, claims) * books.market.loser_pool()) / (
        books.market.winner_pool() as int),
    decreases claims.len(),
{
    if claims.len() > 0 {
        let before = claims.drop_last();
        let arrived = claim_arrives(after_claims(books, before), claims.last());
        let w = books.market.winner_pool() as int;
        let l = books.market.loser_pool() as int;
        lemma_paid_within_share(books, before);
        lemma_settlements_keep_terms(books, before);
        lemma_winning_stakes_nonnegative(books, before);
        if w != 0 {
            let s = claims.last().position.deposited as int;
            let a = winning_stakes(books, before);
            if books.market.is_winning_side(claims.last().position.side) {
                lemma_payout_within_share(
                    claims.last().position.deposited,
                    books.market.winner_pool(),
                    books.market.loser_pool(),
                    books.market.h_ratio_bps,
                );
                lemma_shares_add_up(a, s, l, w);
            }
        }
    }
}

/// Stakes sum to no less than nothing.
proof fn lemma_winning_stakes_nonnegative(books: Settle, claims: Seq<SettleAttempt>)
    ensures
        winning_stakes(books, claims) >= 0,
    decreases claims.len(),
{
    if claims.len() > 0 {
        lemma_winning_stakes_nonnegative(books, claims.drop_last());
    }
}

/// With an h-ratio of at most 10000, a payout is within the stake and its
/// full share of the losing pool.
proof fn lemma_payout_within_share(stake: u64, winner_pool: u64, loser_pool: u64, h_ratio_bps: u16)
    requires
        winner_pool > 0,
        h_ratio_bps <= 10_000,
    ensures
        winning_payout(stake, winner_pool, loser_pool, h_ratio_bps) <= stake + (stake
            * loser_pool) / (winner_pool as int),
{
    let share = (stake * loser_pool) / (winner_pool as int);
    assert(0 <= share && (share * h_ratio_bps) / 10_000 <= share) by (nonlinear_arith)
        requires
            0 <= stake,
            0 <= loser_pool,
            0 < winner_pool,
            0 <= h_ratio_bps <= 10_000,
            share == (stake * loser_pool) / (winner_pool as int),
    ;
}

/// Shares rounded down one by one come to no more than the share of the
/// whole, rounded down once.
proof fn lemma_shares_add_up(a: int, s: int, l: int, w: int)
    requires
        0 <= a,
        0 <= s,
        0 <= l,
        0 < w,
    ensures
        (a * l) / w + (s * l) / w <= ((a + s) * l) / w,
        0 <= (a * l) / w,
{
    let x = a * l;
    let y = s * l;
    assert((a + s) * l == x + y) by (nonlinear_arith)
        requires
            x == a * l,
            y == s * l,
    ;
    assert(0 <= x && 0 <= y) by (nonlinear_arith)
        requires
            x == a * l,
            y == s * l,
            0 <= a,
            0 <= s,
            0 <= l,
    ;
    assert(x / w + y / w <= (x + y) / w && 0 <= x / w) by (nonlinear_arith)
        requires
            0 <= x,
            0 <= y,
            0 < w,
    ;
}

/// The share of stakes within the winning pool is within the losing pool.
proof fn lemma_share_within_pool(a: int, l: int, w: int)
    requires
        0 <= a <= w,
        0 <= l,
        0 < w,
    ensures
        (a * l) / w <= l,
{
    assert((a * l) / w <= l) by (nonlinear_arith)
        requires
            0 <= a <= w,
            0 <= l,
            0 < w,
    ;
}

/// Stakes are only taken while a market is open: on a market in any other
/// status every bet attempt is refused, so a run of them changes nothing.
pub proof fn lemma_pools_move_only_while_open(books: PlaceBet, bets: Seq<BetAttempt>)
    requires
        books.market.status != MarketStatus::Open,
    ensures
        after_bets(books, bets).market == books.market,
        after_bets(books, bets).vault == books.vault,
        after_bets(books, bets).config == books.config,
        accepted_stakes(books, bets) == 0,
    decreases bets.len(),
{
    if bets.len() > 0 {
        lemma_pools_move_only_while_open(books, bets.drop_last());
    }
}

/// Resolution and cancellation are final: a market that is resolved,
/// cancelled or settled can be neither resolved nor cancelled again,
/// whoever asks and whatever outcome is given. What resolution froze (the
/// outcome and the h-ratio) therefore stays as it is.
pub proof fn lemma_resolution_is_final(resolve: ResolveMarket, outcome: Outcome, cancel: CancelMarket)
    requires
        resolve.market.status != MarketStatus::Open,
        resolve.market.status != MarketStatus::Closed,
        cancel.market.status != MarketStatus::Open,
        cancel.market.status != MarketStatus::Closed,
    ensures
        resolve.rejection(outcome) is Some,
        cancel.rejection() is Some,
        resolve.oracle == resolve.market.oracle ==> resolve.rejection(outcome) == Some(
            PercolatorError::AlreadyResolved,
        ),
        cancel.authority == cancel.market.creator || cancel.authority == cancel.market.oracle
            ==> cancel.rejection() == Some(PercolatorError::CannotCancelResolved),
{
}

/// The principal is never haircut: whatever the h-ratio, a stake on a
/// winning side that is not empty is paid at least the stake itself.
pub proof fn lemma_principal_is_senior(
    stake: u64,
    winner_pool: u64,
    loser_pool: u64,
    h_ratio_bps: u16,
)
    requires
        winner_pool > 0,
    ensures
        stake <= winning_payout(stake, winner_pool, loser_pool, h_ratio_bps) <= u64::MAX,
{
    let profit = (stake * loser_pool) / (winner_pool as int);
    assert(0 <= profit && 0 <= (profit * h_ratio_bps) / 10_000) by (nonlinear_arith)
        requires
            0 <= stake,
            0 <= loser_pool,
            0 < winner_pool,
            0 <= h_ratio_bps,
            profit == (stake * loser_pool) / (winner_pool as int),
    ;
}

/// Every settlement that goes through pays the position at least what it
/// deposited.
pub proof fn lemma_settlement_returns_principal(ctx: Settle)
    requires
        ctx.rejection() is None,
    ensures
        ctx.settled().position.payout >= ctx.position.deposited,
        ctx.settled().position.settled,
{
    lemma_principal_is_senior(
        ctx.position.deposited,
        ctx.market.winner_pool(),
        ctx.market.loser_pool(),
        ctx.market.h_ratio_bps,
    );
}

/// A settled position is closed for good: whoever asks and whatever the
/// market and vault hold, settling it is refused, and so is refunding it.
/// The reason is `AlreadySettled` wherever the market is in the status that
/// the operation is for; elsewhere the market's status is named first.
pub proof fn lemma_settled_position_is_closed(settle: Settle, refund: ClaimRefund)
    requires
        settle.position.settled,
        refund.position.settled,
    ensures
        settle.rejection() is Some,
        refund.rejection() is Some,
        settle.market.status == MarketStatus::Resolved ==> settle.rejection() == Some(
            PercolatorError::AlreadySettled,
        ),
        refund.market.status == MarketStatus::Cancelled ==> refund.rejection() == Some(
            PercolatorError::AlreadySettled,
        ),
{
}

/// A position is settled at most once: right after a settlement, a second
/// one on the same records is refused with `AlreadySettled`.
pub proof fn lemma_second_settlement_is_refused(ctx: Settle)
    requires
        ctx.rejection() is None,
    ensures
        ctx.settled().rejection() == Some(PercolatorError::AlreadySettled),
{
}

/// A position is refunded at most once: right after a refund, a second one
/// on the same records is refused with `AlreadySettled`.
pub proof fn lemma_second_refund_is_refused(ctx: ClaimRefund)
    requires
        ctx.rejection() is None,
    ensures
        ctx.refunded().rejection() == Some(PercolatorError::AlreadySettled),
        ctx.refunded().position.payout == ctx.position.deposited,
{
}

} // verus!
