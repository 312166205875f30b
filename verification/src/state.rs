//! The records of the engine (market, position, protocol counters, vault)
//! and the settlement arithmetic: the h-ratio and the two-claim payout.

use vstd::prelude::*;
use crate::errors::PercolatorError;
use crate::pubkey::Pubkey;

verus! {

/// How a market is to be resolved.
#[derive(Clone, Copy, Debug, PartialEq, Eq, Structural)]
pub enum MarketRule {
    /// Token reaches a target market cap (in USD x 10^6).
    MarketCapTarget,
    /// Token reaches a target price (in USD x 10^9).
    PriceTarget,
    /// Token maintains a minimum market cap throughout the period.
    MarketCapFloor,
    /// Custom condition resolved by the oracle authority.
    OracleCustom,
}

/// Where a market stands in its lifecycle.
#[derive(Clone, Copy, Debug, PartialEq, Eq, Structural)]
pub enum MarketStatus {
    /// Market is accepting bets.
    Open,
    /// Market deadline passed, awaiting resolution.
    Closed,
    /// Outcome has been determined; settlement in progress.
    Resolved,
    /// Market was cancelled; refunds available.
    Cancelled,
    /// All settlements complete. No transition leads here.
    Settled,
}

/// The outcome of a market.
#[derive(Clone, Copy, Debug, PartialEq, Eq, Structural)]
pub enum Outcome {
    Unresolved,
    Yes,
    No,
}

/// The side a stake is placed on.
#[derive(Clone, Copy, Debug, PartialEq, Eq, Structural)]
pub enum BetSide {
    Yes,
    No,
}

impl Default for MarketRule {
    fn default() -> (rule: MarketRule)
        ensures
            rule == MarketRule::MarketCapTarget,
    {
        MarketRule::MarketCapTarget
    }
}

impl Default for MarketStatus {
    fn default() -> (status: MarketStatus)
        ensures
            status == MarketStatus::Open,
    {
        MarketStatus::Open
    }
}

impl Default for Outcome {
    fn default() -> (outcome: Outcome)
        ensures
            outcome == Outcome::Unresolved,
    {
        Outcome::Unresolved
    }
}

impl Default for BetSide {
    fn default() -> (side: BetSide)
        ensures
            side == BetSide::Yes,
    {
        BetSide::Yes
    }
}

/// Everything claimed against the vault at resolution: the winners' stakes
/// and the losers' pool, capped at the largest amount a vault can hold.
pub open spec fn total_claims(winner_pool: u64, loser_pool: u64) -> int {
    if winner_pool + loser_pool > u64::MAX {
        u64::MAX as int
    } else {
        winner_pool + loser_pool
    }
}

/// The h-ratio in basis points: full when nobody won or when the vault covers
/// all claims, else the covered fraction of the claims, rounded down.
pub open spec fn h_ratio(winner_pool: u64, loser_pool: u64, vault_balance: u64) -> int {
    if winner_pool == 0 || vault_balance >= total_claims(winner_pool, loser_pool) {
        10_000
    } else {
        (vault_balance * 10_000) / total_claims(winner_pool, loser_pool)
    }
}

/// The junior claim of a stake: its proportional share of the losing pool,
/// rounded down. Meaningful where `winner_pool > 0`.
pub open spec fn profit_share(stake: u64, winner_pool: u64, loser_pool: u64) -> int {
    (stake * loser_pool) / (winner_pool as int)
}

/// A profit after the haircut of `h_ratio_bps` basis points, rounded down.
pub open spec fn profit_after_haircut(profit: int, h_ratio_bps: u16) -> int {
    (profit * h_ratio_bps) / 10_000
}

/// What a winning stake is paid: the stake itself in full, plus its haircut
/// profit, capped at the largest amount there is. Meaningful where
/// `winner_pool > 0`.
pub open spec fn winning_payout(
    stake: u64,
    winner_pool: u64,
    loser_pool: u64,
    h_ratio_bps: u16,
) -> int {
    let profit = profit_after_haircut(profit_share(stake, winner_pool, loser_pool), h_ratio_bps);
    if stake + profit > u64::MAX {
        u64::MAX as int
    } else {
        stake + profit
    }
}

/// One binary prediction market.
#[derive(Clone, Debug)]
pub struct Market {
    /// Unique numeric identifier (incrementing).
    pub market_id: u64,
    /// Creator's identity.
    pub creator: Pubkey,
    /// Oracle authority that can resolve the market.
    pub oracle: Pubkey,
    /// Human-readable question (at most 256 bytes).
    pub question: String,
    /// Resolution rule type.
    pub rule: MarketRule,
    /// Target value for resolution; its meaning depends on `rule`.
    pub target_value: u64,
    /// The asset this market is about.
    pub token_mint: Pubkey,
    /// Market deadline (Unix timestamp). From then on no stake is accepted.
    pub deadline: i64,
    /// Current market status.
    pub status: MarketStatus,
    /// Resolved outcome (only meaningful when `status` is `Resolved`).
    pub outcome: Outcome,
    /// Total staked on YES.
    pub yes_pool: u64,
    /// Total staked on NO.
    pub no_pool: u64,
    /// YES position token mint.
    pub yes_mint: Pubkey,
    /// NO position token mint.
    pub no_mint: Pubkey,
    /// Where the market's vault lives.
    pub vault: Pubkey,
    /// Vault bump seed.
    pub vault_bump: u8,
    /// Market bump seed.
    pub bump: u8,
    /// The h-ratio in basis points (0 to 10000), set at resolution time.
    pub h_ratio_bps: u16,
    /// Total already paid out during settlement.
    pub settled_amount: u64,
    /// Number of individual settlements completed.
    pub settlements_count: u64,
}

impl Market {
    /// The pool of the resolved side; 0 while the market is unresolved.
    pub open spec fn winner_pool(&self) -> u64 {
        match self.outcome {
            Outcome::Yes => self.yes_pool,
            Outcome::No => self.no_pool,
            Outcome::Unresolved => 0,
        }
    }

    /// The pool of the side that lost; 0 while the market is unresolved.
    pub open spec fn loser_pool(&self) -> u64 {
        match self.outcome {
            Outcome::Yes => self.no_pool,
            Outcome::No => self.yes_pool,
            Outcome::Unresolved => 0,
        }
    }

    /// Whether a stake on `side` is on the side the market resolved to.
    pub open spec fn is_winning_side(&self, side: BetSide) -> bool {
        match (self.outcome, side) {
            (Outcome::Yes, BetSide::Yes) => true,
            (Outcome::No, BetSide::No) => true,
            _ => false,
        }
    }

    /// Compute the h-ratio, in basis points, from the market's outcome and
    /// pools and the balance of its vault.
    ///
    /// The result is never above 10000. It is 10000 when the market is
    /// unresolved, when the winning pool is empty, or when the vault covers
    /// the winners' stakes and the losing pool together; otherwise it is
    /// `vault_balance * 10000 / total_claims`, rounded down, so that rounding
    /// can only reduce what is paid.
    pub fn compute_h_ratio(&self, vault_balance: u64) -> (bps: u16)
        ensures
            bps <= 10_000,
            self.outcome == Outcome::Unresolved ==> bps == 10_000,
            self.outcome != Outcome::Unresolved ==> bps == h_ratio(
                self.winner_pool(),
                self.loser_pool(),
                vault_balance,
            ),
    {
        let (winner_pool, loser_pool) = match self.outcome {
            Outcome::Yes => (self.yes_pool, self.no_pool),
            Outcome::No => (self.no_pool, self.yes_pool),
            Outcome::Unresolved => {
                return 10_000;
            },
        };
        if winner_pool == 0 {
            return 10_000;
        }
        let total_claims: u64 = winner_pool.saturating_add(loser_pool);
        if vault_balance >= total_claims {
            10_000
        } else {
            let scaled: u128 = vault_balance as u128 * 10_000;
            let ratio: u128 = scaled / (total_claims as u128);
            proof {
                lemma_ratio_below_full(vault_balance as int, total_claims as int);
            }
            ratio as u16
        }
    }

    /// Calculate the payout for a stake on the winning side.
    ///
    /// The stake is the senior claim and is returned in full. The junior
    /// claim is the stake's share of the losing pool,
    /// `user_stake * loser_pool / winner_pool`, scaled by the h-ratio; both
    /// divisions round down. The sum is capped at `u64::MAX`.
    ///
    /// While the market is unresolved, or when the winning pool is empty,
    /// the result is 0.
    pub fn calculate_payout(&self, user_stake: u64) -> (payout: u64)
        ensures
            self.outcome == Outcome::Unresolved || self.winner_pool() == 0 ==> payout == 0,
            self.outcome != Outcome::Unresolved && self.winner_pool() != 0 ==> payout
                == winning_payout(
                user_stake,
                self.winner_pool(),
                self.loser_pool(),
                self.h_ratio_bps,
            ),
            self.outcome != Outcome::Unresolved && self.winner_pool() != 0 ==> payout
                >= user_stake,
    {
        let (winner_pool, loser_pool) = match self.outcome {
            Outcome::Yes => (self.yes_pool, self.no_pool),
            Outcome::No => (self.no_pool, self.yes_pool),
            Outcome::Unresolved => {
                return 0;
            },
        };
        if winner_pool == 0 {
            return 0;
        }
        let capital: u64 = user_stake;
        proof {
            lemma_product_fits(user_stake, loser_pool);
        }
        let product: u128 = (user_stake as u128) * (loser_pool as u128);
        let profit: u128 = product / (winner_pool as u128);
        proof {
            lemma_haircut_nonnegative(profit as int, self.h_ratio_bps);
        }
        match profit.checked_mul(self.h_ratio_bps as u128) {
            Some(scaled) => {
                let profit_after_h: u128 = scaled / 10_000;
                let room: u64 = u64::MAX - capital;
                if profit_after_h > room as u128 {
                    u64::MAX
                } else {
                    capital + profit_after_h as u64
                }
            },
            None => u64::MAX,
        }
    }
}

impl Default for Market {
    /// A blank market record: every number 0, every identity zero bytes, an
    /// empty question, open and unresolved.
    fn default() -> (market: Market)
        ensures
            market.market_id == 0,
            market.creator.is_zeroed(),
            market.oracle.is_zeroed(),
            market.question@ == Seq::<char>::empty(),
            market.rule == MarketRule::MarketCapTarget,
            market.target_value == 0,
            market.token_mint.is_zeroed(),
            market.deadline == 0,
            market.status == MarketStatus::Open,
            market.outcome == Outcome::Unresolved,
            market.yes_pool == 0,
            market.no_pool == 0,
            market.yes_mint.is_zeroed(),
            market.no_mint.is_zeroed(),
            market.vault.is_zeroed(),
            market.vault_bump == 0,
            market.bump == 0,
            market.h_ratio_bps == 0,
            market.settled_amount == 0,
            market.settlements_count == 0,
    {
        Market {
            market_id: 0,
            creator: Pubkey::default(),
            oracle: Pubkey::default(),
            question: String::new(),
            rule: MarketRule::MarketCapTarget,
            target_value: 0,
            token_mint: Pubkey::default(),
            deadline: 0,
            status: MarketStatus::Open,
            outcome: Outcome::Unresolved,
            yes_pool: 0,
            no_pool: 0,
            yes_mint: Pubkey::default(),
            no_mint: Pubkey::default(),
            vault: Pubkey::default(),
            vault_bump: 0,
            bump: 0,
            h_ratio_bps: 0,
            settled_amount: 0,
            settlements_count: 0,
        }
    }
}

/// The stake of one participant in one market.
#[derive(Clone, Copy, Debug)]
pub struct UserPosition {
    /// The market this position belongs to.
    pub market: Pubkey,
    /// The participant who owns this position.
    pub user: Pubkey,
    /// Side of the stake, fixed by the first bet.
    pub side: BetSide,
    /// Total deposited by the participant.
    pub deposited: u64,
    /// Whether this position has been settled or refunded.
    pub settled: bool,
    /// Amount paid out (set by settlement or refund).
    pub payout: u64,
    /// Bump seed.
    pub bump: u8,
}

impl Default for UserPosition {
    /// A blank position: nothing deposited, not settled, on YES.
    fn default() -> (position: UserPosition)
        ensures
            position.market.is_zeroed(),
            position.user.is_zeroed(),
            position.side == BetSide::Yes,
            position.deposited == 0,
            !position.settled,
            position.payout == 0,
            position.bump == 0,
    {
        UserPosition {
            market: Pubkey::default(),
            user: Pubkey::default(),
            side: BetSide::Yes,
            deposited: 0,
            settled: false,
            payout: 0,
            bump: 0,
        }
    }
}

/// Protocol-wide settings and counters.
#[derive(Clone, Copy, Debug)]
pub struct GlobalConfig {
    /// Protocol authority.
    pub authority: Pubkey,
    /// Protocol fee in basis points.
    pub fee_bps: u16,
    /// Fee collector.
    pub fee_collector: Pubkey,
    /// Next market id to assign.
    pub next_market_id: u64,
    /// Total markets created.
    pub total_markets: u64,
    /// Total volume staked, over all markets.
    pub total_volume: u64,
    /// Bump seed.
    pub bump: u8,
}

impl Default for GlobalConfig {
    /// Blank counters.
    fn default() -> (config: GlobalConfig)
        ensures
            config.authority.is_zeroed(),
            config.fee_bps == 0,
            config.fee_collector.is_zeroed(),
            config.next_market_id == 0,
            config.total_markets == 0,
            config.total_volume == 0,
            config.bump == 0,
    {
        GlobalConfig {
            authority: Pubkey::default(),
            fee_bps: 0,
            fee_collector: Pubkey::default(),
            next_market_id: 0,
            total_markets: 0,
            total_volume: 0,
            bump: 0,
        }
    }
}

/// The fund reservoir of one market: every stake on the market is held here
/// until it is paid out or refunded.
#[derive(Clone, Copy, Debug)]
pub struct Vault {
    /// Where the vault lives.
    pub key: Pubkey,
    /// What the vault holds.
    pub lamports: u64,
}

impl Vault {
    /// What the vault holds.
    pub fn balance(&self) -> (amount: u64)
        ensures
            amount == self.lamports,
    {
        self.lamports
    }

    /// Adds `amount` to the vault. Fails with `Overflow`, and changes
    /// nothing, exactly when the new balance would not fit.
    pub fn deposit(&mut self, amount: u64) -> (done: Result<(), PercolatorError>)
        ensures
            old(self).lamports + amount <= u64::MAX ==> done == Ok::<(), PercolatorError>(())
                && *final(self) == (Vault {
                lamports: (old(self).lamports + amount) as u64,
                ..*old(self)
            }),
            old(self).lamports + amount > u64::MAX ==> done == Err::<(), PercolatorError>(
                PercolatorError::Overflow,
            ) && *final(self) == *old(self),
    {
        match self.lamports.checked_add(amount) {
            Some(sum) => {
                self.lamports = sum;
                Ok(())
            },
            None => Err(PercolatorError::Overflow),
        }
    }

    /// Takes `amount` out of the vault. Fails with `VaultInsolvency`, and
    /// changes nothing, exactly when the vault holds less than `amount`.
    pub fn withdraw(&mut self, amount: u64) -> (done: Result<(), PercolatorError>)
        ensures
            amount <= old(self).lamports ==> done == Ok::<(), PercolatorError>(())
                && *final(self) == (Vault {
                lamports: (old(self).lamports - amount) as u64,
                ..*old(self)
            }),
            amount > old(self).lamports ==> done == Err::<(), PercolatorError>(
                PercolatorError::VaultInsolvency,
            ) && *final(self) == *old(self),
    {
        if amount > self.lamports {
            return Err(PercolatorError::VaultInsolvency);
        }
        self.lamports = self.lamports - amount;
        Ok(())
    }
}

/// Below full cover the scaled ratio stays under 10000.
proof fn lemma_ratio_below_full(vault_balance: int, total_claims: int)
    requires
        0 <= vault_balance < total_claims,
    ensures
        0 <= (vault_balance * 10_000) / total_claims < 10_000,
{
    assert(0 <= (vault_balance * 10_000) / total_claims < 10_000) by (nonlinear_arith)
        requires
            0 <= vault_balance < total_claims,
    ;
}

/// The product of two amounts fits the wide integer domain.
proof fn lemma_product_fits(a: u64, b: u64)
    ensures
        0 <= a * b <= u128::MAX,
{
    assert(0 <= a * b <= 0xffff_ffff_ffff_ffff * 0xffff_ffff_ffff_ffff) by (nonlinear_arith)
        requires
            0 <= a <= 0xffff_ffff_ffff_ffff,
            0 <= b <= 0xffff_ffff_ffff_ffff,
    ;
}

/// A haircut of a profit that is not negative is not negative.
proof fn lemma_haircut_nonnegative(profit: int, h_ratio_bps: u16)
    requires
        0 <= profit,
    ensures
        0 <= profit_after_haircut(profit, h_ratio_bps),
        0 <= profit * h_ratio_bps,
{
    assert(0 <= profit * h_ratio_bps && 0 <= (profit * h_ratio_bps) / 10_000)
        by (nonlinear_arith)
        requires
            0 <= profit,
            0 <= h_ratio_bps,
    ;
}

} // verus!
