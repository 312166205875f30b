use percolator_markets::errors::PercolatorError;
use percolator_markets::pubkey::Pubkey;
use percolator_markets::state::{
    BetSide, GlobalConfig, Market, MarketRule, MarketStatus, Outcome, UserPosition, Vault,
};

fn resolved(outcome: Outcome, yes_pool: u64, no_pool: u64, h_ratio_bps: u16) -> Market {
    let mut market = Market::default();
    market.status = MarketStatus::Resolved;
    market.outcome = outcome;
    market.yes_pool = yes_pool;
    market.no_pool = no_pool;
    market.h_ratio_bps = h_ratio_bps;
    market
}

#[test]
fn h_ratio_is_full_when_vault_covers_all_claims() {
    let market = resolved(Outcome::Yes, 1000, 500, 0);
    assert_eq!(market.compute_h_ratio(1500), 10_000);
    assert_eq!(market.compute_h_ratio(1501), 10_000);
    assert_eq!(market.compute_h_ratio(u64::MAX), 10_000);
}

#[test]
fn h_ratio_is_the_covered_fraction_when_insolvent() {
    let market = resolved(Outcome::Yes, 1000, 500, 0);
    assert_eq!(market.compute_h_ratio(1200), 8000);
    assert_eq!(market.compute_h_ratio(1499), 9993);
    assert_eq!(market.compute_h_ratio(750), 5000);
    assert_eq!(market.compute_h_ratio(1), 6);
    assert_eq!(market.compute_h_ratio(0), 0);
}

#[test]
fn h_ratio_rounds_down() {
    // 1 * 10000 / 3 = 3333.33..
    let market = resolved(Outcome::No, 1, 2, 0);
    assert_eq!(market.compute_h_ratio(1), 3333);
    // 2 * 10000 / 3 = 6666.66..
    assert_eq!(market.compute_h_ratio(2), 6666);
}

#[test]
fn h_ratio_follows_the_resolved_side() {
    let yes = resolved(Outcome::Yes, 0, 500, 0);
    assert_eq!(yes.compute_h_ratio(0), 10_000);
    let no = resolved(Outcome::No, 0, 500, 0);
    assert_eq!(no.compute_h_ratio(0), 0);
    assert_eq!(no.compute_h_ratio(250), 5000);
}

#[test]
fn h_ratio_is_full_when_nobody_won() {
    let market = resolved(Outcome::No, 700, 0, 0);
    assert_eq!(market.compute_h_ratio(0), 10_000);
    assert_eq!(market.compute_h_ratio(10), 10_000);
}

#[test]
fn h_ratio_is_full_while_unresolved() {
    let mut market = Market::default();
    market.yes_pool = 10;
    market.no_pool = 10;
    assert_eq!(market.compute_h_ratio(0), 10_000);
}

#[test]
fn h_ratio_caps_total_claims_at_the_largest_amount() {
    // The pools together exceed what a vault can hold: the claims saturate.
    let market = resolved(Outcome::Yes, u64::MAX, u64::MAX, 0);
    assert_eq!(market.compute_h_ratio(u64::MAX), 10_000);
    assert_eq!(market.compute_h_ratio(u64::MAX - 1), 9999);
    assert_eq!(market.compute_h_ratio(u64::MAX / 2), 4999);
}

#[test]
fn h_ratio_never_exceeds_full() {
    let pools = [0u64, 1, 2, 999, 1000, u64::MAX / 3, u64::MAX];
    let balances = [0u64, 1, 500, 1999, 2000, u64::MAX / 2, u64::MAX];
    for &yes in pools.iter() {
        for &no in pools.iter() {
            for &balance in balances.iter() {
                for outcome in [Outcome::Yes, Outcome::No, Outcome::Unresolved] {
                    let market = resolved(outcome, yes, no, 0);
                    let h = market.compute_h_ratio(balance);
                    assert!(h <= 10_000);
                    let (winner, loser) = match outcome {
                        Outcome::Yes => (yes, no),
                        Outcome::No => (no, yes),
                        Outcome::Unresolved => (0, 0),
                    };
                    if winner == 0 || (balance as u128) >= winner as u128 + loser as u128 {
                        assert_eq!(h, 10_000);
                    }
                }
            }
        }
    }
}

#[test]
fn payout_when_solvent_is_stake_plus_share() {
    let market = resolved(Outcome::Yes, 1000, 500, 10_000);
    assert_eq!(market.calculate_payout(100), 150);
    assert_eq!(market.calculate_payout(1000), 1500);
    assert_eq!(market.calculate_payout(0), 0);
    assert_eq!(market.calculate_payout(1), 1);
    assert_eq!(market.calculate_payout(3), 4);
}

#[test]
fn payout_when_insolvent_haircuts_profit_only() {
    let market = resolved(Outcome::Yes, 1000, 500, 8000);
    assert_eq!(market.calculate_payout(100), 140);
    assert_eq!(market.calculate_payout(1000), 1400);
    // share 1 (floor of 1.5), haircut to floor(0.8) = 0
    assert_eq!(market.calculate_payout(3), 3);
}

#[test]
fn payout_with_zero_h_ratio_is_the_stake() {
    let market = resolved(Outcome::No, 500, 1000, 0);
    assert_eq!(market.calculate_payout(100), 100);
    assert_eq!(market.calculate_payout(1000), 1000);
}

#[test]
fn payout_follows_the_resolved_side() {
    let market = resolved(Outcome::No, 500, 1000, 10_000);
    // winner pool is the NO pool
    assert_eq!(market.calculate_payout(100), 150);
}

#[test]
fn payout_is_zero_while_unresolved_or_without_winners() {
    let mut market = Market::default();
    market.yes_pool = 10;
    market.no_pool = 10;
    market.h_ratio_bps = 10_000;
    assert_eq!(market.calculate_payout(5), 0);
    let empty = resolved(Outcome::Yes, 0, 500, 10_000);
    assert_eq!(empty.calculate_payout(5), 0);
}

#[test]
fn payout_is_capped_at_the_largest_amount() {
    let market = resolved(Outcome::Yes, 1, u64::MAX, 10_000);
    assert_eq!(market.calculate_payout(1), u64::MAX);
    assert_eq!(market.calculate_payout(2), u64::MAX);
    assert_eq!(market.calculate_payout(u64::MAX), u64::MAX);
    let huge = resolved(Outcome::Yes, 1, u64::MAX, u16::MAX);
    assert_eq!(huge.calculate_payout(u64::MAX), u64::MAX);
    let exact = resolved(Outcome::Yes, 2, u64::MAX - 1, 10_000);
    // 1 + floor((MAX - 1) / 2) = 1 + (MAX - 1) / 2
    assert_eq!(exact.calculate_payout(1), 1 + (u64::MAX - 1) / 2);
}

#[test]
fn payout_never_haircuts_principal() {
    let stakes = [0u64, 1, 7, 100, 1000, u64::MAX / 2, u64::MAX];
    let pools = [1u64, 3, 1000, u64::MAX];
    let ratios = [0u16, 1, 3333, 8000, 9999, 10_000, u16::MAX];
    for &stake in stakes.iter() {
        for &winner in pools.iter() {
            for &loser in pools.iter() {
                for &h in ratios.iter() {
                    let market = resolved(Outcome::Yes, winner, loser, h);
                    assert!(market.calculate_payout(stake) >= stake);
                }
            }
        }
    }
}

#[test]
fn vault_deposit_and_withdraw() {
    let key = Pubkey::new_from_array([9u8; 32]);
    let mut vault = Vault { key, lamports: 10 };
    assert_eq!(vault.balance(), 10);
    assert!(vault.deposit(5).is_ok());
    assert_eq!(vault.balance(), 15);
    assert!(vault.withdraw(15).is_ok());
    assert_eq!(vault.balance(), 0);
    assert_eq!(vault.key, key);
}

#[test]
fn vault_refuses_what_it_cannot_hold_or_pay() {
    let mut vault = Vault { key: Pubkey::default(), lamports: u64::MAX - 1 };
    assert_eq!(vault.deposit(2), Err(PercolatorError::Overflow));
    assert_eq!(vault.balance(), u64::MAX - 1);
    assert!(vault.deposit(1).is_ok());
    assert_eq!(vault.balance(), u64::MAX);
    let mut small = Vault { key: Pubkey::default(), lamports: 3 };
    assert_eq!(small.withdraw(4), Err(PercolatorError::VaultInsolvency));
    assert_eq!(small.balance(), 3);
}

#[test]
fn blank_records() {
    let market = Market::default();
    assert_eq!(market.market_id, 0);
    assert_eq!(market.creator, Pubkey::new_from_array([0u8; 32]));
    assert_eq!(market.question, "");
    assert_eq!(market.rule, MarketRule::MarketCapTarget);
    assert_eq!(market.status, MarketStatus::Open);
    assert_eq!(market.outcome, Outcome::Unresolved);
    assert_eq!(market.yes_pool, 0);
    assert_eq!(market.no_pool, 0);
    assert_eq!(market.h_ratio_bps, 0);
    assert_eq!(market.settled_amount, 0);
    assert_eq!(market.settlements_count, 0);
    let position = UserPosition::default();
    assert_eq!(position.side, BetSide::Yes);
    assert_eq!(position.deposited, 0);
    assert!(!position.settled);
    assert_eq!(position.payout, 0);
    assert_eq!(position.user.to_bytes(), [0u8; 32]);
    let config = GlobalConfig::default();
    assert_eq!(config.next_market_id, 0);
    assert_eq!(config.total_markets, 0);
    assert_eq!(config.total_volume, 0);
    assert_eq!(config.fee_bps, 0);
    assert_eq!(BetSide::default(), BetSide::Yes);
    assert_eq!(MarketRule::default(), MarketRule::MarketCapTarget);
    assert_eq!(MarketStatus::default(), MarketStatus::Open);
    assert_eq!(Outcome::default(), Outcome::Unresolved);
}

#[test]
fn identities_compare_by_their_bytes() {
    let a = Pubkey::new_from_array([1u8; 32]);
    let b = Pubkey::new_from_array([1u8; 32]);
    let mut bytes = [1u8; 32];
    bytes[31] = 2;
    let c = Pubkey::new_from_array(bytes);
    assert!(a == b);
    assert!(a != c);
    bytes[31] = 1;
    bytes[0] = 0;
    assert!(a != Pubkey::new_from_array(bytes));
    assert_eq!(c.to_bytes()[31], 2);
    assert!(Pubkey::default() == Pubkey::new_from_array([0u8; 32]));
}
