//! The reasons for which an operation on a market is refused.

use vstd::prelude::*;

verus! {

/// Why an operation was refused. An operation that is refused leaves every
/// record it was given exactly as it found it.
#[derive(Clone, Copy, Debug, PartialEq, Eq, Structural)]
pub enum PercolatorError {
    /// Market is not in the expected status for this operation.
    InvalidMarketStatus,
    /// Market has not yet reached its deadline.
    MarketNotExpired,
    /// Market deadline has already passed; no more bets accepted.
    MarketExpired,
    /// Only the designated oracle authority can resolve this market.
    UnauthorizedOracle,
    /// Only the market creator or its oracle can perform this action.
    UnauthorizedCreator,
    /// Bet amount must be greater than zero.
    ZeroBetAmount,
    /// Bet amount exceeds the maximum allowed per position.
    BetAmountExceedsMax,
    /// Position has already been settled.
    AlreadySettled,
    /// Market has already been resolved.
    AlreadyResolved,
    /// The position does not belong to the caller.
    NoPosition,
    /// Question exceeds maximum length (256 bytes).
    QuestionTooLong,
    /// Deadline must be in the future.
    DeadlineInPast,
    /// Overflow in additive accounting.
    Overflow,
    /// The vault holds less than a computed disbursement. Fatal: it means an
    /// accounting invariant was broken upstream.
    VaultInsolvency,
    /// Cannot cancel a market that has already been resolved.
    CannotCancelResolved,
    /// The position is not on the winning side; no payout is available.
    LosingSide,
    /// The outcome given is not a definite one.
    InvalidOutcome,
}

} // verus!
