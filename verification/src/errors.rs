//! The failure kinds that the validators, the checked arithmetic and the
//! reentrancy guard report.

use vstd::prelude::*;

verus! {

/// Why an operation was refused. The kinds carry no payload: callers branch on
/// the kind alone.
#[derive(Clone, Copy, Debug, PartialEq, Eq, Structural)]
pub enum WagerError {
    /// The session identifier is empty.
    InvalidSessionId,
    /// The session identifier is longer than the limit.
    SessionIdTooLong,
    /// The session identifier holds a character other than a letter, a digit, `-` or `_`.
    InvalidSessionIdFormat,
    /// The team selector is neither 0 nor 1.
    InvalidTeamSelection,
    /// The bet is zero or above the ceiling.
    InvalidBetAmount,
    /// The player address is the all-zero sentinel.
    InvalidPlayer,
    /// More remaining accounts were passed than the caller allows.
    TooManyRemainingAccounts,
    /// Killer and victim are the same player or play on the same team.
    InvalidKill,
    /// An addition or multiplication left the 64-bit range.
    ArithmeticOverflow,
    /// A subtraction went below zero.
    ArithmeticUnderflow,
    /// A division by zero was asked for.
    ArithmeticError,
    /// The session's critical section is already occupied.
    AlreadyProcessing,
}

} // verus!
