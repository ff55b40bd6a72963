//! Checked arithmetic on 64-bit amounts. No operation wraps: a result that
//! does not fit is reported as a failure.

use vstd::prelude::*;
use crate::errors::WagerError;

verus! {

/// Earnings are paid per this many kill-and-spawn points: a tenth of the bet for each.
pub const EARNINGS_DIVISOR: u64 = 10;

/// `a + b`, or `ArithmeticOverflow` when the sum does not fit in 64 bits.
pub fn safe_add(a: u64, b: u64) -> (res: Result<u64, WagerError>)
    ensures
        a + b <= u64::MAX ==> res == Ok::<u64, WagerError>((a + b) as u64),
        a + b > u64::MAX ==> res == Err::<u64, WagerError>(WagerError::ArithmeticOverflow),
{
    a.checked_add(b).ok_or(WagerError::ArithmeticOverflow)
}

/// `a - b`, or `ArithmeticUnderflow` when `b` is larger than `a`.
pub fn safe_subtract(a: u64, b: u64) -> (res: Result<u64, WagerError>)
    ensures
        b <= a ==> res == Ok::<u64, WagerError>((a - b) as u64),
        b > a ==> res == Err::<u64, WagerError>(WagerError::ArithmeticUnderflow),
{
    a.checked_sub(b).ok_or(WagerError::ArithmeticUnderflow)
}

/// `a * b`, or `ArithmeticOverflow` when the product does not fit in 64 bits.
pub fn safe_multiply(a: u64, b: u64) -> (res: Result<u64, WagerError>)
    ensures
        a * b <= u64::MAX ==> res == Ok::<u64, WagerError>((a * b) as u64),
        a * b > u64::MAX ==> res == Err::<u64, WagerError>(WagerError::ArithmeticOverflow),
{
    a.checked_mul(b).ok_or(WagerError::ArithmeticOverflow)
}

/// `a / b` rounded down, or `ArithmeticError` when `b` is zero. The divisor is
/// tested before the division, so a zero divisor is never reported as an overflow.
pub fn safe_divide(a: u64, b: u64) -> (res: Result<u64, WagerError>)
    ensures
        b != 0 ==> res == Ok::<u64, WagerError>(a / b),
        b == 0 ==> res == Err::<u64, WagerError>(WagerError::ArithmeticError),
{
    if b == 0 {
        return Err(WagerError::ArithmeticError);
    }
    a.checked_div(b).ok_or(WagerError::ArithmeticOverflow)
}

/// What a player has earned: a tenth of `session_bet` for each of the
/// `kills_and_spawns` points, rounded down.
pub open spec fn earnings(kills_and_spawns: u16, session_bet: u64) -> int {
    (kills_and_spawns * session_bet) / (EARNINGS_DIVISOR as int)
}

/// [`earnings`] of the player, computed as [`safe_multiply`] followed by
/// [`safe_divide`]; `ArithmeticOverflow` when the product of points and bet does
/// not fit in 64 bits.
pub fn safe_earnings_calculation(kills_and_spawns: u16, session_bet: u64) -> (res: Result<
    u64,
    WagerError,
>)
    ensures
        kills_and_spawns * session_bet <= u64::MAX ==> res == Ok::<u64, WagerError>(
            earnings(kills_and_spawns, session_bet) as u64,
        ),
        kills_and_spawns * session_bet > u64::MAX ==> res == Err::<u64, WagerError>(
            WagerError::ArithmeticOverflow,
        ),
{
    let kills_spawns_u64: u64 = kills_and_spawns as u64;
    match safe_multiply(kills_spawns_u64, session_bet) {
        Ok(multiplied) => safe_divide(multiplied, EARNINGS_DIVISOR),
        Err(e) => Err(e),
    }
}

} // verus!
