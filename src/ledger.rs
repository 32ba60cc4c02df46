//! Ball accounting: credits saturate at the largest count, debits never go
//! below zero.
use crate::alias::GameError;
use vstd::prelude::*;

verus! {

/// The balance after crediting `n` balls: `balance + n`, held at `usize::MAX`.
pub open spec fn credit_spec(balance: usize, n: usize) -> usize {
    if balance + n <= usize::MAX {
        (balance + n) as usize
    } else {
        usize::MAX
    }
}

/// Credits `n` balls to `balance`.
pub fn credit(balance: usize, n: usize) -> (r: usize)
    ensures
        r == credit_spec(balance, n),
        r >= balance,
{
    balance.saturating_add(n)
}

/// Debits `n` balls from `balance`; a debit larger than the balance is refused.
pub fn debit(balance: usize, n: usize) -> (r: Result<usize, GameError>)
    ensures
        n <= balance <==> r is Ok,
        n <= balance ==> r == Ok::<usize, GameError>((balance - n) as usize),
        n > balance ==> r == Err::<usize, GameError>(GameError::InsufficientBalls),
{
    if n <= balance {
        Ok(balance - n)
    } else {
        Err(GameError::InsufficientBalls)
    }
}

} // verus!
