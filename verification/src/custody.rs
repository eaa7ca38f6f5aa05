//! The backing-asset custody collaborator: plain token accounts holding the
//! fungible asset that backs the confidential token, and the atomic transfer
//! between them that forms the custody leg of deposits and withdrawals.

use vstd::prelude::*;
use crate::errors::TokenError;

verus! {

/// A custody account of the backing fungible asset. Its balance is public.
#[derive(Clone, Copy, Debug)]
pub struct TokenAccount {
    /// Address of this custody account.
    pub addr: u64,
    /// The backing asset this account holds.
    pub mint: u64,
    /// Identity that controls this account.
    pub owner: u64,
    /// Public balance of the backing asset.
    pub amount: u64,
}

/// When the custody transfer of `amount` from `from` to `to` succeeds.
pub open spec fn transfer_fits(from: TokenAccount, to: TokenAccount, amount: u64) -> bool {
    from.amount >= amount && to.amount + amount <= u64::MAX
}

/// Atomic debit/credit between two custody accounts. Either the full amount
/// moves or nothing does.
pub fn transfer(from: &mut TokenAccount, to: &mut TokenAccount, amount: u64) -> (r: Result<
    (),
    TokenError,
>)
    ensures
        r is Ok <==> transfer_fits(*old(from), *old(to), amount),
        old(from).amount < amount ==> r == Err::<(), TokenError>(TokenError::InsufficientBalance),
        old(from).amount >= amount && old(to).amount + amount > u64::MAX
            ==> r == Err::<(), TokenError>(TokenError::BalanceOverflow),
        r is Ok ==> final(from).amount == old(from).amount - amount,
        r is Ok ==> final(to).amount == old(to).amount + amount,
        r is Err ==> *final(from) == *old(from) && *final(to) == *old(to),
        final(from).addr == old(from).addr && final(from).mint == old(from).mint
            && final(from).owner == old(from).owner,
        final(to).addr == old(to).addr && final(to).mint == old(to).mint
            && final(to).owner == old(to).owner,
        final(from).amount + final(to).amount == old(from).amount + old(to).amount,
{
    if from.amount < amount {
        return Err(TokenError::InsufficientBalance);
    }
    if amount > u64::MAX - to.amount {
        return Err(TokenError::BalanceOverflow);
    }
    from.amount = from.amount - amount;
    to.amount = to.amount + amount;
    Ok(())
}

} // verus!
