//! The plaintext-analog variant of the ledger: the same mint, vault and
//! account records, but with their values treated as public. Where the
//! oblivious path silently applies a zero effective amount, this variant
//! hard-fails on insufficient funds, and it checks the supply/locked linkage
//! outright after every mutation, since nothing is hidden. The payroll
//! scheduler moves value with this variant's debit/credit discipline.

use vstd::prelude::*;
use crate::errors::CvctError;
use crate::ledger::{
    linked, same_account_identity, same_mint_identity, same_vault_identity, CvctAccount, CvctMint,
    Vault,
};

verus! {

/// Check the linkage invariant on public values: the decrypted total supply
/// must equal the decrypted total locked.
pub fn assert_supply_matches_locked(mint: &CvctMint, vault: &Vault) -> (r: Result<(), CvctError>)
    ensures
        r is Ok <==> linked(*mint, *vault),
        r is Err ==> r == Err::<(), CvctError>(CvctError::InvariantViolation),
{
    if mint.total_supply.decrypt() == vault.total_locked.decrypt() {
        Ok(())
    } else {
        Err(CvctError::InvariantViolation)
    }
}

/// The first check an analog deposit fails, if any.
pub open spec fn deposit_checks(mint: CvctMint, vault: Vault, account: CvctAccount) -> Option<
    CvctError,
> {
    if vault.cvct_mint != mint.addr {
        Some(CvctError::InvalidVault)
    } else if account.cvct_mint != mint.addr {
        Some(CvctError::InvalidVault)
    } else if !linked(mint, vault) {
        Some(CvctError::InvariantViolation)
    } else {
        None
    }
}

/// Deposit on public values: balance, supply and locked total grow by the
/// amount in lockstep, and the linkage invariant is checked around the
/// mutation. All-or-nothing: on any failure nothing is changed.
pub fn deposit(mint: &mut CvctMint, vault: &mut Vault, account: &mut CvctAccount, amount: u64) -> (r:
    Result<(), CvctError>)
    requires
        deposit_checks(*old(mint), *old(vault), *old(account)) is None ==> old(
            mint,
        ).total_supply.decrypted() + amount <= u128::MAX && old(account).balance.decrypted()
            + amount <= u128::MAX,
    ensures
        deposit_checks(*old(mint), *old(vault), *old(account)) matches Some(e) ==> r == Err::<
            (),
            CvctError,
        >(e),
        deposit_checks(*old(mint), *old(vault), *old(account)) is None ==> r is Ok,
        r is Err ==> *final(mint) == *old(mint) && *final(vault) == *old(vault) && *final(account)
            == *old(account),
        r is Ok ==> final(account).balance.decrypted() == old(account).balance.decrypted()
            + amount,
        r is Ok ==> final(mint).total_supply.decrypted() == old(mint).total_supply.decrypted()
            + amount,
        r is Ok ==> final(vault).total_locked.decrypted() == old(vault).total_locked.decrypted()
            + amount,
        r is Ok ==> linked(*final(mint), *final(vault)),
        same_mint_identity(*final(mint), *old(mint)),
        same_vault_identity(*final(vault), *old(vault)),
        same_account_identity(*final(account), *old(account)),
{
    if vault.cvct_mint != mint.addr {
        return Err(CvctError::InvalidVault);
    }
    if account.cvct_mint != mint.addr {
        return Err(CvctError::InvalidVault);
    }
    // The post-mutation linkage assertion, evaluated up front so that a
    // violating state is rejected before anything is written.
    match assert_supply_matches_locked(mint, vault) {
        Ok(()) => (),
        Err(e) => {
            return Err(e);
        },
    }

    let new_balance = account.balance.decrypt() + (amount as u128);
    let new_supply = mint.total_supply.decrypt() + (amount as u128);
    let new_locked = vault.total_locked.decrypt() + (amount as u128);
    account.balance.set_plain(new_balance);
    mint.total_supply.set_plain(new_supply);
    vault.total_locked.set_plain(new_locked);
    Ok(())
}

/// The first check an analog withdrawal fails, if any: a request the balance
/// does not cover hard-fails here, unlike on the oblivious path.
pub open spec fn withdraw_checks(
    mint: CvctMint,
    vault: Vault,
    account: CvctAccount,
    amount: u64,
) -> Option<CvctError> {
    if vault.cvct_mint != mint.addr {
        Some(CvctError::InvalidVault)
    } else if account.cvct_mint != mint.addr {
        Some(CvctError::InvalidVault)
    } else if account.balance.decrypted() < amount as u128 {
        Some(CvctError::InsufficientFunds)
    } else if !linked(mint, vault) {
        Some(CvctError::InvariantViolation)
    } else {
        None
    }
}

/// Withdraw on public values: hard-fails with `InsufficientFunds` when the
/// balance does not cover the amount, and checks the supply/locked linkage
/// around the mutation. All-or-nothing: on any failure nothing is changed.
pub fn withdraw(mint: &mut CvctMint, vault: &mut Vault, account: &mut CvctAccount, amount: u64) -> (
    r: Result<(), CvctError>)
    requires
        withdraw_checks(*old(mint), *old(vault), *old(account), amount) is None ==> old(
            mint,
        ).total_supply.decrypted() >= amount as u128,
    ensures
        withdraw_checks(*old(mint), *old(vault), *old(account), amount) matches Some(e) ==> r
            == Err::<(), CvctError>(e),
        withdraw_checks(*old(mint), *old(vault), *old(account), amount) is None ==> r is Ok,
        old(account).balance.decrypted() < amount as u128 && old(vault).cvct_mint == old(mint).addr
            && old(account).cvct_mint == old(mint).addr ==> r == Err::<(), CvctError>(
            CvctError::InsufficientFunds,
        ),
        r is Err ==> *final(mint) == *old(mint) && *final(vault) == *old(vault) && *final(account)
            == *old(account),
        r is Ok ==> final(account).balance.decrypted() == old(account).balance.decrypted()
            - amount,
        r is Ok ==> final(mint).total_supply.decrypted() == old(mint).total_supply.decrypted()
            - amount,
        r is Ok ==> final(vault).total_locked.decrypted() == old(vault).total_locked.decrypted()
            - amount,
        r is Ok ==> linked(*final(mint), *final(vault)),
        same_mint_identity(*final(mint), *old(mint)),
        same_vault_identity(*final(vault), *old(vault)),
        same_account_identity(*final(account), *old(account)),
{
    if vault.cvct_mint != mint.addr {
        return Err(CvctError::InvalidVault);
    }
    if account.cvct_mint != mint.addr {
        return Err(CvctError::InvalidVault);
    }
    if account.balance.decrypt() < amount as u128 {
        return Err(CvctError::InsufficientFunds);
    }
    // The post-mutation linkage assertion, evaluated up front so that a
    // violating state is rejected before anything is written.
    match assert_supply_matches_locked(mint, vault) {
        Ok(()) => (),
        Err(e) => {
            return Err(e);
        },
    }

    let new_balance = account.balance.decrypt() - (amount as u128);
    let new_supply = mint.total_supply.decrypt() - (amount as u128);
    let new_locked = vault.total_locked.decrypt() - (amount as u128);
    account.balance.set_plain(new_balance);
    mint.total_supply.set_plain(new_supply);
    vault.total_locked.set_plain(new_locked);
    Ok(())
}

/// The debit/credit discipline on public values: move an amount between two
/// accounts, hard-failing when the source balance does not cover it. The sum
/// of the two balances is conserved exactly.
pub fn move_value(from: &mut CvctAccount, to: &mut CvctAccount, amount: u64) -> (r: Result<
    (),
    CvctError,
>)
    requires
        old(from).balance.decrypted() >= amount as u128 ==> old(to).balance.decrypted() + amount
            <= u128::MAX,
    ensures
        r is Ok <==> old(from).balance.decrypted() >= amount as u128,
        r is Err ==> r == Err::<(), CvctError>(CvctError::InsufficientFunds),
        r is Err ==> *final(from) == *old(from) && *final(to) == *old(to),
        r is Ok ==> final(from).balance.decrypted() == old(from).balance.decrypted() - amount,
        r is Ok ==> final(to).balance.decrypted() == old(to).balance.decrypted() + amount,
        final(from).balance.decrypted() + final(to).balance.decrypted() == old(
            from,
        ).balance.decrypted() + old(to).balance.decrypted(),
        same_account_identity(*final(from), *old(from)),
        same_account_identity(*final(to), *old(to)),
{
    if from.balance.decrypt() < amount as u128 {
        return Err(CvctError::InsufficientFunds);
    }
    let new_from = from.balance.decrypt() - (amount as u128);
    let new_to = to.balance.decrypt() + (amount as u128);
    from.balance.set_plain(new_from);
    to.balance.set_plain(new_to);
    Ok(())
}

} // verus!
