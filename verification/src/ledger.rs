//! The synchronous confidential ledger: mint, vault and account records whose
//! totals are encrypted scalars, and the deposit / withdraw / transfer
//! operations that mutate them through inline calls of the encrypted
//! primitive service ([`crate::dispatch`]).
//!
//! Conservation is kept without ever decrypting a value: insufficient funds
//! are handled obliviously (an encrypted comparison selects between the
//! requested amount and zero, and the selected effective amount is applied to
//! every total in lockstep), and after any balance mutation the owner's
//! capability to decrypt the new ciphertext is re-granted.

use vstd::prelude::*;
use crate::custody::{self, TokenAccount};
use crate::dispatch::EncEngine;
use crate::encrypted::{sealed_amount, u128_modulus, wrap_add, wrap_sub, EncScalar};
use crate::errors::{CvctError, TokenError, TxError};

verus! {

/// Metadata of a confidential mint; its total supply is encrypted.
#[derive(Clone, Copy, Debug)]
pub struct CvctMint {
    /// Address of this mint record.
    pub addr: u64,
    /// Authority that created the mint.
    pub authority: u64,
    /// The backing fungible asset.
    pub backing_mint: u64,
    /// Encrypted total supply.
    pub total_supply: EncScalar,
    /// Decimals, copied from the backing asset.
    pub decimals: u8,
}

/// A holder's confidential token account; its balance is encrypted.
#[derive(Clone, Copy, Debug)]
pub struct CvctAccount {
    /// Address of this account record.
    pub addr: u64,
    /// Identity that owns the balance.
    pub owner: u64,
    /// The mint this account belongs to.
    pub cvct_mint: u64,
    /// Encrypted balance.
    pub balance: EncScalar,
}

/// The vault holding backing assets for one mint; its locked total is
/// encrypted. Exactly one vault exists per mint.
#[derive(Clone, Copy, Debug)]
pub struct Vault {
    /// Address of this vault record.
    pub addr: u64,
    /// The mint this vault backs.
    pub cvct_mint: u64,
    /// The backing fungible asset.
    pub backing_mint: u64,
    /// Custody account holding the backing assets.
    pub backing_token_account: u64,
    /// Encrypted total locked.
    pub total_locked: EncScalar,
}

/// The linkage invariant: the mint's decrypted total supply equals the
/// vault's decrypted total locked.
pub open spec fn linked(mint: CvctMint, vault: Vault) -> bool {
    mint.total_supply.decrypted() == vault.total_locked.decrypted()
}

/// Two mint records that agree on everything but the encrypted total.
pub open spec fn same_mint_identity(a: CvctMint, b: CvctMint) -> bool {
    a.addr == b.addr && a.authority == b.authority && a.backing_mint == b.backing_mint
        && a.decimals == b.decimals
}

/// Two account records that agree on everything but the encrypted balance.
pub open spec fn same_account_identity(a: CvctAccount, b: CvctAccount) -> bool {
    a.addr == b.addr && a.owner == b.owner && a.cvct_mint == b.cvct_mint
}

/// Two vault records that agree on everything but the encrypted total.
pub open spec fn same_vault_identity(a: Vault, b: Vault) -> bool {
    a.addr == b.addr && a.cvct_mint == b.cvct_mint && a.backing_mint == b.backing_mint
        && a.backing_token_account == b.backing_token_account
}

/// Create a mint and its vault, with freshly encrypted zero totals.
pub fn initialize_cvct_mint(
    engine: &mut EncEngine,
    mint_addr: u64,
    vault_addr: u64,
    authority: u64,
    backing_mint: u64,
    vault_token_account: u64,
    decimals: u8,
) -> (r: (CvctMint, Vault))
    requires
        old(engine).calls <= u64::MAX - 2,
    ensures
        r.0 == (CvctMint {
            addr: mint_addr,
            authority,
            backing_mint,
            total_supply: r.0.total_supply,
            decimals,
        }),
        r.1 == (Vault {
            addr: vault_addr,
            cvct_mint: mint_addr,
            backing_mint,
            backing_token_account: vault_token_account,
            total_locked: r.1.total_locked,
        }),
        r.0.total_supply.decrypted() == 0,
        r.1.total_locked.decrypted() == 0,
        linked(r.0, r.1),
        final(engine).key == old(engine).key,
        final(engine).calls == old(engine).calls + 2,
{
    let zero_supply = engine.as_euint128(0);
    let zero_locked = engine.as_euint128(0);
    let mint = CvctMint {
        addr: mint_addr,
        authority,
        backing_mint,
        total_supply: zero_supply,
        decimals,
    };
    let vault = Vault {
        addr: vault_addr,
        cvct_mint: mint_addr,
        backing_mint,
        backing_token_account: vault_token_account,
        total_locked: zero_locked,
    };
    (mint, vault)
}

/// Create a holder's account under a mint, with a freshly encrypted zero
/// balance.
pub fn initialize_cvct_account(
    engine: &mut EncEngine,
    account_addr: u64,
    owner: u64,
    mint: &CvctMint,
) -> (r: CvctAccount)
    requires
        old(engine).calls < u64::MAX,
    ensures
        r == (CvctAccount {
            addr: account_addr,
            owner,
            cvct_mint: mint.addr,
            balance: r.balance,
        }),
        r.balance.decrypted() == 0,
        final(engine).key == old(engine).key,
        final(engine).calls == old(engine).calls + 1,
{
    let zero_balance = engine.as_euint128(0);
    CvctAccount { addr: account_addr, owner, cvct_mint: mint.addr, balance: zero_balance }
}

/// Grant the owner of a freshly rewritten balance the capability to decrypt
/// it, reading the allowance account pair from the trailing account list.
pub fn call_allow_from_remaining(
    engine: &mut EncEngine,
    remaining_accounts: &Vec<u64>,
    handle: &mut EncScalar,
    allowed_pubkey: u64,
    account_offset: usize,
) -> (r: Result<(), CvctError>)
    requires
        old(engine).calls < u64::MAX,
        account_offset + 2 <= usize::MAX,
    ensures
        r is Ok <==> remaining_accounts@.len() >= account_offset + 2,
        r is Err ==> r == Err::<(), CvctError>(CvctError::InvalidAllowanceAccounts),
        r is Err ==> *final(handle) == *old(handle) && *final(engine) == *old(engine),
        r is Ok ==> final(handle).reader() == Some(allowed_pubkey),
        final(handle).decrypted() == old(handle).decrypted(),
        final(handle).context_key() == old(handle).context_key(),
        final(handle).context_nonce() == old(handle).context_nonce(),
        final(engine).key == old(engine).key,
        r is Ok ==> final(engine).calls == old(engine).calls + 1,
{
    if remaining_accounts.len() < account_offset + 2 {
        return Err(CvctError::InvalidAllowanceAccounts);
    }
    engine.grant(handle, allowed_pubkey, true);
    Ok(())
}

/// The first check a deposit fails, if any: record linkage and ownership in
/// the order the host validates them, then the custody leg's feasibility.
pub open spec fn deposit_checks(
    mint: CvctMint,
    vault: Vault,
    account: CvctAccount,
    user: u64,
    user_token: TokenAccount,
    vault_token: TokenAccount,
    amount: u64,
) -> Option<TxError<CvctError>> {
    if vault.cvct_mint != mint.addr {
        Some(TxError::Program(CvctError::InvalidVault))
    } else if account.cvct_mint != mint.addr {
        Some(TxError::Program(CvctError::InvalidVault))
    } else if account.owner != user {
        Some(TxError::Program(CvctError::Unauthorized))
    } else if user_token.mint != mint.backing_mint {
        Some(TxError::Program(CvctError::InvalidVault))
    } else if user_token.owner != user {
        Some(TxError::Program(CvctError::Unauthorized))
    } else if vault_token.addr != vault.backing_token_account {
        Some(TxError::Program(CvctError::InvalidVault))
    } else if user_token.amount < amount {
        Some(TxError::Custody(TokenError::InsufficientBalance))
    } else if vault_token.amount + amount > u64::MAX {
        Some(TxError::Custody(TokenError::BalanceOverflow))
    } else {
        None
    }
}

/// Deposit backing assets and mint the same confidential amount.
///
/// The custody transfer of the backing asset strictly precedes the encrypted
/// mutation; if it cannot succeed, nothing is mutated. On success the
/// account's balance, the mint's total supply and the vault's locked total
/// all grow by the deposited amount in lockstep, and the owner's decryption
/// capability over the new balance is re-granted when the allowance account
/// pair is supplied.
pub fn deposit_and_mint(
    engine: &mut EncEngine,
    mint: &mut CvctMint,
    vault: &mut Vault,
    account: &mut CvctAccount,
    user: u64,
    user_token: &mut TokenAccount,
    vault_token: &mut TokenAccount,
    amount: u64,
    remaining_accounts: &Vec<u64>,
) -> (r: Result<(), TxError<CvctError>>)
    requires
        old(engine).calls <= u64::MAX - 5,
    ensures
        deposit_checks(
            *old(mint),
            *old(vault),
            *old(account),
            user,
            *old(user_token),
            *old(vault_token),
            amount,
        ) matches Some(e) ==> r == Err::<(), TxError<CvctError>>(e),
        deposit_checks(
            *old(mint),
            *old(vault),
            *old(account),
            user,
            *old(user_token),
            *old(vault_token),
            amount,
        ) is None ==> r is Ok,
        r is Err ==> *final(mint) == *old(mint) && *final(vault) == *old(vault) && *final(account)
            == *old(account) && *final(user_token) == *old(user_token) && *final(vault_token)
            == *old(vault_token) && *final(engine) == *old(engine),
        r is Ok ==> final(account).balance.decrypted() == wrap_add(
            old(account).balance.decrypted(),
            amount as u128,
        ),
        r is Ok ==> final(mint).total_supply.decrypted() == wrap_add(
            old(mint).total_supply.decrypted(),
            amount as u128,
        ),
        r is Ok ==> final(vault).total_locked.decrypted() == wrap_add(
            old(vault).total_locked.decrypted(),
            amount as u128,
        ),
        r is Ok ==> final(user_token).amount == old(user_token).amount - amount,
        r is Ok ==> final(vault_token).amount == old(vault_token).amount + amount,
        r is Ok && linked(*old(mint), *old(vault)) ==> linked(*final(mint), *final(vault)),
        r is Ok && remaining_accounts@.len() >= 2 ==> final(account).balance.reader()
            == Some(old(account).owner),
        r is Ok ==> final(account).balance.context_key() == old(engine).key
            && final(mint).total_supply.context_key() == old(engine).key
            && final(vault).total_locked.context_key() == old(engine).key,
        same_mint_identity(*final(mint), *old(mint)),
        same_vault_identity(*final(vault), *old(vault)),
        same_account_identity(*final(account), *old(account)),
        final(user_token).addr == old(user_token).addr
            && final(user_token).mint == old(user_token).mint
            && final(user_token).owner == old(user_token).owner,
        final(vault_token).addr == old(vault_token).addr
            && final(vault_token).mint == old(vault_token).mint
            && final(vault_token).owner == old(vault_token).owner,
        final(engine).key == old(engine).key,
        r is Ok ==> final(engine).calls == old(engine).calls + 4 + (
        if remaining_accounts@.len() >= 2 {
            1int
        } else {
            0int
        }),
{
    if vault.cvct_mint != mint.addr {
        return Err(TxError::Program(CvctError::InvalidVault));
    }
    if account.cvct_mint != mint.addr {
        return Err(TxError::Program(CvctError::InvalidVault));
    }
    if account.owner != user {
        return Err(TxError::Program(CvctError::Unauthorized));
    }
    if user_token.mint != mint.backing_mint {
        return Err(TxError::Program(CvctError::InvalidVault));
    }
    if user_token.owner != user {
        return Err(TxError::Program(CvctError::Unauthorized));
    }
    if vault_token.addr != vault.backing_token_account {
        return Err(TxError::Program(CvctError::InvalidVault));
    }

    // 1. Custody leg: move backing assets from the user into the vault.
    match custody::transfer(user_token, vault_token, amount) {
        Ok(()) => (),
        Err(e) => {
            return Err(TxError::Custody(e));
        },
    }

    // 2. Encrypt the plaintext amount.
    let encrypted_amount = engine.as_euint128(amount as u128);

    // 3. Grow balance, supply and locked total by the same encrypted amount.
    let new_balance = engine.e_add(&account.balance, &encrypted_amount);
    account.balance = new_balance;

    let new_supply = engine.e_add(&mint.total_supply, &encrypted_amount);
    mint.total_supply = new_supply;

    let new_locked = engine.e_add(&vault.total_locked, &encrypted_amount);
    vault.total_locked = new_locked;

    // 4. Re-grant the owner's capability over the new balance.
    if remaining_accounts.len() >= 2 {
        let owner = account.owner;
        match call_allow_from_remaining(engine, remaining_accounts, &mut account.balance, owner, 0) {
            Ok(()) => (),
            Err(_) => {
                // The guard above already established that both allowance
                // accounts are present.
                proof {
                    assert(false);
                }
            },
        }
    }

    Ok(())
}

/// The amount an oblivious debit actually applies: the requested amount when
/// the balance covers it, zero otherwise.
pub open spec fn effective_amount(bal: u128, amount: u128) -> u128 {
    if bal >= amount {
        amount
    } else {
        0
    }
}

/// The first check a withdrawal fails, if any: record linkage and ownership
/// in the order the host validates them, then the custody leg's feasibility.
pub open spec fn withdraw_checks(
    mint: CvctMint,
    vault: Vault,
    account: CvctAccount,
    user: u64,
    user_token: TokenAccount,
    vault_token: TokenAccount,
    amount: u64,
) -> Option<TxError<CvctError>> {
    if vault.cvct_mint != mint.addr {
        Some(TxError::Program(CvctError::InvalidVault))
    } else if account.cvct_mint != mint.addr {
        Some(TxError::Program(CvctError::InvalidVault))
    } else if account.owner != user {
        Some(TxError::Program(CvctError::Unauthorized))
    } else if user_token.mint != mint.backing_mint {
        Some(TxError::Program(CvctError::InvalidVault))
    } else if user_token.owner != user {
        Some(TxError::Program(CvctError::Unauthorized))
    } else if vault_token.addr != vault.backing_token_account {
        Some(TxError::Program(CvctError::InvalidVault))
    } else if vault_token.amount < amount {
        Some(TxError::Custody(TokenError::InsufficientBalance))
    } else if user_token.amount + amount > u64::MAX {
        Some(TxError::Custody(TokenError::BalanceOverflow))
    } else {
        None
    }
}

/// Obliviously burn confidential tokens and withdraw backing assets.
///
/// The encrypted comparison `balance >= amount` selects between the requested
/// amount and zero, and the selected effective amount is subtracted from
/// balance, supply and locked total in lockstep — so an uncovered request
/// silently leaves every encrypted total unchanged rather than raising an
/// error, keeping the comparison's outcome confidential. The custody leg pays
/// out the full requested amount regardless of the selection, as the host
/// program does; only the encrypted state is guarded obliviously.
pub fn burn_and_withdraw(
    engine: &mut EncEngine,
    mint: &mut CvctMint,
    vault: &mut Vault,
    account: &mut CvctAccount,
    user: u64,
    user_token: &mut TokenAccount,
    vault_token: &mut TokenAccount,
    amount: u64,
    remaining_accounts: &Vec<u64>,
) -> (r: Result<(), TxError<CvctError>>)
    requires
        old(engine).calls <= u64::MAX - 8,
    ensures
        withdraw_checks(
            *old(mint),
            *old(vault),
            *old(account),
            user,
            *old(user_token),
            *old(vault_token),
            amount,
        ) matches Some(e) ==> r == Err::<(), TxError<CvctError>>(e),
        withdraw_checks(
            *old(mint),
            *old(vault),
            *old(account),
            user,
            *old(user_token),
            *old(vault_token),
            amount,
        ) is None ==> r is Ok,
        r is Err ==> *final(mint) == *old(mint) && *final(vault) == *old(vault) && *final(account)
            == *old(account) && *final(user_token) == *old(user_token) && *final(vault_token)
            == *old(vault_token) && *final(engine) == *old(engine),
        r is Ok ==> final(account).balance.decrypted() == wrap_sub(
            old(account).balance.decrypted(),
            effective_amount(old(account).balance.decrypted(), amount as u128),
        ),
        r is Ok ==> final(mint).total_supply.decrypted() == wrap_sub(
            old(mint).total_supply.decrypted(),
            effective_amount(old(account).balance.decrypted(), amount as u128),
        ),
        r is Ok ==> final(vault).total_locked.decrypted() == wrap_sub(
            old(vault).total_locked.decrypted(),
            effective_amount(old(account).balance.decrypted(), amount as u128),
        ),
        r is Ok && old(account).balance.decrypted() < amount as u128
            ==> final(account).balance.decrypted() == old(account).balance.decrypted()
            && final(mint).total_supply.decrypted() == old(mint).total_supply.decrypted()
            && final(vault).total_locked.decrypted() == old(vault).total_locked.decrypted(),
        r is Ok ==> final(vault_token).amount == old(vault_token).amount - amount,
        r is Ok ==> final(user_token).amount == old(user_token).amount + amount,
        r is Ok && linked(*old(mint), *old(vault)) ==> linked(*final(mint), *final(vault)),
        r is Ok && remaining_accounts@.len() >= 2 ==> final(account).balance.reader()
            == Some(old(account).owner),
        r is Ok ==> final(account).balance.context_key() == old(engine).key
            && final(mint).total_supply.context_key() == old(engine).key
            && final(vault).total_locked.context_key() == old(engine).key,
        same_mint_identity(*final(mint), *old(mint)),
        same_vault_identity(*final(vault), *old(vault)),
        same_account_identity(*final(account), *old(account)),
        final(user_token).addr == old(user_token).addr
            && final(user_token).mint == old(user_token).mint
            && final(user_token).owner == old(user_token).owner,
        final(vault_token).addr == old(vault_token).addr
            && final(vault_token).mint == old(vault_token).mint
            && final(vault_token).owner == old(vault_token).owner,
        final(engine).key == old(engine).key,
        r is Ok ==> final(engine).calls == old(engine).calls + 7 + (
        if remaining_accounts@.len() >= 2 {
            1int
        } else {
            0int
        }),
{
    if vault.cvct_mint != mint.addr {
        return Err(TxError::Program(CvctError::InvalidVault));
    }
    if account.cvct_mint != mint.addr {
        return Err(TxError::Program(CvctError::InvalidVault));
    }
    if account.owner != user {
        return Err(TxError::Program(CvctError::Unauthorized));
    }
    if user_token.mint != mint.backing_mint {
        return Err(TxError::Program(CvctError::InvalidVault));
    }
    if user_token.owner != user {
        return Err(TxError::Program(CvctError::Unauthorized));
    }
    if vault_token.addr != vault.backing_token_account {
        return Err(TxError::Program(CvctError::InvalidVault));
    }
    // The custody payout must be able to succeed before any encrypted state
    // is touched: the whole operation is all-or-nothing.
    if vault_token.amount < amount {
        return Err(TxError::Custody(TokenError::InsufficientBalance));
    }
    if amount > u64::MAX - user_token.amount {
        return Err(TxError::Custody(TokenError::BalanceOverflow));
    }

    // 1. Encrypt the plaintext amount.
    let encrypted_amount = engine.as_euint128(amount as u128);

    // 2. Encrypted comparison: does the balance cover the amount?
    let has_sufficient = engine.e_ge(&account.balance, &encrypted_amount);

    // 3. Oblivious selection of the effective burn amount (zero if not).
    let zero_value = engine.as_euint128(0);
    let burn_amount = engine.e_select(&has_sufficient, &encrypted_amount, &zero_value);

    // 4. Shrink balance, supply and locked total by the same effective amount.
    let new_balance = engine.e_sub(&account.balance, &burn_amount);
    account.balance = new_balance;

    let new_supply = engine.e_sub(&mint.total_supply, &burn_amount);
    mint.total_supply = new_supply;

    let new_locked = engine.e_sub(&vault.total_locked, &burn_amount);
    vault.total_locked = new_locked;

    // 5. Custody leg: pay the full requested amount out of the vault.
    match custody::transfer(vault_token, user_token, amount) {
        Ok(()) => (),
        Err(_) => {
            // Feasibility was checked above; the transfer cannot fail here.
            proof {
                assert(false);
            }
        },
    }

    // 6. Re-grant the owner's capability over the new balance.
    if remaining_accounts.len() >= 2 {
        let owner = account.owner;
        match call_allow_from_remaining(engine, remaining_accounts, &mut account.balance, owner, 0) {
            Ok(()) => (),
            Err(_) => {
                proof {
                    assert(false);
                }
            },
        }
    }

    Ok(())
}

/// Pure form of transfer conservation: debiting an effective amount that the
/// source covers and crediting it to the destination leaves the sum of the
/// two balances unchanged in the u128 domain.
pub proof fn lemma_conserved_sum(a: u128, b: u128, t: u128)
    requires
        t <= a,
    ensures
        ((a - t) + wrap_add(b, t)) % u128_modulus() == (a + b) % u128_modulus(),
{
    if b + t > u128::MAX {
        vstd::arithmetic::div_mod::lemma_mod_multiples_vanish(-1, a + b, u128_modulus());
    }
}

/// The first check a transfer fails, if any: linkage and ownership of the two
/// accounts, in the order the host validates them.
pub open spec fn transfer_checks(
    mint: CvctMint,
    from_acct: CvctAccount,
    to_acct: CvctAccount,
    from_user: u64,
) -> Option<CvctError> {
    if from_acct.cvct_mint != mint.addr {
        Some(CvctError::InvalidVault)
    } else if from_acct.owner != from_user {
        Some(CvctError::Unauthorized)
    } else if to_acct.cvct_mint != mint.addr {
        Some(CvctError::InvalidVault)
    } else {
        None
    }
}

/// Transfer a client-sealed confidential amount between two accounts of the
/// same mint.
///
/// Debit and credit derive from the one obliviously selected effective
/// amount, so no value is created or destroyed and the supply and vault are
/// untouched. A transfer whose source and destination are the same record
/// succeeds as a no-op without issuing a single call to the encrypted
/// primitive service. When the source and destination differ, the two
/// parameters are the host's working copies of two distinct records; when
/// they are equal they are copies of the same record, which the operation
/// leaves untouched.
pub fn transfer_cvct(
    engine: &mut EncEngine,
    mint: &CvctMint,
    from_cvct_account: &mut CvctAccount,
    to_cvct_account: &mut CvctAccount,
    from_user: u64,
    ciphertext: &Vec<u8>,
    input_type: u8,
    remaining_accounts: &Vec<u64>,
) -> (r: Result<(), CvctError>)
    requires
        old(engine).calls <= u64::MAX - 8,
        old(from_cvct_account).addr != old(to_cvct_account).addr ==> ciphertext@.len() == 16,
    ensures
        transfer_checks(*mint, *old(from_cvct_account), *old(to_cvct_account), from_user)
            matches Some(e) ==> r == Err::<(), CvctError>(e),
        transfer_checks(*mint, *old(from_cvct_account), *old(to_cvct_account), from_user) is None
            ==> r is Ok,
        r is Err ==> *final(from_cvct_account) == *old(from_cvct_account)
            && *final(to_cvct_account) == *old(to_cvct_account) && *final(engine) == *old(engine),
        r is Ok && old(from_cvct_account).addr == old(to_cvct_account).addr
            ==> *final(from_cvct_account) == *old(from_cvct_account)
            && *final(to_cvct_account) == *old(to_cvct_account) && *final(engine) == *old(engine),
        r is Ok && old(from_cvct_account).addr != old(to_cvct_account).addr
            ==> final(from_cvct_account).balance.decrypted() == wrap_sub(
            old(from_cvct_account).balance.decrypted(),
            effective_amount(
                old(from_cvct_account).balance.decrypted(),
                sealed_amount(ciphertext@),
            ),
        ),
        r is Ok && old(from_cvct_account).addr != old(to_cvct_account).addr
            ==> final(to_cvct_account).balance.decrypted() == wrap_add(
            old(to_cvct_account).balance.decrypted(),
            effective_amount(
                old(from_cvct_account).balance.decrypted(),
                sealed_amount(ciphertext@),
            ),
        ),
        r is Ok && old(from_cvct_account).addr != old(to_cvct_account).addr
            && old(from_cvct_account).balance.decrypted() < sealed_amount(ciphertext@)
            ==> final(from_cvct_account).balance.decrypted()
            == old(from_cvct_account).balance.decrypted()
            && final(to_cvct_account).balance.decrypted()
            == old(to_cvct_account).balance.decrypted(),
        r is Ok ==> (final(from_cvct_account).balance.decrypted()
            + final(to_cvct_account).balance.decrypted()) % u128_modulus() == (
        old(from_cvct_account).balance.decrypted() + old(to_cvct_account).balance.decrypted())
            % u128_modulus(),
        r is Ok && old(from_cvct_account).addr != old(to_cvct_account).addr
            && remaining_accounts@.len() >= 2 ==> final(from_cvct_account).balance.reader()
            == Some(old(from_cvct_account).owner),
        r is Ok && old(from_cvct_account).addr != old(to_cvct_account).addr
            && remaining_accounts@.len() >= 4 ==> final(to_cvct_account).balance.reader()
            == Some(old(to_cvct_account).owner),
        same_account_identity(*final(from_cvct_account), *old(from_cvct_account)),
        same_account_identity(*final(to_cvct_account), *old(to_cvct_account)),
        final(engine).key == old(engine).key,
        r is Ok && old(from_cvct_account).addr != old(to_cvct_account).addr
            ==> final(engine).calls == old(engine).calls + 6 + (
        if remaining_accounts@.len() >= 4 {
            2int
        } else if remaining_accounts@.len() >= 2 {
            1int
        } else {
            0int
        }),
{
    if from_cvct_account.cvct_mint != mint.addr {
        return Err(CvctError::InvalidVault);
    }
    if from_cvct_account.owner != from_user {
        return Err(CvctError::Unauthorized);
    }
    if to_cvct_account.cvct_mint != mint.addr {
        return Err(CvctError::InvalidVault);
    }

    // A self-transfer must no-op successfully without invoking any primitive.
    if from_cvct_account.addr == to_cvct_account.addr {
        return Ok(());
    }

    // 1. Accept the client-sealed amount as an encrypted scalar.
    let amount = engine.new_euint128(ciphertext, input_type);

    // 2. Encrypted comparison: does the sender's balance cover the amount?
    let has_sufficient = engine.e_ge(&from_cvct_account.balance, &amount);

    // 3. Oblivious selection of the effective transfer amount (zero if not).
    let zero_value = engine.as_euint128(0);
    let transfer_amount = engine.e_select(&has_sufficient, &amount, &zero_value);

    // 4. Debit the sender by the effective amount.
    let new_source_balance = engine.e_sub(&from_cvct_account.balance, &transfer_amount);

    // 5. Credit the receiver by the same effective amount.
    let new_dest_balance = engine.e_add(&to_cvct_account.balance, &transfer_amount);

    proof {
        lemma_conserved_sum(
            old(from_cvct_account).balance.decrypted(),
            old(to_cvct_account).balance.decrypted(),
            effective_amount(
                old(from_cvct_account).balance.decrypted(),
                sealed_amount(ciphertext@),
            ),
        );
    }

    from_cvct_account.balance = new_source_balance;
    to_cvct_account.balance = new_dest_balance;

    // 6. Re-grant the sender's capability over their new balance.
    if remaining_accounts.len() >= 2 {
        let owner = from_cvct_account.owner;
        match call_allow_from_remaining(
            engine,
            remaining_accounts,
            &mut from_cvct_account.balance,
            owner,
            0,
        ) {
            Ok(()) => (),
            Err(_) => {
                proof {
                    assert(false);
                }
            },
        }
    }

    // 7. Re-grant the receiver's capability over their new balance.
    if remaining_accounts.len() >= 4 {
        let owner = to_cvct_account.owner;
        match call_allow_from_remaining(
            engine,
            remaining_accounts,
            &mut to_cvct_account.balance,
            owner,
            2,
        ) {
            Ok(()) => (),
            Err(_) => {
                proof {
                    assert(false);
                }
            },
        }
    }

    Ok(())
}

} // verus!
