use cvct::custody::TokenAccount;
use cvct::dispatch::EncEngine;
use cvct::errors::{CvctError, TokenError, TxError};
use cvct::ledger::{
    burn_and_withdraw, call_allow_from_remaining, deposit_and_mint, initialize_cvct_account,
    initialize_cvct_mint, transfer_cvct,
};

const AUTHORITY: u64 = 11;
const USER: u64 = 12;
const MINT_ADDR: u64 = 100;
const VAULT_ADDR: u64 = 101;
const VAULT_TOKEN: u64 = 102;
const BACKING_MINT: u64 = 103;
const ACCOUNT_ADDR: u64 = 104;
const USER_TOKEN: u64 = 105;

fn sealed(v: u128) -> Vec<u8> {
    let mut b = Vec::new();
    let mut x = v;
    for _ in 0..16 {
        b.push((x % 256) as u8);
        x /= 256;
    }
    b
}

struct World {
    engine: EncEngine,
    mint: cvct::ledger::CvctMint,
    vault: cvct::ledger::Vault,
    account: cvct::ledger::CvctAccount,
    user_token: TokenAccount,
    vault_token: TokenAccount,
}

fn setup(user_funds: u64, vault_funds: u64) -> World {
    let mut engine = EncEngine::new(7);
    let (mint, vault) = initialize_cvct_mint(
        &mut engine,
        MINT_ADDR,
        VAULT_ADDR,
        AUTHORITY,
        BACKING_MINT,
        VAULT_TOKEN,
        6,
    );
    let account = initialize_cvct_account(&mut engine, ACCOUNT_ADDR, USER, &mint);
    let user_token =
        TokenAccount { addr: USER_TOKEN, mint: BACKING_MINT, owner: USER, amount: user_funds };
    let vault_token =
        TokenAccount { addr: VAULT_TOKEN, mint: BACKING_MINT, owner: VAULT_ADDR, amount: vault_funds };
    World { engine, mint, vault, account, user_token, vault_token }
}

#[test]
fn initialize_starts_linked_at_zero() {
    let w = setup(0, 0);
    assert_eq!(w.mint.total_supply.decrypt(), 0);
    assert_eq!(w.vault.total_locked.decrypt(), 0);
    assert_eq!(w.account.balance.decrypt(), 0);
}

#[test]
fn deposit_grows_all_totals_in_lockstep() {
    let mut w = setup(1_000, 0);
    let allow: Vec<u64> = vec![900, USER];
    let r = deposit_and_mint(
        &mut w.engine,
        &mut w.mint,
        &mut w.vault,
        &mut w.account,
        USER,
        &mut w.user_token,
        &mut w.vault_token,
        500,
        &allow,
    );
    assert!(r.is_ok());
    assert_eq!(w.account.balance.decrypt(), 500);
    assert_eq!(w.mint.total_supply.decrypt(), 500);
    assert_eq!(w.vault.total_locked.decrypt(), 500);
    assert_eq!(w.user_token.amount, 500);
    assert_eq!(w.vault_token.amount, 500);
    // The owner's decryption capability was re-granted.
    assert_eq!(w.account.balance.reader_value(), Some(USER));
}

#[test]
fn deposit_then_withdraw_keeps_supply_equal_to_locked() {
    let mut w = setup(1_000, 0);
    let allow: Vec<u64> = Vec::new();
    deposit_and_mint(
        &mut w.engine,
        &mut w.mint,
        &mut w.vault,
        &mut w.account,
        USER,
        &mut w.user_token,
        &mut w.vault_token,
        500,
        &allow,
    )
    .unwrap();
    assert_eq!(w.mint.total_supply.decrypt(), w.vault.total_locked.decrypt());
    burn_and_withdraw(
        &mut w.engine,
        &mut w.mint,
        &mut w.vault,
        &mut w.account,
        USER,
        &mut w.user_token,
        &mut w.vault_token,
        200,
        &allow,
    )
    .unwrap();
    assert_eq!(w.account.balance.decrypt(), 300);
    assert_eq!(w.mint.total_supply.decrypt(), 300);
    assert_eq!(w.vault.total_locked.decrypt(), 300);
    assert_eq!(w.mint.total_supply.decrypt(), w.vault.total_locked.decrypt());
    assert_eq!(w.user_token.amount, 700);
    assert_eq!(w.vault_token.amount, 300);
}

#[test]
fn oblivious_withdraw_of_uncovered_amount_leaves_totals_unchanged() {
    // The vault's custody account holds spare backing funds: the custody leg
    // pays the full requested amount whatever the oblivious selection did.
    let mut w = setup(1_000, 500);
    let allow: Vec<u64> = Vec::new();
    deposit_and_mint(
        &mut w.engine,
        &mut w.mint,
        &mut w.vault,
        &mut w.account,
        USER,
        &mut w.user_token,
        &mut w.vault_token,
        100,
        &allow,
    )
    .unwrap();
    // Request more than the balance covers: the operation succeeds, and the
    // encrypted totals are unchanged — no error reveals the comparison.
    let r = burn_and_withdraw(
        &mut w.engine,
        &mut w.mint,
        &mut w.vault,
        &mut w.account,
        USER,
        &mut w.user_token,
        &mut w.vault_token,
        60,
        &allow,
    );
    assert!(r.is_ok());
    assert_eq!(w.account.balance.decrypt(), 40);
    let vault_custody_before = w.vault_token.amount;
    let r = burn_and_withdraw(
        &mut w.engine,
        &mut w.mint,
        &mut w.vault,
        &mut w.account,
        USER,
        &mut w.user_token,
        &mut w.vault_token,
        50,
        &allow,
    );
    assert!(r.is_ok());
    assert_eq!(w.account.balance.decrypt(), 40);
    assert_eq!(w.mint.total_supply.decrypt(), 40);
    assert_eq!(w.vault.total_locked.decrypt(), 40);
    // The custody leg still paid the full requested amount: only the
    // encrypted state is guarded by the oblivious selection.
    assert_eq!(w.vault_token.amount, vault_custody_before - 50);
}

#[test]
fn transfer_conserves_the_sum_of_both_balances() {
    let mut w = setup(1_000, 0);
    let allow: Vec<u64> = Vec::new();
    deposit_and_mint(
        &mut w.engine,
        &mut w.mint,
        &mut w.vault,
        &mut w.account,
        USER,
        &mut w.user_token,
        &mut w.vault_token,
        500,
        &allow,
    )
    .unwrap();
    let other = 13;
    let mut to_account = initialize_cvct_account(&mut w.engine, 106, other, &w.mint);
    let before = w.account.balance.decrypt() + to_account.balance.decrypt();
    // 300 seals to two little-endian bytes, exercising the sealed format.
    let r = transfer_cvct(
        &mut w.engine,
        &w.mint,
        &mut w.account,
        &mut to_account,
        USER,
        &sealed(300),
        0,
        &allow,
    );
    assert!(r.is_ok());
    assert_eq!(w.account.balance.decrypt(), 200);
    assert_eq!(to_account.balance.decrypt(), 300);
    assert_eq!(w.account.balance.decrypt() + to_account.balance.decrypt(), before);
    // Supply and vault are untouched by a transfer.
    assert_eq!(w.mint.total_supply.decrypt(), 500);
    assert_eq!(w.vault.total_locked.decrypt(), 500);
}

#[test]
fn uncovered_transfer_moves_nothing() {
    let mut w = setup(1_000, 0);
    let allow: Vec<u64> = Vec::new();
    deposit_and_mint(
        &mut w.engine,
        &mut w.mint,
        &mut w.vault,
        &mut w.account,
        USER,
        &mut w.user_token,
        &mut w.vault_token,
        100,
        &allow,
    )
    .unwrap();
    let mut to_account = initialize_cvct_account(&mut w.engine, 106, 13, &w.mint);
    let r = transfer_cvct(
        &mut w.engine,
        &w.mint,
        &mut w.account,
        &mut to_account,
        USER,
        &sealed(101),
        0,
        &allow,
    );
    assert!(r.is_ok());
    assert_eq!(w.account.balance.decrypt(), 100);
    assert_eq!(to_account.balance.decrypt(), 0);
}

#[test]
fn self_transfer_is_a_no_op_with_zero_encrypted_calls() {
    let mut w = setup(1_000, 0);
    let allow: Vec<u64> = Vec::new();
    deposit_and_mint(
        &mut w.engine,
        &mut w.mint,
        &mut w.vault,
        &mut w.account,
        USER,
        &mut w.user_token,
        &mut w.vault_token,
        250,
        &allow,
    )
    .unwrap();
    let calls_before = w.engine.calls;
    // Two working copies of the same stored account.
    let mut same_account = w.account;
    // The sealed amount need not even be well-formed: it is never read.
    let junk: Vec<u8> = Vec::new();
    let r = transfer_cvct(
        &mut w.engine,
        &w.mint,
        &mut w.account,
        &mut same_account,
        USER,
        &junk,
        0,
        &allow,
    );
    assert!(r.is_ok());
    assert_eq!(w.account.balance.decrypt(), 250);
    assert_eq!(same_account.balance.decrypt(), 250);
    assert_eq!(w.engine.calls, calls_before);
}

#[test]
fn transfer_grants_capabilities_to_both_owners() {
    let mut w = setup(1_000, 0);
    let allow: Vec<u64> = Vec::new();
    deposit_and_mint(
        &mut w.engine,
        &mut w.mint,
        &mut w.vault,
        &mut w.account,
        USER,
        &mut w.user_token,
        &mut w.vault_token,
        500,
        &allow,
    )
    .unwrap();
    let other = 13;
    let mut to_account = initialize_cvct_account(&mut w.engine, 106, other, &w.mint);
    let grants: Vec<u64> = vec![900, USER, 901, other];
    transfer_cvct(
        &mut w.engine,
        &w.mint,
        &mut w.account,
        &mut to_account,
        USER,
        &sealed(10),
        0,
        &grants,
    )
    .unwrap();
    assert_eq!(w.account.balance.reader_value(), Some(USER));
    assert_eq!(to_account.balance.reader_value(), Some(other));
}

#[test]
fn deposit_rejects_wrong_owner_and_wrong_linkage() {
    let mut w = setup(1_000, 0);
    let allow: Vec<u64> = Vec::new();
    let r = deposit_and_mint(
        &mut w.engine,
        &mut w.mint,
        &mut w.vault,
        &mut w.account,
        99,  // not the account's owner
        &mut w.user_token,
        &mut w.vault_token,
        10,
        &allow,
    );
    assert_eq!(r, Err(TxError::Program(CvctError::Unauthorized)));

    let mut foreign_vault = w.vault;
    foreign_vault.cvct_mint = 999;
    let r = deposit_and_mint(
        &mut w.engine,
        &mut w.mint,
        &mut foreign_vault,
        &mut w.account,
        USER,
        &mut w.user_token,
        &mut w.vault_token,
        10,
        &allow,
    );
    assert_eq!(r, Err(TxError::Program(CvctError::InvalidVault)));
    assert_eq!(w.account.balance.decrypt(), 0);
    assert_eq!(w.user_token.amount, 1_000);
}

#[test]
fn deposit_fails_when_custody_cannot_move() {
    let mut w = setup(50, 0);
    let allow: Vec<u64> = Vec::new();
    let r = deposit_and_mint(
        &mut w.engine,
        &mut w.mint,
        &mut w.vault,
        &mut w.account,
        USER,
        &mut w.user_token,
        &mut w.vault_token,
        60,
        &allow,
    );
    assert_eq!(r, Err(TxError::Custody(TokenError::InsufficientBalance)));
    assert_eq!(w.account.balance.decrypt(), 0);
    assert_eq!(w.mint.total_supply.decrypt(), 0);
    assert_eq!(w.user_token.amount, 50);

    let mut w = setup(50, u64::MAX - 10);
    let r = deposit_and_mint(
        &mut w.engine,
        &mut w.mint,
        &mut w.vault,
        &mut w.account,
        USER,
        &mut w.user_token,
        &mut w.vault_token,
        20,
        &allow,
    );
    assert_eq!(r, Err(TxError::Custody(TokenError::BalanceOverflow)));
}

#[test]
fn withdraw_fails_when_vault_custody_cannot_pay() {
    let mut w = setup(1_000, 0);
    let allow: Vec<u64> = Vec::new();
    deposit_and_mint(
        &mut w.engine,
        &mut w.mint,
        &mut w.vault,
        &mut w.account,
        USER,
        &mut w.user_token,
        &mut w.vault_token,
        100,
        &allow,
    )
    .unwrap();
    // Drain the vault's custody account behind the ledger's back.
    w.vault_token.amount = 10;
    let r = burn_and_withdraw(
        &mut w.engine,
        &mut w.mint,
        &mut w.vault,
        &mut w.account,
        USER,
        &mut w.user_token,
        &mut w.vault_token,
        50,
        &allow,
    );
    assert_eq!(r, Err(TxError::Custody(TokenError::InsufficientBalance)));
    assert_eq!(w.account.balance.decrypt(), 100);
}

#[test]
fn allowance_helper_rejects_short_account_list() {
    let mut engine = EncEngine::new(7);
    let mut handle = engine.as_euint128(42);
    let one_entry: Vec<u64> = vec![900];
    let r = call_allow_from_remaining(&mut engine, &one_entry, &mut handle, USER, 0);
    assert_eq!(r, Err(CvctError::InvalidAllowanceAccounts));
    let four: Vec<u64> = vec![900, 901, 902];
    let r = call_allow_from_remaining(&mut engine, &four, &mut handle, USER, 2);
    assert_eq!(r, Err(CvctError::InvalidAllowanceAccounts));
    assert_eq!(handle.reader_value(), None);
    let r = call_allow_from_remaining(&mut engine, &four, &mut handle, USER, 1);
    assert_eq!(r, Ok(()));
    assert_eq!(handle.reader_value(), Some(USER));
}

#[test]
fn transfer_rejects_wrong_sender_and_foreign_accounts() {
    let mut w = setup(1_000, 0);
    let allow: Vec<u64> = Vec::new();
    let mut to_account = initialize_cvct_account(&mut w.engine, 106, 13, &w.mint);
    let r = transfer_cvct(
        &mut w.engine,
        &w.mint,
        &mut w.account,
        &mut to_account,
        99,  // not the source account's owner
        &sealed(10),
        0,
        &allow,
    );
    assert_eq!(r, Err(CvctError::Unauthorized));
    let mut foreign = to_account;
    foreign.cvct_mint = 999;
    let r = transfer_cvct(
        &mut w.engine,
        &w.mint,
        &mut w.account,
        &mut foreign,
        USER,
        &sealed(10),
        0,
        &allow,
    );
    assert_eq!(r, Err(CvctError::InvalidVault));
    assert_eq!(w.account.balance.decrypt(), 0);
}

#[test]
fn engine_nonces_are_never_reused() {
    let mut engine = EncEngine::new(7);
    let a = engine.as_euint128(1);
    let b = engine.as_euint128(1);
    let c = engine.e_add(&a, &b);
    assert_ne!(a.nonce_value(), b.nonce_value());
    assert_ne!(b.nonce_value(), c.nonce_value());
    assert_ne!(a.nonce_value(), c.nonce_value());
    assert_eq!(a.key_value(), 7);
    assert_eq!(c.decrypt(), 2);
}
