//! The asynchronous queued-computation ledger: mint, vault and account
//! records whose encrypted fields are written only by committed job
//! callbacks. An instruction initializes or reads records, builds the
//! argument list for its circuit and queues the job; the matching callback
//! later verifies the cluster's signed payload and commits the returned
//! ciphertexts by a blind overwrite of the registered target fields.
//!
//! Because the commit is a blind overwrite and not a compare-and-swap, two
//! jobs queued against the same record are not ordered by this layer: the
//! later-committing callback's result is the one observed, and the earlier
//! result is lost. Callers must serialize updates to a given balance.

use vstd::prelude::*;
use crate::circuits::deposit_relation;
use crate::custody::{self, TokenAccount};
use crate::encrypted::EncScalar;
use crate::errors::{ErrorCode, TokenError, TxError};
use crate::queue::{Argument, ArgBuilder, CallbackAccount, CircuitKind, Cluster,
    SignedComputationOutputs};

verus! {

/// Ciphertexts one encrypted u128 occupies in a record.
pub const ENCRYPTED_U128_CIPHERTEXTS: u32 = 1;

/// Byte offset of the encrypted field inside each record's serialization:
/// the 8-byte discriminator and three 32-byte identity fields precede it.
/// This layout is a stable contract; by-reference arguments name it.
pub const CIPHERTEXT_FIELD_OFFSET: u32 = 8 + 32 + 32 + 32;

/// Byte length of one encrypted u128 field.
pub const CIPHERTEXT_FIELD_LEN: u32 = 32 * ENCRYPTED_U128_CIPHERTEXTS;

/// Metadata of a confidential mint; its encrypted total supply is a
/// placeholder until the first committed callback writes it.
#[derive(Clone, Copy, Debug)]
pub struct CvctMint {
    /// Address of this mint record.
    pub addr: u64,
    /// Authority that created the mint.
    pub authority: u64,
    /// The backing fungible asset.
    pub backing_mint: u64,
    /// Public key the mint's totals are encrypted under.
    pub authority_enc_pubkey: u64,
    /// Encrypted total supply.
    pub total_supply: EncScalar,
    /// Decimals, copied from the backing asset.
    pub decimals: u8,
}

/// The vault holding backing assets for one mint.
#[derive(Clone, Copy, Debug)]
pub struct Vault {
    /// Address of this vault record.
    pub addr: u64,
    /// The mint this vault backs.
    pub cvct_mint: u64,
    /// The backing fungible asset.
    pub backing_mint: u64,
    /// Custody account holding the backing assets.
    pub backing_token_account: u64,
    /// Encrypted total locked.
    pub total_locked: EncScalar,
}

/// A holder's confidential token account.
#[derive(Clone, Copy, Debug)]
pub struct CvctAccount {
    /// Address of this account record.
    pub addr: u64,
    /// Identity that owns the balance.
    pub owner: u64,
    /// The mint this account belongs to.
    pub cvct_mint: u64,
    /// Public key the balance is encrypted under.
    pub owner_enc_pubkey: u64,
    /// Encrypted balance.
    pub balance: EncScalar,
}

/// The linkage invariant: the mint's decrypted total supply equals the
/// vault's decrypted total locked.
pub open spec fn linked(mint: CvctMint, vault: Vault) -> bool {
    mint.total_supply.decrypted() == vault.total_locked.decrypted()
}

/// Register the circuit that initializes a mint's encrypted totals.
pub fn init_mint_state_comp_def(cluster: &mut Cluster) -> (r: Result<(), ErrorCode>)
    ensures
        old(cluster).comp_def_registered(CircuitKind::InitMintState) ==> r == Err::<(), ErrorCode>(
            ErrorCode::ClusterNotSet,
        ) && *final(cluster) == *old(cluster),
        !old(cluster).comp_def_registered(CircuitKind::InitMintState) ==> r is Ok && final(cluster).comp_defs@ == old(cluster).comp_defs@.push(CircuitKind::InitMintState),
        final(cluster).verification_key == old(cluster).verification_key,
        final(cluster).jobs@ == old(cluster).jobs@,
        old(cluster).wf() ==> final(cluster).wf(),
{
    cluster.register_comp_def(CircuitKind::InitMintState)
}

/// Register the circuit that initializes an account's encrypted balance.
pub fn init_account_state_comp_def(cluster: &mut Cluster) -> (r: Result<(), ErrorCode>)
    ensures
        old(cluster).comp_def_registered(CircuitKind::InitAccountState) ==> r == Err::<
            (),
            ErrorCode,
        >(ErrorCode::ClusterNotSet) && *final(cluster) == *old(cluster),
        !old(cluster).comp_def_registered(CircuitKind::InitAccountState) ==> r is Ok && final(cluster).comp_defs@ == old(cluster).comp_defs@.push(CircuitKind::InitAccountState),
        final(cluster).verification_key == old(cluster).verification_key,
        final(cluster).jobs@ == old(cluster).jobs@,
        old(cluster).wf() ==> final(cluster).wf(),
{
    cluster.register_comp_def(CircuitKind::InitAccountState)
}

/// Register the deposit circuit.
pub fn init_deposit_and_mint_comp_def(cluster: &mut Cluster) -> (r: Result<(), ErrorCode>)
    ensures
        old(cluster).comp_def_registered(CircuitKind::DepositAndMint) ==> r == Err::<
            (),
            ErrorCode,
        >(ErrorCode::ClusterNotSet) && *final(cluster) == *old(cluster),
        !old(cluster).comp_def_registered(CircuitKind::DepositAndMint) ==> r is Ok && final(cluster).comp_defs@ == old(cluster).comp_defs@.push(CircuitKind::DepositAndMint),
        final(cluster).verification_key == old(cluster).verification_key,
        final(cluster).jobs@ == old(cluster).jobs@,
        old(cluster).wf() ==> final(cluster).wf(),
{
    cluster.register_comp_def(CircuitKind::DepositAndMint)
}

/// The argument list the mint-initialization instruction queues: two output
/// contexts, both under the authority's key, each with its own nonce.
pub open spec fn init_mint_args(
    authority_enc_pubkey: u64,
    authority_nonce: u128,
    vault_nonce: u128,
) -> Seq<Argument> {
    seq![
        Argument::X25519Pubkey(authority_enc_pubkey),
        Argument::PlaintextU128(authority_nonce),
        Argument::X25519Pubkey(authority_enc_pubkey),
        Argument::PlaintextU128(vault_nonce),
    ]
}

/// Create a mint and its vault with placeholder encrypted fields, and queue
/// the computation that will write their real encrypted zero totals through
/// the registered callback.
pub fn initialize_cvct_mint(
    cluster: &mut Cluster,
    computation_offset: u64,
    authority_enc_pubkey: u64,
    authority_nonce: u128,
    vault_nonce: u128,
    authority: u64,
    mint_addr: u64,
    vault_addr: u64,
    backing_mint: u64,
    vault_token_account: u64,
    decimals: u8,
) -> (r: Result<(CvctMint, Vault), ErrorCode>)
    requires
        old(cluster).wf(),
        !old(cluster).has_job(computation_offset),
    ensures
        final(cluster).wf(),
        final(cluster).verification_key == old(cluster).verification_key,
        final(cluster).comp_defs@ == old(cluster).comp_defs@,
        !old(cluster).comp_def_registered(CircuitKind::InitMintState) ==> r == Err::<
            (CvctMint, Vault),
            ErrorCode,
        >(ErrorCode::ClusterNotSet) && *final(cluster) == *old(cluster),
        old(cluster).comp_def_registered(CircuitKind::InitMintState) ==> r is Ok && final(cluster).jobs@.len() == old(cluster).jobs@.len() + 1 && (forall|i: int|
            0 <= i < old(cluster).jobs@.len() ==> final(cluster).jobs@[i] == old(cluster).jobs@[i])
            && final(cluster).jobs@.last().id == computation_offset && final(cluster).jobs@.last().kind == CircuitKind::InitMintState && final(cluster).jobs@.last().args@
            == init_mint_args(authority_enc_pubkey, authority_nonce, vault_nonce) && final(cluster).jobs@.last().callbacks@ == seq![
            CallbackAccount { pubkey: mint_addr, is_writable: true },
            CallbackAccount { pubkey: vault_addr, is_writable: true },
        ] && final(cluster).jobs@.last().status == crate::queue::JobStatus::Queued,
        r matches Ok(mv) ==> mv.0 == (CvctMint {
            addr: mint_addr,
            authority,
            backing_mint,
            authority_enc_pubkey,
            total_supply: mv.0.total_supply,
            decimals,
        }) && mv.0.total_supply.decrypted() == 0 && mv.1 == (Vault {
            addr: vault_addr,
            cvct_mint: mint_addr,
            backing_mint,
            backing_token_account: vault_token_account,
            total_locked: mv.1.total_locked,
        }) && mv.1.total_locked.decrypted() == 0,
{
    // Public metadata is set immediately; the encrypted fields hold
    // placeholders until the callback commits real ciphertexts.
    let mint = CvctMint {
        addr: mint_addr,
        authority,
        backing_mint,
        authority_enc_pubkey,
        total_supply: EncScalar::zeroed(),
        decimals,
    };
    let vault = Vault {
        addr: vault_addr,
        cvct_mint: mint_addr,
        backing_mint,
        backing_token_account: vault_token_account,
        total_locked: EncScalar::zeroed(),
    };

    // Two output contexts, both under the authority's key, each with its own
    // caller-chosen nonce.
    let args = ArgBuilder::new()
        .x25519_pubkey(authority_enc_pubkey)
        .plaintext_u128(authority_nonce)
        .x25519_pubkey(authority_enc_pubkey)
        .plaintext_u128(vault_nonce)
        .build();
    proof {
        assert(args@ =~= init_mint_args(authority_enc_pubkey, authority_nonce, vault_nonce));
    }

    let callbacks = vec![
        CallbackAccount { pubkey: mint_addr, is_writable: true },
        CallbackAccount { pubkey: vault_addr, is_writable: true },
    ];
    proof {
        assert(callbacks@ =~= seq![
            CallbackAccount { pubkey: mint_addr, is_writable: true },
            CallbackAccount { pubkey: vault_addr, is_writable: true },
        ]);
    }

    match cluster.queue_computation(
        computation_offset,
        CircuitKind::InitMintState,
        args,
        callbacks,
    ) {
        Ok(()) => Ok((mint, vault)),
        Err(e) => Err(e),
    }
}

/// Commit the mint-initialization outputs: after the atomic
/// verify-signature / check-replay / resolve step accepts the payload, the
/// two returned ciphertexts overwrite the mint's total supply and the
/// vault's total locked. On any verification failure nothing is written.
pub fn init_mint_state_callback(
    cluster: &mut Cluster,
    mint: &mut CvctMint,
    vault: &mut Vault,
    output: &SignedComputationOutputs,
) -> (r: Result<(), ErrorCode>)
    requires
        old(cluster).wf(),
    ensures
        final(cluster).wf(),
        old(cluster).resolution(
            *final(cluster),
            *output,
            CircuitKind::InitMintState,
            2,
            seq![old(mint).addr, old(vault).addr],
        ),
        r is Ok <==> old(cluster).callback_accepted(
            *output,
            CircuitKind::InitMintState,
            2,
            seq![old(mint).addr, old(vault).addr],
        ),
        r is Err ==> r == Err::<(), ErrorCode>(ErrorCode::AbortedComputation) && *final(mint)
            == *old(mint) && *final(vault) == *old(vault),
        r is Ok ==> final(mint).total_supply == output.outputs@[0] && final(vault).total_locked
            == output.outputs@[1],
        final(mint).addr == old(mint).addr && final(mint).authority == old(mint).authority
            && final(mint).backing_mint == old(mint).backing_mint && final(mint).authority_enc_pubkey == old(mint).authority_enc_pubkey && final(mint).decimals == old(mint).decimals,
        final(vault).addr == old(vault).addr && final(vault).cvct_mint == old(vault).cvct_mint
            && final(vault).backing_mint == old(vault).backing_mint && final(vault).backing_token_account == old(vault).backing_token_account,
{
    let targets = vec![mint.addr, vault.addr];
    proof {
        assert(targets@ =~= seq![old(mint).addr, old(vault).addr]);
    }
    match cluster.resolve_callback(output, CircuitKind::InitMintState, 2, &targets) {
        Ok(()) => (),
        Err(e) => {
            return Err(e);
        },
    }
    mint.total_supply = output.outputs[0];
    vault.total_locked = output.outputs[1];
    Ok(())
}

/// The argument list the account-initialization instruction queues: one
/// output context under the owner's key.
pub open spec fn init_account_args(owner_enc_pubkey: u64, owner_nonce: u128) -> Seq<Argument> {
    seq![Argument::X25519Pubkey(owner_enc_pubkey), Argument::PlaintextU128(owner_nonce)]
}

/// Create a holder's account with a placeholder encrypted balance, and queue
/// the computation that will write its real encrypted zero through the
/// registered callback.
pub fn initialize_cvct_account(
    cluster: &mut Cluster,
    computation_offset: u64,
    owner_enc_pubkey: u64,
    owner_nonce: u128,
    owner: u64,
    account_addr: u64,
    mint: &CvctMint,
) -> (r: Result<CvctAccount, ErrorCode>)
    requires
        old(cluster).wf(),
        !old(cluster).has_job(computation_offset),
    ensures
        final(cluster).wf(),
        final(cluster).verification_key == old(cluster).verification_key,
        final(cluster).comp_defs@ == old(cluster).comp_defs@,
        !old(cluster).comp_def_registered(CircuitKind::InitAccountState) ==> r == Err::<
            CvctAccount,
            ErrorCode,
        >(ErrorCode::ClusterNotSet) && *final(cluster) == *old(cluster),
        old(cluster).comp_def_registered(CircuitKind::InitAccountState) ==> r is Ok && final(cluster).jobs@.len() == old(cluster).jobs@.len() + 1 && (forall|i: int|
            0 <= i < old(cluster).jobs@.len() ==> final(cluster).jobs@[i] == old(cluster).jobs@[i])
            && final(cluster).jobs@.last().id == computation_offset && final(cluster).jobs@.last().kind == CircuitKind::InitAccountState && final(cluster).jobs@.last().args@
            == init_account_args(owner_enc_pubkey, owner_nonce) && final(cluster).jobs@.last().callbacks@ == seq![
            CallbackAccount { pubkey: account_addr, is_writable: true },
        ] && final(cluster).jobs@.last().status == crate::queue::JobStatus::Queued,
        r matches Ok(a) ==> a == (CvctAccount {
            addr: account_addr,
            owner,
            cvct_mint: mint.addr,
            owner_enc_pubkey,
            balance: a.balance,
        }) && a.balance.decrypted() == 0,
{
    let account = CvctAccount {
        addr: account_addr,
        owner,
        cvct_mint: mint.addr,
        owner_enc_pubkey,
        balance: EncScalar::zeroed(),
    };

    let args = ArgBuilder::new().x25519_pubkey(owner_enc_pubkey).plaintext_u128(owner_nonce).build();
    proof {
        assert(args@ =~= init_account_args(owner_enc_pubkey, owner_nonce));
    }

    let callbacks = vec![CallbackAccount { pubkey: account_addr, is_writable: true }];
    proof {
        assert(callbacks@ =~= seq![CallbackAccount { pubkey: account_addr, is_writable: true }]);
    }

    match cluster.queue_computation(
        computation_offset,
        CircuitKind::InitAccountState,
        args,
        callbacks,
    ) {
        Ok(()) => Ok(account),
        Err(e) => Err(e),
    }
}

/// Commit the account-initialization output: the one returned ciphertext
/// overwrites the account's balance. On any verification failure nothing is
/// written.
pub fn init_account_state_callback(
    cluster: &mut Cluster,
    account: &mut CvctAccount,
    output: &SignedComputationOutputs,
) -> (r: Result<(), ErrorCode>)
    requires
        old(cluster).wf(),
    ensures
        final(cluster).wf(),
        old(cluster).resolution(
            *final(cluster),
            *output,
            CircuitKind::InitAccountState,
            1,
            seq![old(account).addr],
        ),
        r is Ok <==> old(cluster).callback_accepted(
            *output,
            CircuitKind::InitAccountState,
            1,
            seq![old(account).addr],
        ),
        r is Err ==> r == Err::<(), ErrorCode>(ErrorCode::AbortedComputation) && *final(account)
            == *old(account),
        r is Ok ==> final(account).balance == output.outputs@[0],
        final(account).addr == old(account).addr && final(account).owner == old(account).owner
            && final(account).cvct_mint == old(account).cvct_mint && final(account).owner_enc_pubkey == old(account).owner_enc_pubkey,
{
    let targets = vec![account.addr];
    proof {
        assert(targets@ =~= seq![old(account).addr]);
    }
    match cluster.resolve_callback(output, CircuitKind::InitAccountState, 1, &targets) {
        Ok(()) => (),
        Err(e) => {
            return Err(e);
        },
    }
    account.balance = output.outputs[0];
    Ok(())
}

/// The argument list the deposit instruction queues, in the deposit
/// circuit's positional order: the balance input (context plus by-reference
/// ciphertext), the plaintext amount, the balance output context, then the
/// same input/output pattern for the mint's total supply and the vault's
/// total locked.
pub open spec fn deposit_args(
    account_addr: u64,
    mint_addr: u64,
    vault_addr: u64,
    amount: u64,
    owner_enc_pubkey: u64,
    owner_balance_nonce: u128,
    owner_new_balance_nonce: u128,
    mint_enc_pubkey: u64,
    mint_total_supply_nonce: u128,
    mint_new_total_supply_nonce: u128,
    vault_enc_pubkey: u64,
    vault_total_locked_nonce: u128,
    vault_new_total_locked_nonce: u128,
) -> Seq<Argument> {
    seq![
        Argument::X25519Pubkey(owner_enc_pubkey),
        Argument::PlaintextU128(owner_balance_nonce),
        Argument::AccountRef {
            addr: account_addr,
            offset: CIPHERTEXT_FIELD_OFFSET,
            len: CIPHERTEXT_FIELD_LEN,
        },
        Argument::PlaintextU128(amount as u128),
        Argument::X25519Pubkey(owner_enc_pubkey),
        Argument::PlaintextU128(owner_new_balance_nonce),
        Argument::X25519Pubkey(mint_enc_pubkey),
        Argument::PlaintextU128(mint_total_supply_nonce),
        Argument::AccountRef {
            addr: mint_addr,
            offset: CIPHERTEXT_FIELD_OFFSET,
            len: CIPHERTEXT_FIELD_LEN,
        },
        Argument::X25519Pubkey(mint_enc_pubkey),
        Argument::PlaintextU128(mint_new_total_supply_nonce),
        Argument::X25519Pubkey(vault_enc_pubkey),
        Argument::PlaintextU128(vault_total_locked_nonce),
        Argument::AccountRef {
            addr: vault_addr,
            offset: CIPHERTEXT_FIELD_OFFSET,
            len: CIPHERTEXT_FIELD_LEN,
        },
        Argument::X25519Pubkey(vault_enc_pubkey),
        Argument::PlaintextU128(vault_new_total_locked_nonce),
    ]
}

/// The first check a queued deposit fails, if any: the registered circuit,
/// record linkage and ownership in the order the host validates them, the
/// amount, then the custody leg's feasibility.
pub open spec fn deposit_queue_checks(
    cluster: Cluster,
    mint: CvctMint,
    vault: Vault,
    account: CvctAccount,
    user: u64,
    user_token: TokenAccount,
    vault_token: TokenAccount,
    amount: u64,
) -> Option<TxError<ErrorCode>> {
    if !cluster.comp_def_registered(CircuitKind::DepositAndMint) {
        Some(TxError::Program(ErrorCode::ClusterNotSet))
    } else if mint.authority != user {
        Some(TxError::Program(ErrorCode::Unauthorized))
    } else if vault.cvct_mint != mint.addr {
        Some(TxError::Program(ErrorCode::InvalidVault))
    } else if account.cvct_mint != mint.addr {
        Some(TxError::Program(ErrorCode::InvalidVault))
    } else if account.owner != user {
        Some(TxError::Program(ErrorCode::Unauthorized))
    } else if user_token.mint != mint.backing_mint {
        Some(TxError::Program(ErrorCode::InvalidVault))
    } else if user_token.owner != user {
        Some(TxError::Program(ErrorCode::Unauthorized))
    } else if vault_token.addr != vault.backing_token_account {
        Some(TxError::Program(ErrorCode::InvalidVault))
    } else if amount == 0 {
        Some(TxError::Program(ErrorCode::ZeroAmount))
    } else if user_token.amount < amount {
        Some(TxError::Custody(TokenError::InsufficientBalance))
    } else if vault_token.amount + amount > u64::MAX {
        Some(TxError::Custody(TokenError::BalanceOverflow))
    } else {
        None
    }
}

/// Deposit backing assets and queue the computation that will mint the same
/// confidential amount.
///
/// The custody transfer into the vault strictly precedes the queueing; if it
/// cannot succeed, no job is queued and nothing moves. The queued job carries
/// the circuit's full positional argument list — current ciphertexts by
/// record reference, the plaintext amount, and a fresh caller-chosen output
/// context per result — and registers the account, mint and vault as its
/// writable callback targets. The encrypted fields themselves change only
/// when the callback commits.
pub fn deposit_and_mint(
    cluster: &mut Cluster,
    computation_offset: u64,
    amount: u64,
    owner_enc_pubkey: u64,
    owner_balance_nonce: u128,
    owner_new_balance_nonce: u128,
    mint_enc_pubkey: u64,
    mint_total_supply_nonce: u128,
    mint_new_total_supply_nonce: u128,
    vault_enc_pubkey: u64,
    vault_total_locked_nonce: u128,
    vault_new_total_locked_nonce: u128,
    mint: &CvctMint,
    vault: &Vault,
    account: &CvctAccount,
    user: u64,
    user_token: &mut TokenAccount,
    vault_token: &mut TokenAccount,
) -> (r: Result<(), TxError<ErrorCode>>)
    requires
        old(cluster).wf(),
        !old(cluster).has_job(computation_offset),
    ensures
        final(cluster).wf(),
        final(cluster).verification_key == old(cluster).verification_key,
        final(cluster).comp_defs@ == old(cluster).comp_defs@,
        deposit_queue_checks(
            *old(cluster),
            *mint,
            *vault,
            *account,
            user,
            *old(user_token),
            *old(vault_token),
            amount,
        ) matches Some(e) ==> r == Err::<(), TxError<ErrorCode>>(e),
        deposit_queue_checks(
            *old(cluster),
            *mint,
            *vault,
            *account,
            user,
            *old(user_token),
            *old(vault_token),
            amount,
        ) is None ==> r is Ok,
        r is Err ==> *final(cluster) == *old(cluster) && *final(user_token) == *old(user_token)
            && *final(vault_token) == *old(vault_token),
        r is Ok ==> final(user_token).amount == old(user_token).amount - amount
            && final(vault_token).amount == old(vault_token).amount + amount,
        r is Ok ==> final(cluster).jobs@.len() == old(cluster).jobs@.len() + 1 && (forall|i: int|
            0 <= i < old(cluster).jobs@.len() ==> final(cluster).jobs@[i] == old(cluster).jobs@[i])
            && final(cluster).jobs@.last().id == computation_offset
            && final(cluster).jobs@.last().kind == CircuitKind::DepositAndMint
            && final(cluster).jobs@.last().args@ == deposit_args(
            account.addr,
            mint.addr,
            vault.addr,
            amount,
            owner_enc_pubkey,
            owner_balance_nonce,
            owner_new_balance_nonce,
            mint_enc_pubkey,
            mint_total_supply_nonce,
            mint_new_total_supply_nonce,
            vault_enc_pubkey,
            vault_total_locked_nonce,
            vault_new_total_locked_nonce,
        ) && final(cluster).jobs@.last().callbacks@ == seq![
            CallbackAccount { pubkey: account.addr, is_writable: true },
            CallbackAccount { pubkey: mint.addr, is_writable: true },
            CallbackAccount { pubkey: vault.addr, is_writable: true },
        ] && final(cluster).jobs@.last().status == crate::queue::JobStatus::Queued,
        final(user_token).addr == old(user_token).addr
            && final(user_token).mint == old(user_token).mint
            && final(user_token).owner == old(user_token).owner,
        final(vault_token).addr == old(vault_token).addr
            && final(vault_token).mint == old(vault_token).mint
            && final(vault_token).owner == old(vault_token).owner,
{
    if !cluster.is_comp_def_registered(CircuitKind::DepositAndMint) {
        return Err(TxError::Program(ErrorCode::ClusterNotSet));
    }
    if mint.authority != user {
        return Err(TxError::Program(ErrorCode::Unauthorized));
    }
    if vault.cvct_mint != mint.addr {
        return Err(TxError::Program(ErrorCode::InvalidVault));
    }
    if account.cvct_mint != mint.addr {
        return Err(TxError::Program(ErrorCode::InvalidVault));
    }
    if account.owner != user {
        return Err(TxError::Program(ErrorCode::Unauthorized));
    }
    if user_token.mint != mint.backing_mint {
        return Err(TxError::Program(ErrorCode::InvalidVault));
    }
    if user_token.owner != user {
        return Err(TxError::Program(ErrorCode::Unauthorized));
    }
    if vault_token.addr != vault.backing_token_account {
        return Err(TxError::Program(ErrorCode::InvalidVault));
    }
    if amount == 0 {
        return Err(TxError::Program(ErrorCode::ZeroAmount));
    }

    // 1. Custody leg: move backing assets from the user into the vault.
    match custody::transfer(user_token, vault_token, amount) {
        Ok(()) => (),
        Err(e) => {
            return Err(TxError::Custody(e));
        },
    }

    // 2. Build the circuit's positional argument list: each encrypted input
    // as its context plus a by-reference ciphertext at the stable field
    // offset, the plaintext amount, and a fresh output context per result.
    let args = ArgBuilder::new()
        .x25519_pubkey(owner_enc_pubkey)
        .plaintext_u128(owner_balance_nonce)
        .account(account.addr, CIPHERTEXT_FIELD_OFFSET, CIPHERTEXT_FIELD_LEN)
        .plaintext_u128(amount as u128)
        .x25519_pubkey(owner_enc_pubkey)
        .plaintext_u128(owner_new_balance_nonce)
        .x25519_pubkey(mint_enc_pubkey)
        .plaintext_u128(mint_total_supply_nonce)
        .account(mint.addr, CIPHERTEXT_FIELD_OFFSET, CIPHERTEXT_FIELD_LEN)
        .x25519_pubkey(mint_enc_pubkey)
        .plaintext_u128(mint_new_total_supply_nonce)
        .x25519_pubkey(vault_enc_pubkey)
        .plaintext_u128(vault_total_locked_nonce)
        .account(vault.addr, CIPHERTEXT_FIELD_OFFSET, CIPHERTEXT_FIELD_LEN)
        .x25519_pubkey(vault_enc_pubkey)
        .plaintext_u128(vault_new_total_locked_nonce)
        .build();
    proof {
        assert(args@ =~= deposit_args(
            account.addr,
            mint.addr,
            vault.addr,
            amount,
            owner_enc_pubkey,
            owner_balance_nonce,
            owner_new_balance_nonce,
            mint_enc_pubkey,
            mint_total_supply_nonce,
            mint_new_total_supply_nonce,
            vault_enc_pubkey,
            vault_total_locked_nonce,
            vault_new_total_locked_nonce,
        ));
    }

    // 3. Queue the job, registering the three writable callback targets.
    let callbacks = vec![
        CallbackAccount { pubkey: account.addr, is_writable: true },
        CallbackAccount { pubkey: mint.addr, is_writable: true },
        CallbackAccount { pubkey: vault.addr, is_writable: true },
    ];
    proof {
        assert(callbacks@ =~= seq![
            CallbackAccount { pubkey: account.addr, is_writable: true },
            CallbackAccount { pubkey: mint.addr, is_writable: true },
            CallbackAccount { pubkey: vault.addr, is_writable: true },
        ]);
    }
    match cluster.queue_computation(
        computation_offset,
        CircuitKind::DepositAndMint,
        args,
        callbacks,
    ) {
        Ok(()) => Ok(()),
        Err(_) => {
            // The circuit's registration was checked first, so queueing
            // cannot fail here.
            proof {
                assert(false);
            }
            Ok(())
        },
    }
}

/// Commit the deposit outputs: after the atomic verify-signature /
/// check-replay / resolve step accepts the payload, the three returned
/// ciphertexts overwrite the account's balance, the mint's total supply and
/// the vault's total locked. On any verification failure — a replayed
/// payload of an already resolved job included — nothing is written.
///
/// The overwrite is blind: whatever job the payload resolves, its outputs
/// replace the current field values, so of two jobs queued against the same
/// record the later-committing callback's result is the one observed.
pub fn deposit_and_mint_callback(
    cluster: &mut Cluster,
    account: &mut CvctAccount,
    mint: &mut CvctMint,
    vault: &mut Vault,
    output: &SignedComputationOutputs,
) -> (r: Result<(), ErrorCode>)
    requires
        old(cluster).wf(),
    ensures
        final(cluster).wf(),
        old(cluster).resolution(
            *final(cluster),
            *output,
            CircuitKind::DepositAndMint,
            3,
            seq![old(account).addr, old(mint).addr, old(vault).addr],
        ),
        r is Ok <==> old(cluster).callback_accepted(
            *output,
            CircuitKind::DepositAndMint,
            3,
            seq![old(account).addr, old(mint).addr, old(vault).addr],
        ),
        r is Err ==> r == Err::<(), ErrorCode>(ErrorCode::AbortedComputation) && *final(account)
            == *old(account) && *final(mint) == *old(mint) && *final(vault) == *old(vault),
        r is Ok ==> final(account).balance == output.outputs@[0] && final(mint).total_supply
            == output.outputs@[1] && final(vault).total_locked == output.outputs@[2],
        final(account).addr == old(account).addr && final(account).owner == old(account).owner
            && final(account).cvct_mint == old(account).cvct_mint
            && final(account).owner_enc_pubkey == old(account).owner_enc_pubkey,
        final(mint).addr == old(mint).addr && final(mint).authority == old(mint).authority
            && final(mint).backing_mint == old(mint).backing_mint
            && final(mint).authority_enc_pubkey == old(mint).authority_enc_pubkey
            && final(mint).decimals == old(mint).decimals,
        final(vault).addr == old(vault).addr && final(vault).cvct_mint == old(vault).cvct_mint
            && final(vault).backing_mint == old(vault).backing_mint
            && final(vault).backing_token_account == old(vault).backing_token_account,
{
    let targets = vec![account.addr, mint.addr, vault.addr];
    proof {
        assert(targets@ =~= seq![old(account).addr, old(mint).addr, old(vault).addr]);
    }
    match cluster.resolve_callback(output, CircuitKind::DepositAndMint, 3, &targets) {
        Ok(()) => (),
        Err(e) => {
            return Err(e);
        },
    }
    account.balance = output.outputs[0];
    mint.total_supply = output.outputs[1];
    vault.total_locked = output.outputs[2];
    Ok(())
}

/// An initialization commit establishes the linkage invariant: both
/// committed totals decrypt to zero, so supply equals locked.
pub proof fn init_commit_establishes_linkage(
    outs: Seq<EncScalar>,
    post_mint: CvctMint,
    post_vault: Vault,
)
    requires
        outs.len() == 2,
        outs[0].decrypted() == 0,
        outs[1].decrypted() == 0,
        post_mint.total_supply == outs[0],
        post_vault.total_locked == outs[1],
    ensures
        linked(post_mint, post_vault),
{
}

/// A deposit commit preserves the linkage invariant: when the committed
/// outputs stand in the deposit circuit's relation to the records they
/// overwrite — as every output of an honest cluster does — supply and locked
/// total grow by the same amount, so their equality carries over.
pub proof fn deposit_commit_preserves_linkage(
    pre_mint: CvctMint,
    pre_vault: Vault,
    pre_account: CvctAccount,
    amount: u128,
    outs: Seq<EncScalar>,
    post_mint: CvctMint,
    post_vault: Vault,
    post_account: CvctAccount,
)
    requires
        outs.len() == 3,
        deposit_relation(
            pre_account.balance.decrypted(),
            pre_mint.total_supply.decrypted(),
            pre_vault.total_locked.decrypted(),
            amount,
            outs[0].decrypted(),
            outs[1].decrypted(),
            outs[2].decrypted(),
        ),
        post_account.balance == outs[0],
        post_mint.total_supply == outs[1],
        post_vault.total_locked == outs[2],
        linked(pre_mint, pre_vault),
    ensures
        linked(post_mint, post_vault),
{
}

} // verus!
