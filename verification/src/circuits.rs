//! The confidential circuits: pure functions over encrypted and plaintext
//! inputs, executed off-ledger by the confidential-compute cluster. Each
//! result is re-encrypted under the caller-chosen output context, and
//! conditional logic is oblivious — both branches are computed and one is
//! selected, so control flow never depends on a decrypted value.

use vstd::prelude::*;
use crate::encrypted::{wrap_add, wrap_sub, EncScalar, Shared};

verus! {

/// The deposit circuit's relation between its inputs and its decrypted
/// outputs: balance, supply and locked all grow by the same amount.
pub open spec fn deposit_relation(
    bal: u128,
    supply: u128,
    locked: u128,
    amount: u128,
    out_bal: u128,
    out_supply: u128,
    out_locked: u128,
) -> bool {
    out_bal == wrap_add(bal, amount) && out_supply == wrap_add(supply, amount) && out_locked
        == wrap_add(locked, amount)
}

/// The withdraw circuit's relation: if the balance covers the amount, all
/// three totals shrink by it in lockstep; otherwise all three are unchanged.
pub open spec fn withdraw_relation(
    bal: u128,
    supply: u128,
    locked: u128,
    amount: u128,
    out_bal: u128,
    out_supply: u128,
    out_locked: u128,
) -> bool {
    if bal >= amount {
        out_bal == wrap_sub(bal, amount) && out_supply == wrap_sub(supply, amount) && out_locked
            == wrap_sub(locked, amount)
    } else {
        out_bal == bal && out_supply == supply && out_locked == locked
    }
}

/// Initialize encrypted zero values for a mint's totals: the total supply
/// under the authority's context and the locked total under the vault's.
pub fn init_mint_state(authority: Shared, vault: Shared) -> (r: (EncScalar, EncScalar))
    ensures
        r.0.decrypted() == 0,
        r.0.context_key() == authority.enc_pubkey,
        r.0.context_nonce() == authority.nonce,
        r.1.decrypted() == 0,
        r.1.context_key() == vault.enc_pubkey,
        r.1.context_nonce() == vault.nonce,
{
    (authority.from_arcis(0u128), vault.from_arcis(0u128))
}

/// Initialize an encrypted zero balance under the account owner's context.
pub fn init_account_state(owner: Shared) -> (r: EncScalar)
    ensures
        r.decrypted() == 0,
        r.context_key() == owner.enc_pubkey,
        r.context_nonce() == owner.nonce,
{
    owner.from_arcis(0u128)
}

/// Add a plaintext deposit amount to the encrypted balance, total supply and
/// locked total, each re-encrypted under its own fresh output context.
pub fn deposit_and_mint(
    balance: &EncScalar,
    amount: u128,
    owner_out: Shared,
    total_supply: &EncScalar,
    mint_out: Shared,
    total_locked: &EncScalar,
    vault_out: Shared,
) -> (r: (EncScalar, EncScalar, EncScalar))
    ensures
        deposit_relation(
            balance.decrypted(),
            total_supply.decrypted(),
            total_locked.decrypted(),
            amount,
            r.0.decrypted(),
            r.1.decrypted(),
            r.2.decrypted(),
        ),
        r.0.context_key() == owner_out.enc_pubkey && r.0.context_nonce() == owner_out.nonce,
        r.1.context_key() == mint_out.enc_pubkey && r.1.context_nonce() == mint_out.nonce,
        r.2.context_key() == vault_out.enc_pubkey && r.2.context_nonce() == vault_out.nonce,
{
    let new_balance = balance.to_arcis().wrapping_add(amount);
    let new_total_supply = total_supply.to_arcis().wrapping_add(amount);
    let new_total_locked = total_locked.to_arcis().wrapping_add(amount);
    (
        owner_out.from_arcis(new_balance),
        mint_out.from_arcis(new_total_supply),
        vault_out.from_arcis(new_total_locked),
    )
}

/// Obliviously burn from the encrypted balance, supply and locked total: both
/// the debited and the unchanged outcome are computed, and the comparison
/// result selects which one every output reflects. The revealed boolean and
/// the plaintext amount are returned alongside the ciphertexts.
pub fn burn_and_withdraw(
    balance: &EncScalar,
    amount: u128,
    owner_out: Shared,
    total_supply: &EncScalar,
    mint_out: Shared,
    total_locked: &EncScalar,
    vault_out: Shared,
) -> (r: (EncScalar, EncScalar, EncScalar, bool, u128))
    ensures
        withdraw_relation(
            balance.decrypted(),
            total_supply.decrypted(),
            total_locked.decrypted(),
            amount,
            r.0.decrypted(),
            r.1.decrypted(),
            r.2.decrypted(),
        ),
        r.3 == (balance.decrypted() >= amount),
        r.4 == amount,
        r.0.context_key() == owner_out.enc_pubkey && r.0.context_nonce() == owner_out.nonce,
        r.1.context_key() == mint_out.enc_pubkey && r.1.context_nonce() == mint_out.nonce,
        r.2.context_key() == vault_out.enc_pubkey && r.2.context_nonce() == vault_out.nonce,
{
    let bal = balance.to_arcis();
    let ok = bal >= amount;

    // Both branches are computed; `ok` only selects between them.
    let debited_balance = bal.wrapping_sub(amount);
    let new_balance = if ok {
        debited_balance
    } else {
        bal
    };
    let supply = total_supply.to_arcis();
    let debited_supply = supply.wrapping_sub(amount);
    let new_supply = if ok {
        debited_supply
    } else {
        supply
    };
    let locked = total_locked.to_arcis();
    let debited_locked = locked.wrapping_sub(amount);
    let new_locked = if ok {
        debited_locked
    } else {
        locked
    };

    (
        owner_out.from_arcis(new_balance),
        mint_out.from_arcis(new_supply),
        vault_out.from_arcis(new_locked),
        ok,
        amount,
    )
}

} // verus!
