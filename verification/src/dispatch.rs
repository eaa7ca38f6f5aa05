//! The encrypted-compute primitive service: atomic synchronous operations on
//! encrypted scalars — constant-to-ciphertext, add, subtract, compare,
//! oblivious select and the capability grant. Each call either returns before
//! the next statement executes or aborts the whole enclosing operation.
//!
//! The engine counts every call it serves: the count orders the calls and
//! doubles as the fresh nonce for each new ciphertext, so no two outputs of
//! one engine ever share a nonce.

use vstd::prelude::*;
use crate::encrypted::{sealed_amount, wrap_add, wrap_sub, EncBool, EncScalar};

verus! {

/// The synchronous encrypted-compute collaborator.
#[derive(Clone, Copy, Debug)]
pub struct EncEngine {
    /// Public key of the engine's encryption context; every ciphertext the
    /// engine produces is encrypted under it.
    pub key: u64,
    /// Number of primitive calls served so far. Each new ciphertext takes the
    /// current count as its nonce, so nonces are never reused.
    pub calls: u64,
}

impl EncEngine {
    /// An engine that has served no calls yet.
    pub fn new(key: u64) -> (e: EncEngine)
        ensures
            e.key == key,
            e.calls == 0,
    {
        EncEngine { key, calls: 0 }
    }

    /// Encrypt a plaintext constant.
    pub fn as_euint128(&mut self, v: u128) -> (e: EncScalar)
        requires
            old(self).calls < u64::MAX,
        ensures
            e.decrypted() == v,
            e.context_key() == old(self).key,
            e.context_nonce() == old(self).calls as u128,
            e.reader() is None,
            final(self).key == old(self).key,
            final(self).calls == old(self).calls + 1,
    {
        let e = EncScalar::seal(v, self.key, self.calls as u128);
        self.calls = self.calls + 1;
        e
    }

    /// Accept a client-sealed ciphertext as an encrypted scalar. The format
    /// tag names the sealed encoding; this model accepts the 16-byte
    /// little-endian one.
    pub fn new_euint128(&mut self, ciphertext: &Vec<u8>, _input_type: u8) -> (e: EncScalar)
        requires
            old(self).calls < u64::MAX,
            ciphertext@.len() == 16,
        ensures
            e.decrypted() == sealed_amount(ciphertext@),
            e.context_key() == old(self).key,
            e.context_nonce() == old(self).calls as u128,
            e.reader() is None,
            final(self).key == old(self).key,
            final(self).calls == old(self).calls + 1,
    {
        let v = crate::encrypted::unseal_amount(ciphertext);
        let e = EncScalar::seal(v, self.key, self.calls as u128);
        self.calls = self.calls + 1;
        e
    }

    /// Encrypted addition, wrapping in the u128 domain.
    pub fn e_add(&mut self, a: &EncScalar, b: &EncScalar) -> (e: EncScalar)
        requires
            old(self).calls < u64::MAX,
        ensures
            e.decrypted() == wrap_add(a.decrypted(), b.decrypted()),
            e.context_key() == old(self).key,
            e.context_nonce() == old(self).calls as u128,
            e.reader() is None,
            final(self).key == old(self).key,
            final(self).calls == old(self).calls + 1,
    {
        let v = a.to_arcis().wrapping_add(b.to_arcis());
        let e = EncScalar::seal(v, self.key, self.calls as u128);
        self.calls = self.calls + 1;
        e
    }

    /// Encrypted subtraction, wrapping in the u128 domain.
    pub fn e_sub(&mut self, a: &EncScalar, b: &EncScalar) -> (e: EncScalar)
        requires
            old(self).calls < u64::MAX,
        ensures
            e.decrypted() == wrap_sub(a.decrypted(), b.decrypted()),
            e.context_key() == old(self).key,
            e.context_nonce() == old(self).calls as u128,
            e.reader() is None,
            final(self).key == old(self).key,
            final(self).calls == old(self).calls + 1,
    {
        let v = a.to_arcis().wrapping_sub(b.to_arcis());
        let e = EncScalar::seal(v, self.key, self.calls as u128);
        self.calls = self.calls + 1;
        e
    }

    /// Encrypted greater-or-equal comparison; the outcome stays encrypted.
    pub fn e_ge(&mut self, a: &EncScalar, b: &EncScalar) -> (e: EncBool)
        requires
            old(self).calls < u64::MAX,
        ensures
            e.truth() == (a.decrypted() >= b.decrypted()),
            e.context_key() == old(self).key,
            e.context_nonce() == old(self).calls as u128,
            final(self).key == old(self).key,
            final(self).calls == old(self).calls + 1,
    {
        let v = a.to_arcis() >= b.to_arcis();
        let e = EncBool::seal(v, self.key, self.calls as u128);
        self.calls = self.calls + 1;
        e
    }

    /// Oblivious selection: both inputs are materialized and the encrypted
    /// condition picks one, so the choice never shows in control flow.
    pub fn e_select(&mut self, cond: &EncBool, a: &EncScalar, b: &EncScalar) -> (e: EncScalar)
        requires
            old(self).calls < u64::MAX,
        ensures
            e.decrypted() == if cond.truth() {
                a.decrypted()
            } else {
                b.decrypted()
            },
            e.context_key() == old(self).key,
            e.context_nonce() == old(self).calls as u128,
            e.reader() is None,
            final(self).key == old(self).key,
            final(self).calls == old(self).calls + 1,
    {
        // Both candidate values are read before the condition is applied.
        let av = a.to_arcis();
        let bv = b.to_arcis();
        let v = if cond.to_arcis() {
            av
        } else {
            bv
        };
        let e = EncScalar::seal(v, self.key, self.calls as u128);
        self.calls = self.calls + 1;
        e
    }

    /// Capability grant: authorize `grantee` to decrypt the given ciphertext.
    /// The ciphertext and its value are untouched; only the grant is recorded.
    pub fn grant(&mut self, e: &mut EncScalar, grantee: u64, _mutable: bool)
        requires
            old(self).calls < u64::MAX,
        ensures
            final(e).decrypted() == old(e).decrypted(),
            final(e).context_key() == old(e).context_key(),
            final(e).context_nonce() == old(e).context_nonce(),
            final(e).reader() == Some(grantee),
            final(self).key == old(self).key,
            final(self).calls == old(self).calls + 1,
    {
        e.set_reader(grantee);
        self.calls = self.calls + 1;
    }
}

/// No two ciphertexts produced by different calls of one engine share a
/// nonce: each call stamps its position in the call order onto its output.
pub proof fn nonce_freshness(e1: EncScalar, e2: EncScalar, c1: u64, c2: u64)
    requires
        e1.context_nonce() == c1 as u128,
        e2.context_nonce() == c2 as u128,
        c1 != c2,
    ensures
        e1.context_nonce() != e2.context_nonce(),
{
}

} // verus!
