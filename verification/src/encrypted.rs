//! The encrypted value representation and its context discipline.
//!
//! A scalar lives in the u128 domain but is stored only as ciphertext: the
//! plaintext behind an [`EncScalar`] is a [`closed` spec view](EncScalar::decrypted)
//! that ledger code can reason about yet never read. The executable accessors
//! stand for the off-ledger parties — [`EncScalar::decrypt`] for the holder of
//! the matching private context, and the crate-private accessors for the
//! confidential-compute collaborators that may open ciphertexts.
//!
//! A value is meaningless without its context: the public key and nonce it was
//! encrypted under. Every fresh ciphertext carries the context it was produced
//! for; the producing services never reuse a nonce across outputs.
//!
//! Arithmetic over the u128 domain wraps, as it does inside the confidential
//! circuits; [`wrap_add`] and [`wrap_sub`] are its specification.

use vstd::prelude::*;

verus! {

/// One more than `u128::MAX`: the modulus of the encrypted u128 domain.
pub open spec fn u128_modulus() -> int {
    0x100000000000000000000000000000000int
}

/// Addition in the u128 domain, wrapping as the confidential circuits do.
pub open spec fn wrap_add(a: u128, b: u128) -> u128 {
    if a + b > u128::MAX {
        (a + b - u128_modulus()) as u128
    } else {
        (a + b) as u128
    }
}

/// Subtraction in the u128 domain, wrapping as the confidential circuits do.
pub open spec fn wrap_sub(a: u128, b: u128) -> u128 {
    if a - b < 0 {
        (a - b + u128_modulus()) as u128
    } else {
        (a - b) as u128
    }
}

/// An output encryption context: the public key a result is to be encrypted
/// under, together with the caller-chosen nonce for that one output.
#[derive(Clone, Copy, Debug)]
pub struct Shared {
    /// Public key of the party that will be able to decrypt the output.
    pub enc_pubkey: u64,
    /// Fresh nonce chosen by the caller for this output.
    pub nonce: u128,
}

/// An encrypted u128 scalar: opaque ciphertext plus the context it was
/// produced under. The plaintext is visible only to specifications and to the
/// modules standing for the off-ledger collaborators.
#[derive(Clone, Copy, Debug)]
pub struct EncScalar {
    value: u128,
    key: u64,
    nonce: u128,
    reader: Option<u64>,
}

/// An encrypted boolean, as returned by the encrypted comparison primitive.
#[derive(Clone, Copy, Debug)]
pub struct EncBool {
    value: bool,
    key: u64,
    nonce: u128,
}

impl Shared {
    /// Encrypt a plaintext under this context, as the confidential circuits
    /// do for their outputs.
    pub fn from_arcis(self, v: u128) -> (e: EncScalar)
        ensures
            e.decrypted() == v,
            e.context_key() == self.enc_pubkey,
            e.context_nonce() == self.nonce,
            e.reader() is None,
    {
        EncScalar { value: v, key: self.enc_pubkey, nonce: self.nonce, reader: None }
    }
}

impl EncScalar {
    /// The plaintext behind this ciphertext. Ledger code never reads it; it
    /// exists so that contracts can speak about conservation of value.
    pub closed spec fn decrypted(self) -> u128 {
        self.value
    }

    /// Public key of the encryption context this ciphertext was produced under.
    pub closed spec fn context_key(self) -> u64 {
        self.key
    }

    /// Nonce this ciphertext was produced under.
    pub closed spec fn context_nonce(self) -> u128 {
        self.nonce
    }

    /// Identity holding an explicit capability grant for this ciphertext, if
    /// one was issued.
    pub closed spec fn reader(self) -> Option<u64> {
        self.reader
    }

    /// A zeroed placeholder, as a record holds before the first committed
    /// computation writes a real ciphertext into it.
    pub fn zeroed() -> (e: EncScalar)
        ensures
            e.decrypted() == 0,
            e.context_key() == 0,
            e.context_nonce() == 0,
            e.reader() is None,
    {
        EncScalar { value: 0, key: 0, nonce: 0, reader: None }
    }

    /// Decryption by the holder of the matching private context — a client-side
    /// operation, never performed by the ledger itself.
    pub fn decrypt(&self) -> (v: u128)
        ensures
            v == self.decrypted(),
    {
        self.value
    }

    /// The nonce of this ciphertext, as a client reads it off the record.
    pub fn nonce_value(&self) -> (n: u128)
        ensures
            n == self.context_nonce(),
    {
        self.nonce
    }

    /// The context key of this ciphertext, as a client reads it off the record.
    pub fn key_value(&self) -> (k: u64)
        ensures
            k == self.context_key(),
    {
        self.key
    }

    /// The capability grant on this ciphertext, as a client reads it.
    pub fn reader_value(&self) -> (r: Option<u64>)
        ensures
            r == self.reader(),
    {
        self.reader
    }

    /// Open the ciphertext inside a confidential computation. Only the modules
    /// that stand for the off-ledger collaborators may call this.
    pub(crate) fn to_arcis(&self) -> (v: u128)
        ensures
            v == self.decrypted(),
    {
        self.value
    }

    /// Produce a ciphertext inside a confidential computation.
    pub(crate) fn seal(value: u128, key: u64, nonce: u128) -> (e: EncScalar)
        ensures
            e.decrypted() == value,
            e.context_key() == key,
            e.context_nonce() == nonce,
            e.reader() is None,
    {
        EncScalar { value, key, nonce, reader: None }
    }

    /// Overwrite the stored value in place, keeping context and grant. Only
    /// the plaintext-analog ledger variant, whose values are public, uses
    /// this.
    pub(crate) fn set_plain(&mut self, v: u128)
        ensures
            final(self).decrypted() == v,
            final(self).context_key() == old(self).context_key(),
            final(self).context_nonce() == old(self).context_nonce(),
            final(self).reader() == old(self).reader(),
    {
        self.value = v;
    }

    /// Record a capability grant: the grantee may decrypt this ciphertext.
    pub(crate) fn set_reader(&mut self, grantee: u64)
        ensures
            final(self).decrypted() == old(self).decrypted(),
            final(self).context_key() == old(self).context_key(),
            final(self).context_nonce() == old(self).context_nonce(),
            final(self).reader() == Some(grantee),
    {
        self.reader = Some(grantee);
    }
}

impl EncBool {
    /// The truth value behind this encrypted boolean.
    pub closed spec fn truth(self) -> bool {
        self.value
    }

    /// Public key of the encryption context this ciphertext was produced under.
    pub closed spec fn context_key(self) -> u64 {
        self.key
    }

    /// Nonce this ciphertext was produced under.
    pub closed spec fn context_nonce(self) -> u128 {
        self.nonce
    }

    /// Produce an encrypted boolean inside a confidential computation.
    pub(crate) fn seal(value: bool, key: u64, nonce: u128) -> (e: EncBool)
        ensures
            e.truth() == value,
            e.context_key() == key,
            e.context_nonce() == nonce,
    {
        EncBool { value, key, nonce }
    }

    /// Open the encrypted boolean inside a confidential computation.
    pub(crate) fn to_arcis(&self) -> (v: bool)
        ensures
            v == self.truth(),
    {
        self.value
    }
}

/// The plaintext behind a client-sealed amount ciphertext. In this model a
/// sealed amount is the 16 little-endian bytes of the plaintext; real
/// encryption is the collaborator's concern and out of scope.
pub open spec fn sealed_amount(b: Seq<u8>) -> u128 {
    (b[0] + 256 * (b[1] + 256 * (b[2] + 256 * (b[3] + 256 * (b[4] + 256 * (b[5] + 256 * (b[6]
        + 256 * (b[7] + 256 * (b[8] + 256 * (b[9] + 256 * (b[10] + 256 * (b[11] + 256 * (b[12]
        + 256 * (b[13] + 256 * (b[14] + 256 * b[15]))))))))))))))) as u128
}

/// Open a client-sealed amount, as the encrypted-compute collaborator does
/// when it accepts an externally produced ciphertext.
pub(crate) fn unseal_amount(b: &Vec<u8>) -> (v: u128)
    requires
        b@.len() == 16,
    ensures
        v == sealed_amount(b@),
{
    (b[0] as u128) + 256 * ((b[1] as u128) + 256 * ((b[2] as u128) + 256 * ((b[3] as u128)
        + 256 * ((b[4] as u128) + 256 * ((b[5] as u128) + 256 * ((b[6] as u128)
        + 256 * ((b[7] as u128) + 256 * ((b[8] as u128) + 256 * ((b[9] as u128)
        + 256 * ((b[10] as u128) + 256 * ((b[11] as u128) + 256 * ((b[12] as u128)
        + 256 * ((b[13] as u128) + 256 * ((b[14] as u128) + 256 * (b[15] as u128)))))))))))))))
}

} // verus!
