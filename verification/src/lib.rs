//! A confidential token ledger: balances, total supply and locked collateral
//! are held only as encrypted scalars, yet deposits, withdrawals and transfers
//! keep them mutually consistent.
//!
//! Two execution models are covered. In the asynchronous queued-computation
//! model a request is submitted to a confidential-compute cluster and a later
//! signed callback commits the result ([`queue`], [`queued`], [`circuits`]).
//! In the synchronous model every ledger operation invokes atomic encrypted
//! primitives inline ([`dispatch`], [`ledger`]). A plaintext-analog variant of
//! the same ledger, whose values are public, backs the recurring-payment
//! scheduler ([`analog`], [`payroll`]).
//!
//! The cryptography itself is out of scope: an encrypted scalar is modelled as
//! an opaque ciphertext whose plaintext is visible only to specifications (and
//! to the modules that stand for the off-ledger collaborators), so every
//! conservation and linkage invariant is stated over decrypted values and
//! proved without the ledger ever reading one.

pub mod analog;
pub mod circuits;
pub mod custody;
pub mod dispatch;
pub mod encrypted;
pub mod errors;
pub mod ledger;
pub mod payroll;
pub mod queue;
pub mod queued;
