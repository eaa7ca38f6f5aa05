//! Error surfaces of the two ledger programs and of the custody collaborator.
//!
//! Linkage failures (a record referencing the wrong parent) are reported as
//! `InvalidVault`, ownership and authority failures as `Unauthorized`; the
//! remaining variants are tied to one specific check each.

use vstd::prelude::*;

verus! {

/// Errors of the asynchronous queued-computation ledger.
#[derive(Clone, Copy, Debug, PartialEq, Eq, Structural)]
pub enum ErrorCode {
    /// The computation was aborted, or its callback payload failed verification.
    AbortedComputation,
    /// The cluster is not configured for the requested circuit.
    ClusterNotSet,
    /// The caller does not own or control the record it tries to use.
    Unauthorized,
    /// A vault or account is linked to the wrong mint.
    InvalidVault,
    /// The amount must be greater than zero.
    ZeroAmount,
}

/// Errors of the synchronous ledger and of the payroll scheduler.
#[derive(Clone, Copy, Debug, PartialEq, Eq, Structural)]
pub enum CvctError {
    /// Not enough funds for the operation (plaintext-analog path only).
    InsufficientFunds,
    /// The supply/locked linkage invariant does not hold.
    InvariantViolation,
    /// A vault or account is linked to the wrong mint.
    InvalidVault,
    /// The caller does not own or control the record it tries to use.
    Unauthorized,
    /// The amount must be greater than zero.
    ZeroAmount,
    /// The payroll member is not active.
    MemberNotActive,
    /// The payroll is not active.
    PayrollNotActive,
    /// No payroll period has elapsed since the last payment.
    PayrollNotDue,
    /// The payroll must be paused before it can be closed.
    MustPauseFirst,
    /// The accounts supplied for a capability grant are incomplete.
    InvalidAllowanceAccounts,
}

/// Errors of the backing-asset custody collaborator.
#[derive(Clone, Copy, Debug, PartialEq, Eq, Structural)]
pub enum TokenError {
    /// The source custody account holds less than the requested amount.
    InsufficientBalance,
    /// The destination custody account cannot hold the resulting amount.
    BalanceOverflow,
}

/// Outcome of one host transaction: either the program's own error or a
/// failure of the backing-asset custody leg, mirroring how the host surfaces
/// a failed custody call separately from the program's error enum.
#[derive(Clone, Copy, Debug, PartialEq, Eq, Structural)]
pub enum TxError<E> {
    /// The program itself rejected the operation.
    Program(E),
    /// The backing-asset custody transfer failed.
    Custody(TokenError),
}

} // verus!
