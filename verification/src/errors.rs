use vstd::prelude::*;

verus! {

/// Why an operation was refused.
///
/// Every operation of the ledger either applies all of its declared effects,
/// or returns one of these causes and leaves every record exactly as it was.
#[derive(Clone, Copy, Debug, PartialEq, Eq, Structural)]
pub enum PayrollError {
    /// Tax rate exceeds 100% (10000 basis points).
    InvalidTaxRate,
    /// Wallet screening score is below the minimum threshold.
    ScreeningFailed,
    /// Wallet screening is older than the validity window.
    ScreeningExpired,
    /// Zero-knowledge proof verification failed.
    ProofVerificationFailed,
    /// Invalid or mismatched confidential account reference.
    InvalidConfidentialAccount,
    /// Insufficient balance in a confidential account.
    InsufficientBalance,
    /// Caller is not the payroll authority.
    Unauthorized,
    /// Employee is not active.
    EmployeeNotActive,
    /// Employee id exceeds the maximum length.
    EmployeeIdTooLong,
    /// Employee name exceeds the maximum length.
    EmployeeNameTooLong,
    /// Payment record has already been verified.
    AlreadyVerified,
    /// Amount must be greater than zero.
    InvalidAmount,
    /// Tax amount cannot exceed the salary amount.
    TaxExceedsSalary,
    /// An entity already exists at the derived address.
    AccountAlreadyExists,
    /// No entity exists at the derived address.
    AccountNotFound,
    /// An aggregate counter would overflow.
    CounterOverflow,
}

/// Minimum screening score required to create or keep an active employee.
pub const SCREENING_THRESHOLD: u8 = 50;

/// How long a screening result stays fresh, in seconds (24 hours).
pub const SCREENING_VALIDITY_SECONDS: i64 = 86400;

/// Maximum tax rate in basis points (100%).
pub const MAX_TAX_RATE_BPS: u16 = 10000;

/// Tolerated distance between a payment's claimed timestamp and the clock,
/// in seconds (5 minutes).
pub const MAX_CLOCK_SKEW_SECONDS: i64 = 300;

} // verus!
