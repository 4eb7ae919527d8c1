use vstd::prelude::*;
use crate::errors::MAX_TAX_RATE_BPS;

verus! {

/// Maximum length of an employee id, in characters.
pub const MAX_ID_LEN: usize = 64;

/// Maximum length of an employee name, in characters.
pub const MAX_NAME_LEN: usize = 128;

/// A 32-byte identity: a wallet, an account reference, or a program
/// reference, held as four 64-bit words.
///
/// The ledger never looks inside an identity; it only stores identities and
/// compares them for equality.
#[derive(Clone, Copy, Debug, PartialEq, Eq, Structural)]
pub struct Pubkey {
    pub w0: u64,
    pub w1: u64,
    pub w2: u64,
    pub w3: u64,
}

impl Pubkey {
    /// The all-zero identity, used where no identity has been recorded yet.
    pub open spec fn spec_zero() -> Pubkey {
        Pubkey { w0: 0, w1: 0, w2: 0, w3: 0 }
    }

    /// Returns the all-zero identity.
    pub fn zero() -> (r: Pubkey)
        ensures
            r == Pubkey::spec_zero(),
    {
        Pubkey { w0: 0, w1: 0, w2: 0, w3: 0 }
    }

    /// Builds an identity from its four words.
    pub fn new(w0: u64, w1: u64, w2: u64, w3: u64) -> (r: Pubkey)
        ensures
            r == (Pubkey { w0, w1, w2, w3 }),
    {
        Pubkey { w0, w1, w2, w3 }
    }
}

/// Employer-level configuration and aggregate counters; one per employer
/// identity, addressed by its authority.
#[derive(Clone, Copy, Debug)]
pub struct Payroll {
    /// Employer wallet identity; also the payroll's address.
    pub authority: Pubkey,
    /// Tax authority wallet identity.
    pub tax_authority: Pubkey,
    /// Tax rate in basis points (500 = 5%).
    pub tax_rate_bps: u16,
    /// Confidential-transfer program reference.
    pub shadowwire_program: Pubkey,
    /// Total employees registered, checked-increment / saturating-decrement.
    pub employee_count: u32,
    /// Total payments processed.
    pub payment_count: u64,
}

impl Payroll {
    /// The tax rate never exceeds 100%.
    pub open spec fn wf(self) -> bool {
        self.tax_rate_bps <= MAX_TAX_RATE_BPS
    }
}

/// Per-employee compliance and linkage state; one per (payroll, employee id)
/// pair, addressed by that pair.
#[derive(Clone, Debug)]
pub struct Employee {
    /// Address of the owning payroll.
    pub payroll: Pubkey,
    /// Unique employee identifier under the owning payroll.
    pub employee_id: String,
    /// Employee name.
    pub name: String,
    /// Employee's wallet identity.
    pub wallet: Pubkey,
    /// Opaque 32-byte commitment binding to the salary without revealing it.
    pub salary_commitment: [u8; 32],
    /// Risk screening score (0-100), supplied by an external oracle.
    pub screening_score: u8,
    /// Unix timestamp of the last screening.
    pub last_screened: i64,
    /// Whether the employee is active; inactive records are kept forever.
    pub is_active: bool,
    /// Employee's confidential account reference.
    pub confidential_account: Pubkey,
}

impl Employee {
    /// Id and name respect the length bounds enforced at creation.
    pub open spec fn wf(self) -> bool {
        &&& self.employee_id@.len() <= MAX_ID_LEN as nat
        &&& self.name@.len() <= MAX_NAME_LEN as nat
    }
}

/// The deterministic address of an employee: the identifying pair it was
/// created under.
#[derive(Clone, Debug)]
pub struct EmployeeAddr {
    /// Address of the owning payroll.
    pub payroll: Pubkey,
    /// Employee identifier under that payroll.
    pub employee_id: String,
}

/// Metadata about one payment attempt; one per (employee, timestamp) pair,
/// addressed by that pair.
///
/// By design this record holds no salary and no tax amount: privacy is
/// structural, not policy. Amounts live only inside the external
/// confidential-transfer subsystem.
#[derive(Clone, Debug)]
pub struct PaymentRecord {
    /// Address of the employee the payment was for.
    pub employee: EmployeeAddr,
    /// The payment's claimed timestamp; part of the record's address.
    pub timestamp: i64,
    /// Tax authority's confidential account reference.
    pub tax_confidential_account: Pubkey,
    /// Employee's confidential account reference.
    pub employee_confidential_account: Pubkey,
    /// Whether the external transfer has been certified; one-way false to true.
    pub verified: bool,
    /// When the record was certified; 0 until then.
    pub verified_at: i64,
    /// Who certified the record; all-zero until then.
    pub verifier: Pubkey,
}

impl PaymentRecord {
    /// Until a record is verified, its verification fields stay unset.
    pub open spec fn wf(self) -> bool {
        !self.verified ==> self.verified_at == 0 && self.verifier == Pubkey::spec_zero()
    }
}

/// An employer's confidential account configuration.
///
/// No operation of this core reads or writes it; it is kept as part of the
/// data model for the surrounding system.
#[derive(Clone, Copy, Debug)]
pub struct EmployerConfidentialConfig {
    /// Address of the owning payroll.
    pub payroll: Pubkey,
    /// Employer's confidential account reference.
    pub confidential_account: Pubkey,
    /// Tax authority's confidential account reference.
    pub tax_confidential_account: Pubkey,
}

} // verus!
