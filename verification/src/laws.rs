use vstd::prelude::*;
use crate::errors::{MAX_CLOCK_SKEW_SECONDS, MAX_TAX_RATE_BPS, PayrollError};
use crate::ledger::Ledger;
use crate::state::{MAX_ID_LEN, MAX_NAME_LEN, Pubkey};

verus! {

/// Every payroll record of a well-formed ledger carries a tax rate between
/// 0 and 10000 basis points; the bound is established at creation and no
/// operation can move the rate afterwards.
pub proof fn lemma_tax_rate_bounded(l: Ledger)
    requires
        l.wf(),
    ensures
        forall|i: int|
            0 <= i < l.payrolls@.len() ==> (#[trigger] l.payrolls@[i]).tax_rate_bps
                <= MAX_TAX_RATE_BPS,
{
}

/// Every employee record of a well-formed ledger respects the id and name
/// length bounds enforced at creation.
pub proof fn lemma_employee_lengths_bounded(l: Ledger)
    requires
        l.wf(),
    ensures
        forall|i: int|
            0 <= i < l.employees@.len() ==> (#[trigger] l.employees@[i]).employee_id@.len()
                <= MAX_ID_LEN as nat && (#[trigger] l.employees@[i]).name@.len()
                <= MAX_NAME_LEN as nat,
{
}

/// Deterministic addressing: a well-formed ledger holds at most one payroll
/// per authority, at most one employee per (payroll, id) pair, and at most
/// one payment record per (employee, timestamp) pair.
pub proof fn lemma_addresses_unique(l: Ledger)
    requires
        l.wf(),
    ensures
        forall|i: int, j: int|
            0 <= i < j < l.payrolls@.len() ==> (#[trigger] l.payrolls@[i]).authority != (
            #[trigger] l.payrolls@[j]).authority,
        forall|i: int, j: int|
            0 <= i < j < l.employees@.len() ==> Ledger::emp_key(#[trigger] l.employees@[i])
                != Ledger::emp_key(#[trigger] l.employees@[j]),
        forall|i: int, j: int|
            0 <= i < j < l.payments@.len() ==> Ledger::pay_key(#[trigger] l.payments@[i])
                != Ledger::pay_key(#[trigger] l.payments@[j]),
{
}

/// An inactive employee cannot be paid: whenever the employee named by a
/// payment request is not active — whether deactivated explicitly or as the
/// side effect of a failed re-screening — the payment gate refuses the
/// request with `EmployeeNotActive`, provided none of the earlier gates
/// (lookup, authority, amounts, clock skew) already refused it.
pub proof fn lemma_inactive_employee_cannot_be_paid(
    l: Ledger,
    caller: Pubkey,
    payroll: Pubkey,
    employee_id: Seq<char>,
    salary_amount: u64,
    tax_amount: u64,
    payment_timestamp: i64,
    tax_confidential_account: Pubkey,
    employee_confidential_account: Pubkey,
    shadowwire_program: Pubkey,
    now: i64,
)
    requires
        l.has_payroll(payroll),
        l.payroll_at(payroll).authority == caller,
        l.has_employee(payroll, employee_id),
        !l.employee_at(payroll, employee_id).is_active,
        salary_amount > 0,
        tax_amount <= salary_amount,
        Ledger::time_distance(now, payment_timestamp) < MAX_CLOCK_SKEW_SECONDS as int,
    ensures
        l.process_payment_check(
            caller,
            payroll,
            employee_id,
            salary_amount,
            tax_amount,
            payment_timestamp,
            tax_confidential_account,
            employee_confidential_account,
            shadowwire_program,
            now,
        ) == Some(PayrollError::EmployeeNotActive),
{
}

/// In a well-formed ledger, a payment record that has not been verified
/// carries no verification stamp: its time is zero and its verifier is the
/// all-zero identity.
pub proof fn lemma_unverified_record_unstamped(l: Ledger)
    requires
        l.wf(),
    ensures
        forall|i: int|
            0 <= i < l.payments@.len() && !(#[trigger] l.payments@[i]).verified ==> l.payments@[
                i
            ].verified_at == 0 && l.payments@[i].verifier == Pubkey::spec_zero(),
{
}

} // verus!
