use zkpayroll::errors::PayrollError;
use zkpayroll::ledger::Ledger;
use zkpayroll::state::Pubkey;

const NOW: i64 = 1_700_000_000;

fn pk(n: u64) -> Pubkey {
    Pubkey::new(n, 0, 0, 0)
}

fn employer() -> Pubkey {
    pk(1)
}

fn tax_account() -> Pubkey {
    pk(40)
}

fn employee_account() -> Pubkey {
    pk(11)
}

fn program() -> Pubkey {
    pk(3)
}

/// A payroll with one active employee, screened at `NOW`.
fn setup() -> Ledger {
    let mut l = Ledger::new();
    assert_eq!(l.initialize(employer(), pk(2), program(), 500), Ok(()));
    let r = l.add_employee(
        employer(),
        employer(),
        "alice".to_string(),
        "Alice Example".to_string(),
        pk(10),
        [7u8; 32],
        80,
        employee_account(),
        NOW,
    );
    assert_eq!(r, Ok(()));
    l
}

fn pay(l: &mut Ledger, salary: u64, tax: u64, ts: i64, now: i64) -> Result<(), PayrollError> {
    let id = "alice".to_string();
    l.process_payment(
        employer(),
        employer(),
        &id,
        salary,
        tax,
        ts,
        tax_account(),
        employee_account(),
        program(),
        now,
    )
}

#[test]
fn process_payment_creates_record_without_amounts() {
    let mut l = setup();
    assert_eq!(pay(&mut l, 1000, 50, NOW + 10, NOW + 20), Ok(()));
    assert_eq!(l.payments.len(), 1);
    let p = &l.payments[0];
    // The record holds references and flags only: no salary, no tax amount.
    assert_eq!(p.employee.payroll, employer());
    assert_eq!(p.employee.employee_id, "alice");
    assert_eq!(p.timestamp, NOW + 10);
    assert_eq!(p.tax_confidential_account, tax_account());
    assert_eq!(p.employee_confidential_account, employee_account());
    assert!(!p.verified);
    assert_eq!(p.verified_at, 0);
    assert_eq!(p.verifier, Pubkey::zero());
    // Issuance leaves the payroll record untouched.
    assert_eq!(l.payrolls[0].payment_count, 0);
    assert_eq!(l.payrolls[0].employee_count, 1);
}

#[test]
fn process_payment_rejects_zero_salary() {
    let mut l = setup();
    let r = pay(&mut l, 0, 0, NOW, NOW);
    assert_eq!(r, Err(PayrollError::InvalidAmount));
    assert_eq!(l.payments.len(), 0);
}

#[test]
fn process_payment_rejects_tax_over_salary() {
    let mut l = setup();
    let r = pay(&mut l, 1000, 1001, NOW, NOW);
    assert_eq!(r, Err(PayrollError::TaxExceedsSalary));
    assert_eq!(l.payments.len(), 0);
}

#[test]
fn process_payment_accepts_tax_equal_to_salary() {
    let mut l = setup();
    assert_eq!(pay(&mut l, 1000, 1000, NOW, NOW), Ok(()));
    assert_eq!(l.payments.len(), 1);
}

#[test]
fn process_payment_rejects_stale_timestamp() {
    let mut l = setup();
    let r = pay(&mut l, 1000, 50, NOW - 300, NOW);
    assert_eq!(r, Err(PayrollError::InvalidAmount));
    assert_eq!(l.payments.len(), 0);
    // One second inside the window is accepted.
    assert_eq!(pay(&mut l, 1000, 50, NOW - 299, NOW), Ok(()));
}

#[test]
fn process_payment_rejects_future_timestamp() {
    let mut l = setup();
    let r = pay(&mut l, 1000, 50, NOW + 300, NOW);
    assert_eq!(r, Err(PayrollError::InvalidAmount));
    assert_eq!(pay(&mut l, 1000, 50, NOW + 299, NOW), Ok(()));
}

#[test]
fn process_payment_rejects_expired_screening() {
    let mut l = setup();
    let now = NOW + 86400;
    let r = pay(&mut l, 1000, 50, now, now);
    assert_eq!(r, Err(PayrollError::ScreeningExpired));
    assert_eq!(l.payments.len(), 0);
}

#[test]
fn process_payment_accepts_screening_inside_window() {
    let mut l = setup();
    let now = NOW + 86399;
    assert_eq!(pay(&mut l, 1000, 50, now, now), Ok(()));
}

#[test]
fn process_payment_rejects_inactive_employee() {
    let mut l = setup();
    let id = "alice".to_string();
    assert_eq!(l.update_screening(employer(), employer(), &id, 30, NOW), Ok(()));
    let r = pay(&mut l, 1000, 50, NOW, NOW);
    assert_eq!(r, Err(PayrollError::EmployeeNotActive));
    assert_eq!(l.payments.len(), 0);
}

#[test]
fn process_payment_rejects_mismatched_employee_account() {
    let mut l = setup();
    let id = "alice".to_string();
    let r = l.process_payment(
        employer(),
        employer(),
        &id,
        1000,
        50,
        NOW,
        tax_account(),
        pk(99),
        program(),
        NOW,
    );
    assert_eq!(r, Err(PayrollError::InvalidConfidentialAccount));
    assert_eq!(l.payments.len(), 0);
}

#[test]
fn process_payment_rejects_mismatched_program() {
    let mut l = setup();
    let id = "alice".to_string();
    let r = l.process_payment(
        employer(),
        employer(),
        &id,
        1000,
        50,
        NOW,
        tax_account(),
        employee_account(),
        pk(99),
        NOW,
    );
    assert_eq!(r, Err(PayrollError::InvalidConfidentialAccount));
    assert_eq!(l.payments.len(), 0);
}

#[test]
fn process_payment_rejects_duplicate_timestamp() {
    let mut l = setup();
    assert_eq!(pay(&mut l, 1000, 50, NOW, NOW), Ok(()));
    let r = pay(&mut l, 2000, 70, NOW, NOW + 1);
    assert_eq!(r, Err(PayrollError::AccountAlreadyExists));
    assert_eq!(l.payments.len(), 1);
    // A different timestamp is a different address: not caught as duplicate.
    assert_eq!(pay(&mut l, 1000, 50, NOW + 1, NOW + 1), Ok(()));
    assert_eq!(l.payments.len(), 2);
}

#[test]
fn process_payment_rejects_wrong_authority() {
    let mut l = setup();
    let id = "alice".to_string();
    let r = l.process_payment(
        pk(99),
        employer(),
        &id,
        1000,
        50,
        NOW,
        tax_account(),
        employee_account(),
        program(),
        NOW,
    );
    assert_eq!(r, Err(PayrollError::Unauthorized));
    assert_eq!(l.payments.len(), 0);
}

fn verify(l: &mut Ledger, who: Pubkey, acct: Pubkey, has_data: bool, now: i64) -> Result<(), PayrollError> {
    let id = "alice".to_string();
    l.verify_proof(who, employer(), &id, NOW, acct, has_data, now)
}

#[test]
fn verify_proof_certifies_once() {
    let mut l = setup();
    assert_eq!(pay(&mut l, 1000, 50, NOW, NOW), Ok(()));
    let r = verify(&mut l, pk(77), tax_account(), true, NOW + 60);
    assert_eq!(r, Ok(()));
    let p = &l.payments[0];
    assert!(p.verified);
    assert_eq!(p.verified_at, NOW + 60);
    assert_eq!(p.verifier, pk(77));
}

#[test]
fn verify_proof_rejects_second_call() {
    let mut l = setup();
    assert_eq!(pay(&mut l, 1000, 50, NOW, NOW), Ok(()));
    assert_eq!(verify(&mut l, pk(77), tax_account(), true, NOW + 60), Ok(()));
    let r = verify(&mut l, pk(88), tax_account(), true, NOW + 120);
    assert_eq!(r, Err(PayrollError::AlreadyVerified));
    // The first certification stays untouched.
    assert!(l.payments[0].verified);
    assert_eq!(l.payments[0].verified_at, NOW + 60);
    assert_eq!(l.payments[0].verifier, pk(77));
}

#[test]
fn verify_proof_rejects_mismatched_tax_account() {
    let mut l = setup();
    assert_eq!(pay(&mut l, 1000, 50, NOW, NOW), Ok(()));
    let r = verify(&mut l, pk(77), pk(99), true, NOW + 60);
    assert_eq!(r, Err(PayrollError::InvalidConfidentialAccount));
    assert!(!l.payments[0].verified);
    assert_eq!(l.payments[0].verified_at, 0);
}

#[test]
fn verify_proof_rejects_account_without_data() {
    let mut l = setup();
    assert_eq!(pay(&mut l, 1000, 50, NOW, NOW), Ok(()));
    let r = verify(&mut l, pk(77), tax_account(), false, NOW + 60);
    assert_eq!(r, Err(PayrollError::InvalidConfidentialAccount));
    assert!(!l.payments[0].verified);
}

#[test]
fn verify_proof_rejects_missing_record() {
    let mut l = setup();
    let r = verify(&mut l, pk(77), tax_account(), true, NOW + 60);
    assert_eq!(r, Err(PayrollError::AccountNotFound));
}

#[test]
fn verify_proof_open_to_any_caller() {
    let mut l = setup();
    assert_eq!(pay(&mut l, 1000, 50, NOW, NOW), Ok(()));
    // The verifier is neither the employer nor any stored identity.
    let stranger = pk(123456);
    assert_eq!(verify(&mut l, stranger, tax_account(), true, NOW + 1), Ok(()));
    assert_eq!(l.payments[0].verifier, stranger);
}
