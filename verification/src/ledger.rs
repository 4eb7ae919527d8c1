use vstd::prelude::*;
use vstd::string::StrSliceExecFns;
use crate::errors::{
    MAX_CLOCK_SKEW_SECONDS, MAX_TAX_RATE_BPS, PayrollError, SCREENING_THRESHOLD,
    SCREENING_VALIDITY_SECONDS,
};
use crate::state::{Employee, EmployeeAddr, MAX_ID_LEN, MAX_NAME_LEN, Payroll, PaymentRecord, Pubkey};

verus! {

/// The record store: every entity of the system, each at a deterministic
/// address derived from its identifying fields.
///
/// A payroll is addressed by its authority identity; an employee by the pair
/// (payroll address, employee id); a payment record by the pair (employee
/// address, timestamp). Creation is create-if-absent: an operation that would
/// create an entity whose address is already taken fails and changes nothing.
pub struct Ledger {
    /// All payroll records, at most one per authority.
    pub payrolls: Vec<Payroll>,
    /// All employee records, at most one per (payroll, employee id) pair.
    /// Deactivated employees stay here as inactive records.
    pub employees: Vec<Employee>,
    /// All payment records, at most one per (employee, timestamp) pair.
    pub payments: Vec<PaymentRecord>,
}

impl Ledger {
    /// Whether a payroll exists at address `addr`.
    pub open spec fn has_payroll(self, addr: Pubkey) -> bool {
        exists|i: int|
            0 <= i < self.payrolls@.len() && (#[trigger] self.payrolls@[i]).authority == addr
    }

    /// The position of the payroll at address `addr`; meaningful only when
    /// `has_payroll(addr)` holds and the ledger is well formed.
    pub open spec fn payroll_idx(self, addr: Pubkey) -> int {
        choose|i: int|
            0 <= i < self.payrolls@.len() && (#[trigger] self.payrolls@[i]).authority == addr
    }

    /// The payroll at address `addr`.
    pub open spec fn payroll_at(self, addr: Pubkey) -> Payroll {
        self.payrolls@[self.payroll_idx(addr)]
    }

    /// The identifying key of an employee record: its deterministic address.
    pub open spec fn emp_key(e: Employee) -> (Pubkey, Seq<char>) {
        (e.payroll, e.employee_id@)
    }

    /// Whether an employee exists at address `(payroll, id)`.
    pub open spec fn has_employee(self, payroll: Pubkey, id: Seq<char>) -> bool {
        exists|i: int|
            0 <= i < self.employees@.len() && Self::emp_key(
                #[trigger] self.employees@[i],
            ) == (payroll, id)
    }

    /// The position of the employee at address `(payroll, id)`; meaningful
    /// only when `has_employee` holds and the ledger is well formed.
    pub open spec fn employee_idx(self, payroll: Pubkey, id: Seq<char>) -> int {
        choose|i: int|
            0 <= i < self.employees@.len() && Self::emp_key(
                #[trigger] self.employees@[i],
            ) == (payroll, id)
    }

    /// The employee at address `(payroll, id)`.
    pub open spec fn employee_at(self, payroll: Pubkey, id: Seq<char>) -> Employee {
        self.employees@[self.employee_idx(payroll, id)]
    }

    /// The identifying key of a payment record: its deterministic address.
    pub open spec fn pay_key(p: PaymentRecord) -> (Pubkey, Seq<char>, i64) {
        (p.employee.payroll, p.employee.employee_id@, p.timestamp)
    }

    /// Whether a payment record exists at address `(payroll, id, ts)`.
    pub open spec fn has_payment(self, payroll: Pubkey, id: Seq<char>, ts: i64) -> bool {
        exists|i: int|
            0 <= i < self.payments@.len() && Self::pay_key(
                #[trigger] self.payments@[i],
            ) == (payroll, id, ts)
    }

    /// The position of the payment record at address `(payroll, id, ts)`;
    /// meaningful only when `has_payment` holds and the ledger is well formed.
    pub open spec fn payment_idx(self, payroll: Pubkey, id: Seq<char>, ts: i64) -> int {
        choose|i: int|
            0 <= i < self.payments@.len() && Self::pay_key(
                #[trigger] self.payments@[i],
            ) == (payroll, id, ts)
    }

    /// The payment record at address `(payroll, id, ts)`.
    pub open spec fn payment_at(self, payroll: Pubkey, id: Seq<char>, ts: i64) -> PaymentRecord {
        self.payments@[self.payment_idx(payroll, id, ts)]
    }

    /// Well-formedness of the whole store: addresses are unique within each
    /// kind of entity, every payroll's tax rate is in range, every employee's
    /// id and name respect their length bounds, and no payment record carries
    /// verification evidence before it is verified.
    pub open spec fn wf(self) -> bool {
        &&& forall|i: int, j: int|
            0 <= i < j < self.payrolls@.len() ==> (#[trigger] self.payrolls@[i]).authority != (
            #[trigger] self.payrolls@[j]).authority
        &&& forall|i: int| 0 <= i < self.payrolls@.len() ==> (#[trigger] self.payrolls@[i]).wf()
        &&& forall|i: int, j: int|
            0 <= i < j < self.employees@.len() ==> Self::emp_key(#[trigger] self.employees@[i])
                != Self::emp_key(#[trigger] self.employees@[j])
        &&& forall|i: int| 0 <= i < self.employees@.len() ==> (#[trigger] self.employees@[i]).wf()
        &&& forall|i: int, j: int|
            0 <= i < j < self.payments@.len() ==> Self::pay_key(#[trigger] self.payments@[i])
                != Self::pay_key(#[trigger] self.payments@[j])
        &&& forall|i: int| 0 <= i < self.payments@.len() ==> (#[trigger] self.payments@[i]).wf()
    }

    /// Every employee's screening score is within the oracle's 0-100 scale.
    pub open spec fn scores_bounded(self) -> bool {
        forall|i: int|
            0 <= i < self.employees@.len() ==> (#[trigger] self.employees@[i]).screening_score
                <= 100
    }

    /// An empty store.
    pub fn new() -> (l: Ledger)
        ensures
            l.wf(),
            l.scores_bounded(),
            l.payrolls@.len() == 0,
            l.employees@.len() == 0,
            l.payments@.len() == 0,
    {
        Ledger { payrolls: Vec::new(), employees: Vec::new(), payments: Vec::new() }
    }

    /// Looks up the payroll at address `addr`.
    fn find_payroll(&self, addr: &Pubkey) -> (r: Option<usize>)
        requires
            self.wf(),
        ensures
            match r {
                Some(i) => self.has_payroll(*addr) && i as int == self.payroll_idx(*addr),
                None => !self.has_payroll(*addr),
            },
    {
        let n: usize = self.payrolls.len();
        let mut i: usize = 0;
        while i < n
            invariant
                n == self.payrolls@.len(),
                i <= n,
                self.wf(),
                forall|j: int| 0 <= j < i ==> (#[trigger] self.payrolls@[j]).authority != *addr,
            decreases n - i,
        {
            if self.payrolls[i].authority == *addr {
                proof {
                    assert(self.has_payroll(*addr));
                    let k = self.payroll_idx(*addr);
                    assert(k == i as int);
                }
                return Some(i);
            }
            i = i + 1;
        }
        None
    }

    /// Looks up the employee at address `(payroll, employee_id)`.
    fn find_employee(&self, payroll: &Pubkey, employee_id: &String) -> (r: Option<usize>)
        requires
            self.wf(),
        ensures
            match r {
                Some(i) => self.has_employee(*payroll, employee_id@) && i as int
                    == self.employee_idx(*payroll, employee_id@),
                None => !self.has_employee(*payroll, employee_id@),
            },
    {
        let n: usize = self.employees.len();
        let mut i: usize = 0;
        while i < n
            invariant
                n == self.employees@.len(),
                i <= n,
                self.wf(),
                forall|j: int|
                    0 <= j < i ==> Self::emp_key(#[trigger] self.employees@[j]) != (
                    *payroll,
                    employee_id@,
                ),
            decreases n - i,
        {
            if self.employees[i].payroll == *payroll && self.employees[i].employee_id
                == *employee_id {
                proof {
                    assert(Self::emp_key(self.employees@[i as int]) == (*payroll, employee_id@));
                    assert(self.has_employee(*payroll, employee_id@));
                    let k = self.employee_idx(*payroll, employee_id@);
                    assert(k == i as int);
                }
                return Some(i);
            }
            i = i + 1;
        }
        None
    }

    /// Looks up the payment record at address `(payroll, employee_id, ts)`.
    fn find_payment(&self, payroll: &Pubkey, employee_id: &String, ts: i64) -> (r: Option<usize>)
        requires
            self.wf(),
        ensures
            match r {
                Some(i) => self.has_payment(*payroll, employee_id@, ts) && i as int
                    == self.payment_idx(*payroll, employee_id@, ts),
                None => !self.has_payment(*payroll, employee_id@, ts),
            },
    {
        let n: usize = self.payments.len();
        let mut i: usize = 0;
        while i < n
            invariant
                n == self.payments@.len(),
                i <= n,
                self.wf(),
                forall|j: int|
                    0 <= j < i ==> Self::pay_key(#[trigger] self.payments@[j]) != (
                    *payroll,
                    employee_id@,
                    ts,
                ),
            decreases n - i,
        {
            if self.payments[i].employee.payroll == *payroll && self.payments[i].employee.employee_id
                == *employee_id && self.payments[i].timestamp == ts {
                proof {
                    assert(Self::pay_key(self.payments@[i as int]) == (
                        *payroll,
                        employee_id@,
                        ts,
                    ));
                    assert(self.has_payment(*payroll, employee_id@, ts));
                    let k = self.payment_idx(*payroll, employee_id@, ts);
                    assert(k == i as int);
                }
                return Some(i);
            }
            i = i + 1;
        }
        None
    }

    /// The cause, if any, on which `initialize` fails: a tax rate over 100%,
    /// then a payroll already existing at the caller's address.
    pub open spec fn initialize_check(self, caller: Pubkey, tax_rate_bps: u16) -> Option<
        PayrollError,
    > {
        if tax_rate_bps > MAX_TAX_RATE_BPS {
            Some(PayrollError::InvalidTaxRate)
        } else if self.has_payroll(caller) {
            Some(PayrollError::AccountAlreadyExists)
        } else {
            None
        }
    }

    /// Creates the caller's payroll with its tax configuration, addressed by
    /// the caller's identity, with both aggregate counters at zero.
    pub fn initialize(
        &mut self,
        caller: Pubkey,
        tax_authority: Pubkey,
        shadowwire_program: Pubkey,
        tax_rate_bps: u16,
    ) -> (r: Result<(), PayrollError>)
        requires
            old(self).wf(),
        ensures
            final(self).wf(),
            match old(self).initialize_check(caller, tax_rate_bps) {
                Some(e) => r == Err::<(), PayrollError>(e) && *final(self) == *old(self),
                None => {
                    &&& r == Ok::<(), PayrollError>(())
                    &&& final(self).has_payroll(caller)
                    &&& final(self).payrolls@ == old(self).payrolls@.push(
                        (Payroll {
                            authority: caller,
                            tax_authority: tax_authority,
                            tax_rate_bps: tax_rate_bps,
                            shadowwire_program: shadowwire_program,
                            employee_count: 0,
                            payment_count: 0,
                        }),
                    )
                    &&& final(self).employees@ == old(self).employees@
                    &&& final(self).payments@ == old(self).payments@
                },
            },
            old(self).scores_bounded() ==> final(self).scores_bounded(),
    {
        if tax_rate_bps > MAX_TAX_RATE_BPS {
            return Err(PayrollError::InvalidTaxRate);
        }
        if self.find_payroll(&caller).is_some() {
            return Err(PayrollError::AccountAlreadyExists);
        }
        let p = Payroll {
            authority: caller,
            tax_authority,
            tax_rate_bps,
            shadowwire_program,
            employee_count: 0,
            payment_count: 0,
        };
        self.payrolls.push(p);
        proof {
            assert(self.payrolls@[self.payrolls@.len() - 1].authority == caller);
            assert(self.has_payroll(caller));
            assert forall|i: int, j: int|
                0 <= i < j < self.payrolls@.len() implies (#[trigger] self.payrolls@[i]).authority
                != (#[trigger] self.payrolls@[j]).authority by {
                if j == self.payrolls@.len() - 1 {
                    assert(self.payrolls@[i] == old(self).payrolls@[i]);
                }
            }
        }
        Ok(())
    }

    /// The cause, if any, on which `add_employee` fails, in the order the
    /// checks are made: no payroll at `payroll`, caller not its authority,
    /// the employee address already taken, an over-long id or name, a
    /// screening score below the threshold, and finally an employee counter
    /// that cannot grow any further.
    pub open spec fn add_employee_check(
        self,
        caller: Pubkey,
        payroll: Pubkey,
        employee_id: Seq<char>,
        name: Seq<char>,
        screening_score: u8,
    ) -> Option<PayrollError> {
        if !self.has_payroll(payroll) {
            Some(PayrollError::AccountNotFound)
        } else if self.payroll_at(payroll).authority != caller {
            Some(PayrollError::Unauthorized)
        } else if self.has_employee(payroll, employee_id) {
            Some(PayrollError::AccountAlreadyExists)
        } else if employee_id.len() > MAX_ID_LEN as nat {
            Some(PayrollError::EmployeeIdTooLong)
        } else if name.len() > MAX_NAME_LEN as nat {
            Some(PayrollError::EmployeeNameTooLong)
        } else if screening_score < SCREENING_THRESHOLD {
            Some(PayrollError::ScreeningFailed)
        } else if self.payroll_at(payroll).employee_count == u32::MAX {
            Some(PayrollError::CounterOverflow)
        } else {
            None
        }
    }

    /// Registers an employee under the caller's payroll, at the address
    /// `(payroll, employee_id)`. The new record is active, carries the given
    /// screening score, and counts `now` as its screening time; the payroll's
    /// employee counter grows by one, and the whole operation fails instead
    /// of letting that counter wrap.
    pub fn add_employee(
        &mut self,
        caller: Pubkey,
        payroll: Pubkey,
        employee_id: String,
        name: String,
        wallet: Pubkey,
        salary_commitment: [u8; 32],
        screening_score: u8,
        confidential_account: Pubkey,
        now: i64,
    ) -> (r: Result<(), PayrollError>)
        requires
            old(self).wf(),
        ensures
            final(self).wf(),
            match old(self).add_employee_check(caller, payroll, employee_id@, name@, screening_score) {
                Some(e) => r == Err::<(), PayrollError>(e) && *final(self) == *old(self),
                None => {
                    &&& r == Ok::<(), PayrollError>(())
                    &&& final(self).has_employee(payroll, employee_id@)
                    &&& final(self).employees@.len() == old(self).employees@.len() + 1
                    &&& final(self).employees@ == old(self).employees@.push(
                        final(self).employees@.last(),
                    )
                    &&& ({
                        let e = final(self).employees@.last();
                        &&& e.payroll == payroll
                        &&& e.employee_id@ == employee_id@
                        &&& e.name@ == name@
                        &&& e.wallet == wallet
                        &&& e.salary_commitment == salary_commitment
                        &&& e.screening_score == screening_score
                        &&& e.last_screened == now
                        &&& e.is_active
                        &&& e.confidential_account == confidential_account
                    })
                    &&& final(self).payrolls@ == old(self).payrolls@.update(
                        old(self).payroll_idx(payroll),
                        (Payroll {
                            employee_count: (old(self).payroll_at(payroll).employee_count
                                + 1) as u32,
                            ..old(self).payroll_at(payroll)
                        }),
                    )
                    &&& final(self).payments@ == old(self).payments@
                },
            },
            old(self).scores_bounded() && screening_score <= 100 ==> final(self).scores_bounded(),
    {
        let pi = match self.find_payroll(&payroll) {
            Some(i) => i,
            None => {
                return Err(PayrollError::AccountNotFound);
            },
        };
        if self.payrolls[pi].authority != caller {
            return Err(PayrollError::Unauthorized);
        }
        if self.find_employee(&payroll, &employee_id).is_some() {
            return Err(PayrollError::AccountAlreadyExists);
        }
        if employee_id.as_str().unicode_len() > MAX_ID_LEN {
            return Err(PayrollError::EmployeeIdTooLong);
        }
        if name.as_str().unicode_len() > MAX_NAME_LEN {
            return Err(PayrollError::EmployeeNameTooLong);
        }
        if screening_score < SCREENING_THRESHOLD {
            return Err(PayrollError::ScreeningFailed);
        }
        let count: u32 = self.payrolls[pi].employee_count;
        if count == u32::MAX {
            return Err(PayrollError::CounterOverflow);
        }
        self.payrolls[pi].employee_count = count + 1;
        let e = Employee {
            payroll,
            employee_id,
            name,
            wallet,
            salary_commitment,
            screening_score,
            last_screened: now,
            is_active: true,
            confidential_account,
        };
        self.employees.push(e);
        proof {
            assert(Self::emp_key(self.employees@[self.employees@.len() - 1]) == (
                payroll,
                employee_id@,
            ));
            assert(self.has_employee(payroll, employee_id@));
            assert forall|i: int, j: int|
                0 <= i < j < self.employees@.len() implies Self::emp_key(
                #[trigger] self.employees@[i],
            ) != Self::emp_key(#[trigger] self.employees@[j]) by {
                if j == self.employees@.len() - 1 {
                    assert(self.employees@[i] == old(self).employees@[i]);
                    assert(Self::emp_key(old(self).employees@[i]) != (payroll, employee_id@));
                }
            }
            assert forall|i: int, j: int|
                0 <= i < j < self.payrolls@.len() implies (#[trigger] self.payrolls@[i]).authority
                != (#[trigger] self.payrolls@[j]).authority by {
                assert(self.payrolls@[i].authority == old(self).payrolls@[i].authority);
                assert(self.payrolls@[j].authority == old(self).payrolls@[j].authority);
            }
        }
        Ok(())
    }

    /// The cause, if any, on which `update_screening` or
    /// `deactivate_employee` fails before reaching the employee: no payroll
    /// at `payroll`, caller not its authority, or no employee at
    /// `(payroll, employee_id)`.
    pub open spec fn employee_op_check(
        self,
        caller: Pubkey,
        payroll: Pubkey,
        employee_id: Seq<char>,
    ) -> Option<PayrollError> {
        if !self.has_payroll(payroll) {
            Some(PayrollError::AccountNotFound)
        } else if self.payroll_at(payroll).authority != caller {
            Some(PayrollError::Unauthorized)
        } else if !self.has_employee(payroll, employee_id) {
            Some(PayrollError::AccountNotFound)
        } else {
            None
        }
    }

    /// Overwrites an employee's screening score and screening time
    /// unconditionally; a score below the threshold deactivates the employee
    /// as a side effect, while a passing score never reactivates one.
    pub fn update_screening(
        &mut self,
        caller: Pubkey,
        payroll: Pubkey,
        employee_id: &String,
        new_score: u8,
        now: i64,
    ) -> (r: Result<(), PayrollError>)
        requires
            old(self).wf(),
        ensures
            final(self).wf(),
            match old(self).employee_op_check(caller, payroll, employee_id@) {
                Some(e) => r == Err::<(), PayrollError>(e) && *final(self) == *old(self),
                None => {
                    &&& r == Ok::<(), PayrollError>(())
                    &&& ({
                        let ei = old(self).employee_idx(payroll, employee_id@);
                        let e0 = old(self).employee_at(payroll, employee_id@);
                        let e1 = final(self).employees@[ei];
                        &&& final(self).employees@ == old(self).employees@.update(ei, e1)
                        &&& e1.screening_score == new_score
                        &&& e1.last_screened == now
                        &&& e1.is_active == (e0.is_active && new_score >= SCREENING_THRESHOLD)
                        &&& e1.payroll == e0.payroll
                        &&& e1.employee_id == e0.employee_id
                        &&& e1.name == e0.name
                        &&& e1.wallet == e0.wallet
                        &&& e1.salary_commitment == e0.salary_commitment
                        &&& e1.confidential_account == e0.confidential_account
                    })
                    &&& final(self).payrolls@ == old(self).payrolls@
                    &&& final(self).payments@ == old(self).payments@
                },
            },
            old(self).scores_bounded() && new_score <= 100 ==> final(self).scores_bounded(),
    {
        let pi = match self.find_payroll(&payroll) {
            Some(i) => i,
            None => {
                return Err(PayrollError::AccountNotFound);
            },
        };
        if self.payrolls[pi].authority != caller {
            return Err(PayrollError::Unauthorized);
        }
        let ei = match self.find_employee(&payroll, employee_id) {
            Some(i) => i,
            None => {
                return Err(PayrollError::AccountNotFound);
            },
        };
        let e = &mut self.employees[ei];
        e.screening_score = new_score;
        e.last_screened = now;
        if new_score < SCREENING_THRESHOLD {
            e.is_active = false;
        }
        proof {
            assert forall|i: int, j: int|
                0 <= i < j < self.employees@.len() implies Self::emp_key(
                #[trigger] self.employees@[i],
            ) != Self::emp_key(#[trigger] self.employees@[j]) by {
                assert(Self::emp_key(self.employees@[i]) == Self::emp_key(
                    old(self).employees@[i],
                ));
                assert(Self::emp_key(self.employees@[j]) == Self::emp_key(
                    old(self).employees@[j],
                ));
            }
        }
        Ok(())
    }

    /// The cause, if any, on which `deactivate_employee` fails: the shared
    /// lookup and authority checks, then an employee that is already
    /// inactive.
    pub open spec fn deactivate_employee_check(
        self,
        caller: Pubkey,
        payroll: Pubkey,
        employee_id: Seq<char>,
    ) -> Option<PayrollError> {
        if self.employee_op_check(caller, payroll, employee_id) is Some {
            self.employee_op_check(caller, payroll, employee_id)
        } else if !self.employee_at(payroll, employee_id).is_active {
            Some(PayrollError::EmployeeNotActive)
        } else {
            None
        }
    }

    /// Deactivates an active employee and shrinks the payroll's employee
    /// counter by one, saturating at zero; the record itself is kept, so a
    /// removed employee remains visible as an inactive one.
    pub fn deactivate_employee(
        &mut self,
        caller: Pubkey,
        payroll: Pubkey,
        employee_id: &String,
    ) -> (r: Result<(), PayrollError>)
        requires
            old(self).wf(),
        ensures
            final(self).wf(),
            match old(self).deactivate_employee_check(caller, payroll, employee_id@) {
                Some(e) => r == Err::<(), PayrollError>(e) && *final(self) == *old(self),
                None => {
                    &&& r == Ok::<(), PayrollError>(())
                    &&& ({
                        let ei = old(self).employee_idx(payroll, employee_id@);
                        let e0 = old(self).employee_at(payroll, employee_id@);
                        let e1 = final(self).employees@[ei];
                        &&& final(self).employees@ == old(self).employees@.update(ei, e1)
                        &&& !e1.is_active
                        &&& e1 == (Employee { is_active: false, ..e0 })
                    })
                    &&& ({
                        let pi = old(self).payroll_idx(payroll);
                        let p0 = old(self).payroll_at(payroll);
                        let shrunk: u32 = if p0.employee_count > 0 {
                            (p0.employee_count - 1) as u32
                        } else {
                            0
                        };
                        final(self).payrolls@ == old(self).payrolls@.update(
                            pi,
                            (Payroll { employee_count: shrunk, ..p0 }),
                        )
                    })
                    &&& final(self).payments@ == old(self).payments@
                },
            },
            old(self).scores_bounded() ==> final(self).scores_bounded(),
    {
        let pi = match self.find_payroll(&payroll) {
            Some(i) => i,
            None => {
                return Err(PayrollError::AccountNotFound);
            },
        };
        if self.payrolls[pi].authority != caller {
            return Err(PayrollError::Unauthorized);
        }
        let ei = match self.find_employee(&payroll, employee_id) {
            Some(i) => i,
            None => {
                return Err(PayrollError::AccountNotFound);
            },
        };
        if !self.employees[ei].is_active {
            return Err(PayrollError::EmployeeNotActive);
        }
        self.employees[ei].is_active = false;
        let count: u32 = self.payrolls[pi].employee_count;
        self.payrolls[pi].employee_count = if count > 0 {
            count - 1
        } else {
            0
        };
        proof {
            assert forall|i: int, j: int|
                0 <= i < j < self.employees@.len() implies Self::emp_key(
                #[trigger] self.employees@[i],
            ) != Self::emp_key(#[trigger] self.employees@[j]) by {
                assert(Self::emp_key(self.employees@[i]) == Self::emp_key(
                    old(self).employees@[i],
                ));
                assert(Self::emp_key(self.employees@[j]) == Self::emp_key(
                    old(self).employees@[j],
                ));
            }
            assert forall|i: int, j: int|
                0 <= i < j < self.payrolls@.len() implies (#[trigger] self.payrolls@[i]).authority
                != (#[trigger] self.payrolls@[j]).authority by {
                assert(self.payrolls@[i].authority == old(self).payrolls@[i].authority);
                assert(self.payrolls@[j].authority == old(self).payrolls@[j].authority);
            }
        }
        Ok(())
    }

    /// The distance between two clock readings, as a mathematical integer.
    pub open spec fn time_distance(a: i64, b: i64) -> int {
        if a >= b {
            a - b
        } else {
            b - a
        }
    }

    /// The cause, if any, on which `process_payment` fails, in the order the
    /// gates are evaluated: lookup and authority checks; a zero salary; a
    /// tax amount over the salary; a claimed timestamp too far from the
    /// clock; an inactive employee; a stale screening; a mismatched employee
    /// confidential account or confidential-transfer program reference; and
    /// finally a payment record already existing at the derived address.
    pub open spec fn process_payment_check(
        self,
        caller: Pubkey,
        payroll: Pubkey,
        employee_id: Seq<char>,
        salary_amount: u64,
        tax_amount: u64,
        payment_timestamp: i64,
        tax_confidential_account: Pubkey,
        employee_confidential_account: Pubkey,
        shadowwire_program: Pubkey,
        now: i64,
    ) -> Option<PayrollError> {
        if self.employee_op_check(caller, payroll, employee_id) is Some {
            self.employee_op_check(caller, payroll, employee_id)
        } else if salary_amount == 0 {
            Some(PayrollError::InvalidAmount)
        } else if tax_amount > salary_amount {
            Some(PayrollError::TaxExceedsSalary)
        } else if Self::time_distance(now, payment_timestamp) >= MAX_CLOCK_SKEW_SECONDS as int {
            Some(PayrollError::InvalidAmount)
        } else if !self.employee_at(payroll, employee_id).is_active {
            Some(PayrollError::EmployeeNotActive)
        } else if now - self.employee_at(payroll, employee_id).last_screened
            >= SCREENING_VALIDITY_SECONDS as int {
            Some(PayrollError::ScreeningExpired)
        } else if employee_confidential_account != self.employee_at(
            payroll,
            employee_id,
        ).confidential_account {
            Some(PayrollError::InvalidConfidentialAccount)
        } else if shadowwire_program != self.payroll_at(payroll).shadowwire_program {
            Some(PayrollError::InvalidConfidentialAccount)
        } else if self.has_payment(payroll, employee_id, payment_timestamp) {
            Some(PayrollError::AccountAlreadyExists)
        } else {
            None
        }
    }

    /// Issues a payment record for an active, freshly screened employee.
    ///
    /// The record is addressed by `(employee, payment_timestamp)`, which is
    /// the sole duplicate suppression: a second call with the same timestamp
    /// collides and fails. The salary and tax amounts only gate the
    /// operation; the record stores none of them, only the confidential
    /// account references the external transfer runs between. The record
    /// starts unverified.
    pub fn process_payment(
        &mut self,
        caller: Pubkey,
        payroll: Pubkey,
        employee_id: &String,
        salary_amount: u64,
        tax_amount: u64,
        payment_timestamp: i64,
        tax_confidential_account: Pubkey,
        employee_confidential_account: Pubkey,
        shadowwire_program: Pubkey,
        now: i64,
    ) -> (r: Result<(), PayrollError>)
        requires
            old(self).wf(),
        ensures
            final(self).wf(),
            match old(self).process_payment_check(
                caller,
                payroll,
                employee_id@,
                salary_amount,
                tax_amount,
                payment_timestamp,
                tax_confidential_account,
                employee_confidential_account,
                shadowwire_program,
                now,
            ) {
                Some(e) => r == Err::<(), PayrollError>(e) && *final(self) == *old(self),
                None => {
                    &&& r == Ok::<(), PayrollError>(())
                    &&& final(self).has_payment(payroll, employee_id@, payment_timestamp)
                    &&& final(self).payments@.len() == old(self).payments@.len() + 1
                    &&& final(self).payments@ == old(self).payments@.push(
                        final(self).payments@.last(),
                    )
                    &&& ({
                        let p = final(self).payments@.last();
                        &&& p.employee.payroll == payroll
                        &&& p.employee.employee_id@ == employee_id@
                        &&& p.timestamp == payment_timestamp
                        &&& p.tax_confidential_account == tax_confidential_account
                        &&& p.employee_confidential_account == employee_confidential_account
                        &&& !p.verified
                        &&& p.verified_at == 0
                        &&& p.verifier == Pubkey::spec_zero()
                    })
                    &&& final(self).payrolls@ == old(self).payrolls@
                    &&& final(self).employees@ == old(self).employees@
                },
            },
            old(self).scores_bounded() ==> final(self).scores_bounded(),
    {
        let pi = match self.find_payroll(&payroll) {
            Some(i) => i,
            None => {
                return Err(PayrollError::AccountNotFound);
            },
        };
        if self.payrolls[pi].authority != caller {
            return Err(PayrollError::Unauthorized);
        }
        let ei = match self.find_employee(&payroll, employee_id) {
            Some(i) => i,
            None => {
                return Err(PayrollError::AccountNotFound);
            },
        };
        if salary_amount == 0 {
            return Err(PayrollError::InvalidAmount);
        }
        if tax_amount > salary_amount {
            return Err(PayrollError::TaxExceedsSalary);
        }
        let diff: i128 = (now as i128) - (payment_timestamp as i128);
        let skew: i128 = if diff < 0 {
            -diff
        } else {
            diff
        };
        if skew >= MAX_CLOCK_SKEW_SECONDS as i128 {
            return Err(PayrollError::InvalidAmount);
        }
        if !self.employees[ei].is_active {
            return Err(PayrollError::EmployeeNotActive);
        }
        let since_screening: i128 = (now as i128) - (self.employees[ei].last_screened as i128);
        if since_screening >= SCREENING_VALIDITY_SECONDS as i128 {
            return Err(PayrollError::ScreeningExpired);
        }
        if employee_confidential_account != self.employees[ei].confidential_account {
            return Err(PayrollError::InvalidConfidentialAccount);
        }
        if shadowwire_program != self.payrolls[pi].shadowwire_program {
            return Err(PayrollError::InvalidConfidentialAccount);
        }
        if self.find_payment(&payroll, employee_id, payment_timestamp).is_some() {
            return Err(PayrollError::AccountAlreadyExists);
        }
        let rec = PaymentRecord {
            employee: EmployeeAddr { payroll, employee_id: employee_id.clone() },
            timestamp: payment_timestamp,
            tax_confidential_account,
            employee_confidential_account,
            verified: false,
            verified_at: 0,
            verifier: Pubkey::zero(),
        };
        self.payments.push(rec);
        proof {
            assert(Self::pay_key(self.payments@[self.payments@.len() - 1]) == (
                payroll,
                employee_id@,
                payment_timestamp,
            ));
            assert(self.has_payment(payroll, employee_id@, payment_timestamp));
            assert forall|i: int, j: int|
                0 <= i < j < self.payments@.len() implies Self::pay_key(
                #[trigger] self.payments@[i],
            ) != Self::pay_key(#[trigger] self.payments@[j]) by {
                if j == self.payments@.len() - 1 {
                    assert(self.payments@[i] == old(self).payments@[i]);
                    assert(Self::pay_key(old(self).payments@[i]) != (
                        payroll,
                        employee_id@,
                        payment_timestamp,
                    ));
                }
            }
        }
        Ok(())
    }

    /// The cause, if any, on which `verify_proof` fails: no payment record
    /// at the derived address, a record that was already verified, a
    /// tax confidential account that does not match the one on the record,
    /// or a referenced account that holds no data.
    pub open spec fn verify_proof_check(
        self,
        payroll: Pubkey,
        employee_id: Seq<char>,
        payment_timestamp: i64,
        tax_confidential_account: Pubkey,
        tax_account_has_data: bool,
    ) -> Option<PayrollError> {
        if !self.has_payment(payroll, employee_id, payment_timestamp) {
            Some(PayrollError::AccountNotFound)
        } else if self.payment_at(payroll, employee_id, payment_timestamp).verified {
            Some(PayrollError::AlreadyVerified)
        } else if tax_confidential_account != self.payment_at(
            payroll,
            employee_id,
            payment_timestamp,
        ).tax_confidential_account {
            Some(PayrollError::InvalidConfidentialAccount)
        } else if !tax_account_has_data {
            Some(PayrollError::InvalidConfidentialAccount)
        } else {
            None
        }
    }

    /// Certifies a payment record once, irreversibly: open to any caller, it
    /// flips `verified` from false to true and stamps the time and the
    /// verifier identity.
    ///
    /// The caller supplies, besides the tax confidential account reference
    /// to cross-check, the observation `tax_account_has_data`: whether that
    /// account exists and holds data in the external confidential-transfer
    /// subsystem. That existence proxy is the only evidence this core asks
    /// for; the cryptographic proof itself was already validated by that
    /// subsystem at transfer time. Whatever the outcome, a record that was
    /// verified before the call keeps its verification stamp untouched.
    pub fn verify_proof(
        &mut self,
        verifier: Pubkey,
        payroll: Pubkey,
        employee_id: &String,
        payment_timestamp: i64,
        tax_confidential_account: Pubkey,
        tax_account_has_data: bool,
        now: i64,
    ) -> (r: Result<(), PayrollError>)
        requires
            old(self).wf(),
        ensures
            final(self).wf(),
            match old(self).verify_proof_check(
                payroll,
                employee_id@,
                payment_timestamp,
                tax_confidential_account,
                tax_account_has_data,
            ) {
                Some(e) => r == Err::<(), PayrollError>(e) && *final(self) == *old(self),
                None => {
                    &&& r == Ok::<(), PayrollError>(())
                    &&& ({
                        let ki = old(self).payment_idx(payroll, employee_id@, payment_timestamp);
                        let p0 = old(self).payment_at(payroll, employee_id@, payment_timestamp);
                        let p1 = final(self).payments@[ki];
                        &&& final(self).payments@ == old(self).payments@.update(ki, p1)
                        &&& p1 == (PaymentRecord {
                            verified: true,
                            verified_at: now,
                            verifier: verifier,
                            ..p0
                        })
                    })
                    &&& final(self).payrolls@ == old(self).payrolls@
                    &&& final(self).employees@ == old(self).employees@
                },
            },
            forall|i: int|
                0 <= i < old(self).payments@.len() && (#[trigger] old(
                    self,
                ).payments@[i]).verified ==> final(self).payments@[i] == old(self).payments@[i],
            old(self).scores_bounded() ==> final(self).scores_bounded(),
    {
        let ki = match self.find_payment(&payroll, employee_id, payment_timestamp) {
            Some(i) => i,
            None => {
                return Err(PayrollError::AccountNotFound);
            },
        };
        if self.payments[ki].verified {
            return Err(PayrollError::AlreadyVerified);
        }
        if tax_confidential_account != self.payments[ki].tax_confidential_account {
            return Err(PayrollError::InvalidConfidentialAccount);
        }
        if !tax_account_has_data {
            return Err(PayrollError::InvalidConfidentialAccount);
        }
        let p = &mut self.payments[ki];
        p.verified = true;
        p.verified_at = now;
        p.verifier = verifier;
        proof {
            assert forall|i: int, j: int|
                0 <= i < j < self.payments@.len() implies Self::pay_key(
                #[trigger] self.payments@[i],
            ) != Self::pay_key(#[trigger] self.payments@[j]) by {
                assert(Self::pay_key(self.payments@[i]) == Self::pay_key(old(self).payments@[i]));
                assert(Self::pay_key(self.payments@[j]) == Self::pay_key(old(self).payments@[j]));
            }
        }
        Ok(())
    }
}

} // verus!
