//! A compliance-gated ledger for payroll disbursement.
//!
//! The ledger tracks an employer's payroll configuration, its employees, and a
//! metadata record for each salary payment, while deliberately never storing
//! payment amounts: the actual movement of funds and the hiding of amounts are
//! the business of an external confidential-transfer subsystem. This crate
//! records *that* a payment happened, gates *whether* it was allowed to
//! happen, and certifies *that* evidence of the external transfer was
//! observed.
//!
//! Every entity lives at a deterministic address derived from its identifying
//! fields, so creation is a create-if-absent step: a second attempt to create
//! the same entity fails instead of overwriting it.

pub mod errors;
pub mod laws;
pub mod ledger;
pub mod state;
