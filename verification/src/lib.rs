//! An invoice ledger: invoices are created by an issuer, paid (in one or several
//! instalments) by a designated payer, cancelled by the issuer, or marked overdue
//! once the ledger clock has passed their due date.
//!
//! The verified library holds the whole lifecycle: the checks that decide whether
//! a request is accepted and which error refuses it, the state transitions, the
//! sequential id counter, the per-address index and the event log.

pub mod contract;
pub mod errors;
pub mod events;
pub mod laws;
pub mod lifecycle;
pub mod storage;
pub mod types;

pub use contract::StellarInvoiceContract;
pub use errors::InvoiceError;
pub use events::InvoiceEvent;
pub use types::{Address, Invoice, Status};
