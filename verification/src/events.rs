use vstd::prelude::*;

use crate::types::Address;

verus! {

/// An event that the ledger publishes when an invoice changes state.
#[derive(Debug, PartialEq, Eq)]
pub enum InvoiceEvent {
    /// Topics ("Invoice", "Created"); data (id, issuer, payer, amount, currency, due_date).
    Created {
        id: u64,
        issuer: Address,
        payer: Address,
        amount: i128,
        currency: String,
        due_date: u64,
    },
    /// Topics ("Invoice", "Paid"); data (id, payer, amount_paid, paid_amount_total).
    Paid { id: u64, payer: Address, amount_paid: i128, paid_total: i128 },
    /// Topics ("Invoice", "Cancelled"); data (id, issuer).
    Cancelled { id: u64, issuer: Address },
    /// Topics ("Invoice", "Overdue"); data (id, due_date).
    Overdue { id: u64, due_date: u64 },
}

/// Records that a new invoice was created.
pub fn emit_invoice_created(
    log: &mut Vec<InvoiceEvent>,
    id: u64,
    issuer: &Address,
    payer: &Address,
    amount: i128,
    currency: String,
    due_date: u64,
)
    ensures
        final(log)@ == old(log)@.push(
            InvoiceEvent::Created {
                id,
                issuer: *issuer,
                payer: *payer,
                amount,
                currency,
                due_date,
            },
        ),
{
    log.push(
        InvoiceEvent::Created {
            id,
            issuer: issuer.clone(),
            payer: payer.clone(),
            amount,
            currency,
            due_date,
        },
    );
}

/// Records a payment against an invoice.
pub fn emit_invoice_paid(
    log: &mut Vec<InvoiceEvent>,
    id: u64,
    payer: &Address,
    amount_paid: i128,
    paid_total: i128,
)
    ensures
        final(log)@ == old(log)@.push(
            InvoiceEvent::Paid { id, payer: *payer, amount_paid, paid_total },
        ),
{
    log.push(InvoiceEvent::Paid { id, payer: payer.clone(), amount_paid, paid_total });
}

/// Records that the issuer cancelled an invoice.
pub fn emit_invoice_cancelled(log: &mut Vec<InvoiceEvent>, id: u64, issuer: &Address)
    ensures
        final(log)@ == old(log)@.push(InvoiceEvent::Cancelled { id, issuer: *issuer }),
{
    log.push(InvoiceEvent::Cancelled { id, issuer: issuer.clone() });
}

/// Records that an invoice was marked overdue.
pub fn emit_invoice_overdue(log: &mut Vec<InvoiceEvent>, id: u64, due_date: u64)
    ensures
        final(log)@ == old(log)@.push(InvoiceEvent::Overdue { id, due_date }),
{
    log.push(InvoiceEvent::Overdue { id, due_date });
}

} // verus!
