//! The rules of the invoice lifecycle, one invoice at a time: which requests are
//! accepted, which error refuses the others (checked in a fixed order), and what
//! an accepted request makes of the invoice.
use vstd::prelude::*;

use crate::errors::InvoiceError;
use crate::types::{Address, Invoice, Status};

verus! {

/// Whether an invoice of `amount` due at `due_date` may be created when the ledger
/// clock reads `now`: the amount must be positive and the due date strictly later
/// than `now` (amount checked first).
pub open spec fn creation_check(amount: i128, due_date: u64, now: u64) -> Result<(), InvoiceError> {
    if amount <= 0 {
        Err(InvoiceError::InvalidAmount)
    } else if due_date <= now {
        Err(InvoiceError::InvalidDueDate)
    } else {
        Ok(())
    }
}

/// The invoice that creation stores: status Created, nothing paid yet.
pub open spec fn created_invoice(
    id: u64,
    issuer: Address,
    payer: Address,
    amount: i128,
    currency: String,
    due_date: u64,
    created_at: u64,
) -> Invoice {
    Invoice {
        id,
        issuer,
        payer,
        amount,
        currency,
        due_date,
        status: Status::Created,
        created_at,
        paid_amount: 0,
    }
}

/// Paid and Cancelled are the terminal states.
pub open spec fn is_terminal(s: Status) -> bool {
    s == Status::Paid || s == Status::Cancelled
}

/// What a payment of `amount` by `payer` makes of `inv`.
pub open spec fn payment_outcome(inv: Invoice, payer: Seq<char>, amount: i128) -> Result<
    Invoice,
    InvoiceError,
> {
    if amount <= 0 {
        Err(InvoiceError::InvalidAmount)
    } else if inv.payer@ != payer {
        Err(InvoiceError::UnauthorizedPayer)
    } else if is_terminal(inv.status) {
        Err(InvoiceError::InvoiceNotPayable)
    } else if !(i128::MIN <= inv.paid_amount + amount <= i128::MAX) {
        Err(InvoiceError::PaidAmountOverflow)
    } else if inv.paid_amount + amount > inv.amount {
        Err(InvoiceError::OverpaymentNotAllowed)
    } else {
        let new_paid = (inv.paid_amount + amount) as i128;
        Ok(
            Invoice {
                paid_amount: new_paid,
                status: if new_paid == inv.amount {
                    Status::Paid
                } else {
                    Status::PartiallyPaid
                },
                ..inv
            },
        )
    }
}

/// What a cancellation requested by `issuer` makes of `inv`.
pub open spec fn cancellation_outcome(inv: Invoice, issuer: Seq<char>) -> Result<
    Invoice,
    InvoiceError,
> {
    if inv.issuer@ != issuer {
        Err(InvoiceError::OnlyIssuerCanCancel)
    } else if inv.status == Status::Paid {
        Err(InvoiceError::CannotCancelPaidInvoice)
    } else if inv.status == Status::Cancelled {
        Err(InvoiceError::InvoiceNotPayable)
    } else {
        Ok(Invoice { status: Status::Cancelled, ..inv })
    }
}

/// What marking `inv` overdue at ledger time `now` makes of it: only a Created or
/// PartiallyPaid invoice whose due date has passed becomes Overdue.
pub open spec fn overdue_outcome(inv: Invoice, now: u64) -> Result<Invoice, InvoiceError> {
    if (inv.status == Status::Created || inv.status == Status::PartiallyPaid) && now
        > inv.due_date {
        Ok(Invoice { status: Status::Overdue, ..inv })
    } else {
        Err(InvoiceError::InvoiceNotPayable)
    }
}

/// Decides whether an invoice may be created.
pub fn check_new_invoice(amount: i128, due_date: u64, now: u64) -> (r: Result<(), InvoiceError>)
    ensures
        r == creation_check(amount, due_date, now),
{
    if amount <= 0 {
        return Err(InvoiceError::InvalidAmount);
    }
    if due_date <= now {
        return Err(InvoiceError::InvalidDueDate);
    }
    Ok(())
}

/// The first check on a payment, made before the invoice is looked up: the
/// amount must be positive.
pub fn check_payment_amount(amount: i128) -> (r: Result<(), InvoiceError>)
    ensures
        r == if amount <= 0 {
            Err::<(), InvoiceError>(InvoiceError::InvalidAmount)
        } else {
            Ok(())
        },
{
    if amount <= 0 {
        return Err(InvoiceError::InvalidAmount);
    }
    Ok(())
}

/// Applies a payment of `amount` by `payer` to `invoice`.
pub fn record_payment(invoice: Invoice, payer: &Address, amount: i128) -> (r: Result<
    Invoice,
    InvoiceError,
>)
    ensures
        r == payment_outcome(invoice, payer@, amount),
{
    if amount <= 0 {
        return Err(InvoiceError::InvalidAmount);
    }
    if invoice.payer != *payer {
        return Err(InvoiceError::UnauthorizedPayer);
    }
    if matches!(invoice.status, Status::Cancelled | Status::Paid) {
        return Err(InvoiceError::InvoiceNotPayable);
    }
    let new_paid = match invoice.paid_amount.checked_add(amount) {
        Some(v) => v,
        None => return Err(InvoiceError::PaidAmountOverflow),
    };
    if new_paid > invoice.amount {
        return Err(InvoiceError::OverpaymentNotAllowed);
    }
    let status = if new_paid == invoice.amount {
        Status::Paid
    } else {
        Status::PartiallyPaid
    };
    Ok(Invoice { paid_amount: new_paid, status, ..invoice })
}

/// Applies a cancellation requested by `issuer` to `invoice`.
pub fn cancel(invoice: Invoice, issuer: &Address) -> (r: Result<Invoice, InvoiceError>)
    ensures
        r == cancellation_outcome(invoice, issuer@),
{
    if invoice.issuer != *issuer {
        return Err(InvoiceError::OnlyIssuerCanCancel);
    }
    if matches!(invoice.status, Status::Paid) {
        return Err(InvoiceError::CannotCancelPaidInvoice);
    }
    if matches!(invoice.status, Status::Cancelled) {
        return Err(InvoiceError::InvoiceNotPayable);
    }
    Ok(Invoice { status: Status::Cancelled, ..invoice })
}

/// Marks `invoice` overdue if the ledger time `now` is past its due date and it is
/// still Created or PartiallyPaid.
pub fn mark_overdue_at(invoice: Invoice, now: u64) -> (r: Result<Invoice, InvoiceError>)
    ensures
        r == overdue_outcome(invoice, now),
{
    let is_active = matches!(invoice.status, Status::Created | Status::PartiallyPaid);
    let is_past_due = now > invoice.due_date;
    if !is_active || !is_past_due {
        return Err(InvoiceError::InvoiceNotPayable);
    }
    Ok(Invoice { status: Status::Overdue, ..invoice })
}

} // verus!
