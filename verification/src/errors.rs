use vstd::prelude::*;

verus! {

/// Why a request against the invoice ledger was refused.
#[derive(Clone, Copy, Debug, PartialEq, Eq, PartialOrd, Ord, Structural)]
pub enum InvoiceError {
    /// No invoice exists for the given id.
    InvoiceNotFound,
    /// The caller is not the designated payer on this invoice.
    UnauthorizedPayer,
    /// The invoice is not in a state in which the requested transition applies.
    InvoiceNotPayable,
    /// The payment would push paid_amount above the invoice amount.
    OverpaymentNotAllowed,
    /// paid_amount + payment amount overflowed i128.
    PaidAmountOverflow,
    /// Caller is not the issuer; only the issuer may cancel.
    OnlyIssuerCanCancel,
    /// Invoice has been fully paid and cannot be cancelled.
    CannotCancelPaidInvoice,
    /// amount argument is zero or negative.
    InvalidAmount,
    /// due_date is not strictly in the future relative to the ledger timestamp.
    InvalidDueDate,
}

/// The stable numeric code of each error, as hosts report it.
pub open spec fn error_code(e: InvoiceError) -> u32 {
    match e {
        InvoiceError::InvoiceNotFound => 1,
        InvoiceError::UnauthorizedPayer => 2,
        InvoiceError::InvoiceNotPayable => 3,
        InvoiceError::OverpaymentNotAllowed => 4,
        InvoiceError::PaidAmountOverflow => 5,
        InvoiceError::OnlyIssuerCanCancel => 6,
        InvoiceError::CannotCancelPaidInvoice => 7,
        InvoiceError::InvalidAmount => 8,
        InvoiceError::InvalidDueDate => 9,
    }
}

impl InvoiceError {
    /// The numeric code under which the error is reported.
    pub fn code(self) -> (c: u32)
        ensures
            c == error_code(self),
    {
        match self {
            InvoiceError::InvoiceNotFound => 1,
            InvoiceError::UnauthorizedPayer => 2,
            InvoiceError::InvoiceNotPayable => 3,
            InvoiceError::OverpaymentNotAllowed => 4,
            InvoiceError::PaidAmountOverflow => 5,
            InvoiceError::OnlyIssuerCanCancel => 6,
            InvoiceError::CannotCancelPaidInvoice => 7,
            InvoiceError::InvalidAmount => 8,
            InvoiceError::InvalidDueDate => 9,
        }
    }

    /// The error whose code is `code`, if there is one.
    pub fn from_code(code: u32) -> (r: Option<InvoiceError>)
        ensures
            match r {
                Some(e) => error_code(e) == code,
                None => !(1 <= code <= 9),
            },
    {
        match code {
            1 => Some(InvoiceError::InvoiceNotFound),
            2 => Some(InvoiceError::UnauthorizedPayer),
            3 => Some(InvoiceError::InvoiceNotPayable),
            4 => Some(InvoiceError::OverpaymentNotAllowed),
            5 => Some(InvoiceError::PaidAmountOverflow),
            6 => Some(InvoiceError::OnlyIssuerCanCancel),
            7 => Some(InvoiceError::CannotCancelPaidInvoice),
            8 => Some(InvoiceError::InvalidAmount),
            9 => Some(InvoiceError::InvalidDueDate),
            _ => None,
        }
    }
}

} // verus!
