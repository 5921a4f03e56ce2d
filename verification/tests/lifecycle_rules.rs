use stellar_invoice::lifecycle::{cancel, check_new_invoice, mark_overdue_at, record_payment};
use stellar_invoice::{Address, Invoice, InvoiceError, Status};

fn addr(s: &str) -> Address {
    Address::new(String::from(s))
}

fn invoice(status: Status, paid: i128) -> Invoice {
    Invoice {
        id: 7,
        issuer: addr("GISSUER"),
        payer: addr("GPAYER"),
        amount: 1_000,
        currency: String::from("XLM"),
        due_date: 2_000,
        status,
        created_at: 1_000,
        paid_amount: paid,
    }
}

#[test]
fn new_invoice_checks_amount_then_due_date() {
    assert_eq!(check_new_invoice(1, 11, 10), Ok(()));
    assert_eq!(check_new_invoice(0, 11, 10), Err(InvoiceError::InvalidAmount));
    assert_eq!(check_new_invoice(-5, 5, 10), Err(InvoiceError::InvalidAmount));
    assert_eq!(check_new_invoice(1, 10, 10), Err(InvoiceError::InvalidDueDate));
    assert_eq!(check_new_invoice(1, 9, 10), Err(InvoiceError::InvalidDueDate));
}

#[test]
fn payment_adds_to_paid_amount_and_keeps_terms() {
    let before = invoice(Status::Created, 0);
    let after = record_payment(before.clone(), &addr("GPAYER"), 250).unwrap();
    assert_eq!(after.paid_amount, 250);
    assert_eq!(after.status, Status::PartiallyPaid);
    assert_eq!(after.id, before.id);
    assert_eq!(after.issuer, before.issuer);
    assert_eq!(after.payer, before.payer);
    assert_eq!(after.amount, before.amount);
    assert_eq!(after.currency, before.currency);
    assert_eq!(after.due_date, before.due_date);
    assert_eq!(after.created_at, before.created_at);

    let full = record_payment(after, &addr("GPAYER"), 750).unwrap();
    assert_eq!(full.paid_amount, 1_000);
    assert_eq!(full.status, Status::Paid);
}

#[test]
fn payment_errors_follow_their_order() {
    let payer = addr("GPAYER");
    assert_eq!(
        record_payment(invoice(Status::Paid, 1_000), &addr("GOTHER"), 0),
        Err(InvoiceError::InvalidAmount)
    );
    assert_eq!(
        record_payment(invoice(Status::Paid, 1_000), &addr("GOTHER"), 1),
        Err(InvoiceError::UnauthorizedPayer)
    );
    assert_eq!(
        record_payment(invoice(Status::Cancelled, 0), &payer, 1),
        Err(InvoiceError::InvoiceNotPayable)
    );
    assert_eq!(
        record_payment(invoice(Status::PartiallyPaid, 999), &payer, 2),
        Err(InvoiceError::OverpaymentNotAllowed)
    );
    let mut huge = invoice(Status::PartiallyPaid, 1);
    huge.amount = i128::MAX;
    assert_eq!(record_payment(huge, &payer, i128::MAX), Err(InvoiceError::PaidAmountOverflow));
}

#[test]
fn cancellation_rules() {
    let issuer = addr("GISSUER");
    assert_eq!(cancel(invoice(Status::Created, 0), &issuer).unwrap().status, Status::Cancelled);
    assert_eq!(
        cancel(invoice(Status::Overdue, 10), &issuer).unwrap().status,
        Status::Cancelled
    );
    assert_eq!(
        cancel(invoice(Status::Paid, 1_000), &addr("GPAYER")),
        Err(InvoiceError::OnlyIssuerCanCancel)
    );
    assert_eq!(
        cancel(invoice(Status::Paid, 1_000), &issuer),
        Err(InvoiceError::CannotCancelPaidInvoice)
    );
    assert_eq!(
        cancel(invoice(Status::Cancelled, 0), &issuer),
        Err(InvoiceError::InvoiceNotPayable)
    );
}

#[test]
fn overdue_rules() {
    assert_eq!(
        mark_overdue_at(invoice(Status::Created, 0), 2_001).unwrap().status,
        Status::Overdue
    );
    assert_eq!(
        mark_overdue_at(invoice(Status::PartiallyPaid, 5), 2_001).unwrap().status,
        Status::Overdue
    );
    assert_eq!(
        mark_overdue_at(invoice(Status::Created, 0), 2_000),
        Err(InvoiceError::InvoiceNotPayable)
    );
    for s in [Status::Paid, Status::Overdue, Status::Cancelled] {
        assert_eq!(mark_overdue_at(invoice(s, 0), 5_000), Err(InvoiceError::InvoiceNotPayable));
    }
}

#[test]
fn terminal_states_refuse_every_transition() {
    let issuer = addr("GISSUER");
    let payer = addr("GPAYER");
    for (status, paid) in [(Status::Paid, 1_000), (Status::Cancelled, 100)] {
        assert!(record_payment(invoice(status, paid), &payer, 1).is_err());
        assert!(cancel(invoice(status, paid), &issuer).is_err());
        assert!(mark_overdue_at(invoice(status, paid), 9_999).is_err());
    }
}
