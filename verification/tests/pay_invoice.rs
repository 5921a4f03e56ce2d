use stellar_invoice::{Address, InvoiceError, InvoiceEvent, Status, StellarInvoiceContract};

/// Ledger timestamp used as "now".
const NOW: u64 = 1_700_000_000;
/// A due date one day after `NOW`.
const FUTURE_DUE: u64 = NOW + 86_400;

fn xlm() -> String {
    String::from("XLM")
}

fn addr(s: &str) -> Address {
    Address::new(String::from(s))
}

fn setup() -> (StellarInvoiceContract, Address, Address) {
    (
        StellarInvoiceContract::new(NOW),
        addr("GISSUERAAAAAAAAAAAAAAAAAAAAAAAAAAAAAAAAAAAAAAAAAAAAAAAAA"),
        addr("GPAYERAAAAAAAAAAAAAAAAAAAAAAAAAAAAAAAAAAAAAAAAAAAAAAAAAA"),
    )
}

fn create_default_invoice(c: &mut StellarInvoiceContract, issuer: &Address, payer: &Address) -> u64 {
    c.create_invoice(issuer.clone(), payer.clone(), 1_000, xlm(), FUTURE_DUE).unwrap()
}

#[test]
fn full_payment_transitions_to_paid() {
    let (mut c, issuer, payer) = setup();
    let id = create_default_invoice(&mut c, &issuer, &payer);

    c.pay_invoice(id, payer.clone(), 1_000).unwrap();

    let inv = c.get_invoice(id).unwrap();
    assert_eq!(inv.status, Status::Paid);
    assert_eq!(inv.paid_amount, 1_000);
}

#[test]
fn partial_payment_transitions_to_partially_paid() {
    let (mut c, issuer, payer) = setup();
    let id = create_default_invoice(&mut c, &issuer, &payer);

    c.pay_invoice(id, payer.clone(), 400).unwrap();

    let inv = c.get_invoice(id).unwrap();
    assert_eq!(inv.status, Status::PartiallyPaid);
    assert_eq!(inv.paid_amount, 400);
}

#[test]
fn multiple_partial_payments_accumulate() {
    let (mut c, issuer, payer) = setup();
    let id = create_default_invoice(&mut c, &issuer, &payer);

    c.pay_invoice(id, payer.clone(), 300).unwrap();
    c.pay_invoice(id, payer.clone(), 300).unwrap();
    c.pay_invoice(id, payer.clone(), 400).unwrap();

    let inv = c.get_invoice(id).unwrap();
    assert_eq!(inv.status, Status::Paid);
    assert_eq!(inv.paid_amount, 1_000);
}

#[test]
fn pay_invoice_rejects_overpayment() {
    let (mut c, issuer, payer) = setup();
    let id = create_default_invoice(&mut c, &issuer, &payer);

    let err = c.pay_invoice(id, payer.clone(), 1_001).unwrap_err();
    assert_eq!(err, InvoiceError::OverpaymentNotAllowed);
}

#[test]
fn pay_invoice_rejects_overpayment_after_partial() {
    let (mut c, issuer, payer) = setup();
    let id = create_default_invoice(&mut c, &issuer, &payer);

    c.pay_invoice(id, payer.clone(), 800).unwrap();

    // 800 + 300 = 1100 > 1000
    let err = c.pay_invoice(id, payer.clone(), 300).unwrap_err();
    assert_eq!(err, InvoiceError::OverpaymentNotAllowed);
}

#[test]
fn pay_invoice_rejects_wrong_payer() {
    let (mut c, issuer, payer) = setup();
    let id = create_default_invoice(&mut c, &issuer, &payer);

    let impostor = addr("GIMPOSTORAAAAAAAAAAAAAAAAAAAAAAAAAAAAAAAAAAAAAAAAAAAAAA");

    let err = c.pay_invoice(id, impostor, 500).unwrap_err();
    assert_eq!(err, InvoiceError::UnauthorizedPayer);
}

#[test]
fn pay_invoice_rejects_zero_amount() {
    let (mut c, issuer, payer) = setup();
    let id = create_default_invoice(&mut c, &issuer, &payer);

    let err = c.pay_invoice(id, payer.clone(), 0).unwrap_err();
    assert_eq!(err, InvoiceError::InvalidAmount);
}

#[test]
fn pay_invoice_rejects_negative_amount() {
    let (mut c, issuer, payer) = setup();
    let id = create_default_invoice(&mut c, &issuer, &payer);

    let err = c.pay_invoice(id, payer.clone(), -10).unwrap_err();
    assert_eq!(err, InvoiceError::InvalidAmount);
}

#[test]
fn pay_invoice_unknown_id_returns_not_found() {
    let (mut c, _, payer) = setup();

    let err = c.pay_invoice(999, payer, 100).unwrap_err();
    assert_eq!(err, InvoiceError::InvoiceNotFound);
}

#[test]
fn cannot_pay_already_paid_invoice() {
    let (mut c, issuer, payer) = setup();
    let id = create_default_invoice(&mut c, &issuer, &payer);

    c.pay_invoice(id, payer.clone(), 1_000).unwrap();

    let err = c.pay_invoice(id, payer.clone(), 1).unwrap_err();
    assert_eq!(err, InvoiceError::InvoiceNotPayable);
}

#[test]
fn cannot_pay_cancelled_invoice() {
    let (mut c, issuer, payer) = setup();
    let id = create_default_invoice(&mut c, &issuer, &payer);

    c.cancel_invoice(id, issuer.clone()).unwrap();

    let err = c.pay_invoice(id, payer.clone(), 500).unwrap_err();
    assert_eq!(err, InvoiceError::InvoiceNotPayable);
}

#[test]
fn pay_invoice_emits_events() {
    let (mut c, issuer, payer) = setup();
    let id = create_default_invoice(&mut c, &issuer, &payer);
    c.pay_invoice(id, payer.clone(), 1_000).unwrap();

    assert_eq!(c.events().len(), 2);
    assert_eq!(
        c.events()[1],
        InvoiceEvent::Paid { id, payer: payer.clone(), amount_paid: 1_000, paid_total: 1_000 }
    );
}

#[test]
fn paid_amount_overflow_is_reported() {
    let (mut c, issuer, payer) = setup();
    let id = c.create_invoice(issuer.clone(), payer.clone(), i128::MAX, xlm(), FUTURE_DUE).unwrap();

    c.pay_invoice(id, payer.clone(), 10).unwrap();

    let err = c.pay_invoice(id, payer.clone(), i128::MAX).unwrap_err();
    assert_eq!(err, InvoiceError::PaidAmountOverflow);
    assert_eq!(err.code(), 5);
    assert_eq!(c.get_invoice(id).unwrap().paid_amount, 10);
}

#[test]
fn amount_is_checked_before_the_invoice_is_looked_up() {
    let (mut c, _, payer) = setup();

    let err = c.pay_invoice(999, payer, 0).unwrap_err();
    assert_eq!(err, InvoiceError::InvalidAmount);
}

#[test]
fn payer_is_checked_before_the_status() {
    let (mut c, issuer, payer) = setup();
    let id = create_default_invoice(&mut c, &issuer, &payer);
    c.pay_invoice(id, payer.clone(), 1_000).unwrap();

    let err = c.pay_invoice(id, issuer.clone(), 1).unwrap_err();
    assert_eq!(err, InvoiceError::UnauthorizedPayer);
}

#[test]
fn rejected_payment_changes_nothing() {
    let (mut c, issuer, payer) = setup();
    let id = create_default_invoice(&mut c, &issuer, &payer);
    c.pay_invoice(id, payer.clone(), 600).unwrap();

    let before = c.get_invoice(id).unwrap();
    let err = c.pay_invoice(id, payer.clone(), 401).unwrap_err();
    assert_eq!(err, InvoiceError::OverpaymentNotAllowed);
    assert_eq!(c.get_invoice(id).unwrap(), before);
    assert_eq!(c.events().len(), 2);
}

#[test]
fn overdue_invoice_can_still_be_paid() {
    let (mut c, issuer, payer) = setup();
    let id = create_default_invoice(&mut c, &issuer, &payer);
    c.set_timestamp(FUTURE_DUE + 1);
    c.mark_overdue(id).unwrap();

    c.pay_invoice(id, payer.clone(), 250).unwrap();
    assert_eq!(c.get_invoice(id).unwrap().status, Status::PartiallyPaid);

    c.pay_invoice(id, payer.clone(), 750).unwrap();
    assert_eq!(c.get_invoice(id).unwrap().status, Status::Paid);
}
