use stellar_invoice::{Address, InvoiceError, InvoiceEvent, Status, StellarInvoiceContract};

/// Ledger timestamp used as "now".
const NOW: u64 = 1_700_000_000;
/// A due date one day after `NOW`.
const FUTURE_DUE: u64 = NOW + 86_400;

fn xlm() -> String {
    String::from("XLM")
}

fn addr(s: &str) -> Address {
    Address::new(String::from(s))
}

fn setup() -> (StellarInvoiceContract, Address, Address) {
    (
        StellarInvoiceContract::new(NOW),
        addr("GISSUERAAAAAAAAAAAAAAAAAAAAAAAAAAAAAAAAAAAAAAAAAAAAAAAAA"),
        addr("GPAYERAAAAAAAAAAAAAAAAAAAAAAAAAAAAAAAAAAAAAAAAAAAAAAAAAA"),
    )
}

fn create_default_invoice(c: &mut StellarInvoiceContract, issuer: &Address, payer: &Address) -> u64 {
    c.create_invoice(issuer.clone(), payer.clone(), 1_000, xlm(), FUTURE_DUE).unwrap()
}

#[test]
fn cancel_created_invoice_succeeds() {
    let (mut c, issuer, payer) = setup();
    let id = create_default_invoice(&mut c, &issuer, &payer);

    c.cancel_invoice(id, issuer.clone()).unwrap();

    let inv = c.get_invoice(id).unwrap();
    assert_eq!(inv.status, Status::Cancelled);
}

#[test]
fn cancel_partially_paid_invoice_succeeds() {
    let (mut c, issuer, payer) = setup();
    let id = create_default_invoice(&mut c, &issuer, &payer);

    c.pay_invoice(id, payer.clone(), 200).unwrap();
    c.cancel_invoice(id, issuer.clone()).unwrap();

    let inv = c.get_invoice(id).unwrap();
    assert_eq!(inv.status, Status::Cancelled);
}

#[test]
fn cancel_paid_invoice_returns_error() {
    let (mut c, issuer, payer) = setup();
    let id = create_default_invoice(&mut c, &issuer, &payer);

    c.pay_invoice(id, payer.clone(), 1_000).unwrap();

    let err = c.cancel_invoice(id, issuer.clone()).unwrap_err();
    assert_eq!(err, InvoiceError::CannotCancelPaidInvoice);
}

#[test]
fn double_cancel_returns_error() {
    let (mut c, issuer, payer) = setup();
    let id = create_default_invoice(&mut c, &issuer, &payer);

    c.cancel_invoice(id, issuer.clone()).unwrap();

    let err = c.cancel_invoice(id, issuer.clone()).unwrap_err();
    assert_eq!(err, InvoiceError::InvoiceNotPayable);
}

#[test]
fn cancel_by_wrong_issuer_returns_error() {
    let (mut c, issuer, payer) = setup();
    let id = create_default_invoice(&mut c, &issuer, &payer);

    let impostor = addr("GIMPOSTORAAAAAAAAAAAAAAAAAAAAAAAAAAAAAAAAAAAAAAAAAAAAAA");

    let err = c.cancel_invoice(id, impostor).unwrap_err();
    assert_eq!(err, InvoiceError::OnlyIssuerCanCancel);
}

#[test]
fn cancel_unknown_invoice_returns_not_found() {
    let (mut c, issuer, _) = setup();

    let err = c.cancel_invoice(999, issuer).unwrap_err();
    assert_eq!(err, InvoiceError::InvoiceNotFound);
}

#[test]
fn cancel_overdue_invoice_succeeds() {
    let (mut c, issuer, payer) = setup();
    let id = create_default_invoice(&mut c, &issuer, &payer);
    c.set_timestamp(FUTURE_DUE + 1);
    c.mark_overdue(id).unwrap();

    c.cancel_invoice(id, issuer.clone()).unwrap();
    assert_eq!(c.get_invoice(id).unwrap().status, Status::Cancelled);
}

#[test]
fn payer_cannot_cancel() {
    let (mut c, issuer, payer) = setup();
    let id = create_default_invoice(&mut c, &issuer, &payer);

    let err = c.cancel_invoice(id, payer.clone()).unwrap_err();
    assert_eq!(err, InvoiceError::OnlyIssuerCanCancel);
    assert_eq!(c.get_invoice(id).unwrap().status, Status::Created);
}

#[test]
fn cancellation_is_published() {
    let (mut c, issuer, payer) = setup();
    let id = create_default_invoice(&mut c, &issuer, &payer);

    c.cancel_invoice(id, issuer.clone()).unwrap();

    assert_eq!(c.events().len(), 2);
    assert_eq!(c.events()[1], InvoiceEvent::Cancelled { id, issuer: issuer.clone() });
}
