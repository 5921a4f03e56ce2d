use stellar_invoice::storage::Storage;
use stellar_invoice::{Address, Invoice, Status};

fn addr(s: &str) -> Address {
    Address::new(String::from(s))
}

fn invoice(id: u64) -> Invoice {
    Invoice {
        id,
        issuer: addr("GISSUER"),
        payer: addr("GPAYER"),
        amount: 10,
        currency: String::from("XLM"),
        due_date: 20,
        status: Status::Created,
        created_at: 1,
        paid_amount: 0,
    }
}

#[test]
fn counter_starts_at_zero_and_increments() {
    let mut s = Storage::new();
    assert_eq!(s.get_counter(), 0);
    assert_eq!(s.increment_counter(), 1);
    assert_eq!(s.increment_counter(), 2);
    assert_eq!(s.get_counter(), 2);
}

#[test]
fn load_reads_back_what_store_wrote() {
    let mut s = Storage::new();
    assert_eq!(s.load_invoice(3), None);
    s.store_invoice(&invoice(3));
    assert_eq!(s.load_invoice(3), Some(invoice(3)));
    let mut changed = invoice(3);
    changed.status = Status::Cancelled;
    s.store_invoice(&changed);
    assert_eq!(s.load_invoice(3), Some(changed));
    assert_eq!(s.load_invoice(4), None);
}

#[test]
fn address_lists_keep_push_order() {
    let mut s = Storage::new();
    let a = addr("GA");
    let b = addr("GB");
    assert!(s.get_invoices_for_address(&a).is_empty());
    s.push_invoice_to_address(&a, 1);
    s.push_invoice_to_address(&b, 1);
    s.push_invoice_to_address(&a, 2);
    s.push_invoice_to_address(&a, 2);
    assert_eq!(s.get_invoices_for_address(&a), vec![1, 2, 2]);
    assert_eq!(s.get_invoices_for_address(&b), vec![1]);
    assert!(s.get_invoices_for_address(&addr("GC")).is_empty());
}
