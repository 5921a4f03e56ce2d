//! The invoice contract: its storage, the ledger clock it reads and the events it
//! publishes, with the six operations of the invoice lifecycle.
use vstd::prelude::*;

use crate::errors::InvoiceError;
use crate::events::{
    emit_invoice_cancelled, emit_invoice_created, emit_invoice_overdue, emit_invoice_paid,
    InvoiceEvent,
};
use crate::lifecycle::{
    cancel, cancellation_outcome, check_new_invoice, check_payment_amount, created_invoice, creation_check,
    mark_overdue_at, overdue_outcome, payment_outcome, record_payment,
};
use crate::storage::Storage;
use crate::types::{Address, Invoice, Status};

verus! {

/// The ids that invoice `inv` contributes to the list of address `a`: its id once
/// when `a` is the issuer, then once more when `a` is the payer.
pub open spec fn roles_of(inv: Invoice, a: Seq<char>) -> Seq<u64> {
    (if inv.issuer@ == a {
        seq![inv.id]
    } else {
        Seq::empty()
    }) + (if inv.payer@ == a {
        seq![inv.id]
    } else {
        Seq::empty()
    })
}

/// The list of address `a` over the invoices with ids 1 to `n`, in creation order.
pub open spec fn ids_for_address(invoices: Map<u64, Invoice>, n: nat, a: Seq<char>) -> Seq<u64>
    decreases n,
{
    if n == 0 {
        Seq::empty()
    } else {
        ids_for_address(invoices, (n - 1) as nat, a) + roles_of(invoices[n as u64], a)
    }
}

/// What every stored invoice satisfies: it carries its own key as id, a positive
/// amount, a paid amount within [0, amount], a due date after its creation, and a
/// status that agrees with how much has been paid.
pub open spec fn invoice_wf(inv: Invoice, id: u64) -> bool {
    &&& inv.id == id
    &&& inv.amount > 0
    &&& 0 <= inv.paid_amount <= inv.amount
    &&& inv.created_at < inv.due_date
    &&& match inv.status {
        Status::Created => inv.paid_amount == 0,
        Status::PartiallyPaid => 0 < inv.paid_amount < inv.amount,
        Status::Paid => inv.paid_amount == inv.amount,
        Status::Overdue => inv.paid_amount < inv.amount,
        Status::Cancelled => inv.paid_amount < inv.amount,
    }
}

/// Lists over maps that agree on the roles of ids 1 to `n` are equal.
pub proof fn lemma_ids_for_address_congruent(
    m1: Map<u64, Invoice>,
    m2: Map<u64, Invoice>,
    n: nat,
    a: Seq<char>,
)
    requires
        n <= u64::MAX,
        forall|k: u64| 1 <= k <= n ==> #[trigger] roles_of(m1[k], a) == roles_of(m2[k], a),
    ensures
        ids_for_address(m1, n, a) == ids_for_address(m2, n, a),
    decreases n,
{
    if n > 0 {
        lemma_ids_for_address_congruent(m1, m2, (n - 1) as nat, a);
        assert(roles_of(m1[n as u64], a) == roles_of(m2[n as u64], a));
    }
}

/// Adding invoice `n + 1` appends its roles to every list.
pub proof fn lemma_ids_for_address_extend(m: Map<u64, Invoice>, n: nat, inv: Invoice, a: Seq<char>)
    requires
        n < u64::MAX,
    ensures
        ids_for_address(m.insert((n + 1) as u64, inv), n + 1, a) == ids_for_address(m, n, a)
            + roles_of(inv, a),
{
    let m2 = m.insert((n + 1) as u64, inv);
    assert forall|k: u64| 1 <= k <= n implies #[trigger] roles_of(m2[k], a) == roles_of(m[k], a) by {
        assert(m2[k] == m[k]);
    }
    lemma_ids_for_address_congruent(m2, m, n, a);
    assert(m2[(n + 1) as u64] == inv);
}

/// Replacing an invoice by one with the same id, issuer and payer changes no list.
pub proof fn lemma_ids_for_address_replace(
    m: Map<u64, Invoice>,
    n: nat,
    id: u64,
    inv: Invoice,
    a: Seq<char>,
)
    requires
        m.contains_key(id),
        inv.id == m[id].id,
        inv.issuer == m[id].issuer,
        inv.payer == m[id].payer,
        n <= u64::MAX,
    ensures
        ids_for_address(m.insert(id, inv), n, a) == ids_for_address(m, n, a),
{
    let m2 = m.insert(id, inv);
    assert forall|k: u64| 1 <= k <= n implies #[trigger] roles_of(m2[k], a) == roles_of(m[k], a) by {
        if k == id {
            assert(roles_of(m2[k], a) =~= roles_of(m[k], a));
        }
    }
    lemma_ids_for_address_congruent(m2, m, n, a);
}

/// An invoice contract: storage, the ledger clock and the log of published events.
pub struct StellarInvoiceContract {
    storage: Storage,
    timestamp: u64,
    events: Vec<InvoiceEvent>,
}

/// `after` holds the same storage, clock and events as `before`.
pub open spec fn unchanged(before: StellarInvoiceContract, after: StellarInvoiceContract) -> bool {
    &&& after.counter() == before.counter()
    &&& after.invoices() == before.invoices()
    &&& forall|a: Seq<char>| #[trigger] after.address_index(a) == before.address_index(a)
    &&& after.event_log() == before.event_log()
    &&& after.ledger_timestamp() == before.ledger_timestamp()
}

/// `after` differs from `before` only in the invoice stored under `id`, now `inv`,
/// and in one more published event, `event`.
pub open spec fn updated(
    before: StellarInvoiceContract,
    after: StellarInvoiceContract,
    id: u64,
    inv: Invoice,
    event: InvoiceEvent,
) -> bool {
    &&& after.counter() == before.counter()
    &&& after.invoices() == before.invoices().insert(id, inv)
    &&& forall|a: Seq<char>| #[trigger] after.address_index(a) == before.address_index(a)
    &&& after.event_log() == before.event_log().push(event)
    &&& after.ledger_timestamp() == before.ledger_timestamp()
}

/// `after` is `before` with the new invoice `inv` stored under the next id,
/// listed under its issuer and its payer, and announced by a Created event.
pub open spec fn added(before: StellarInvoiceContract, after: StellarInvoiceContract, inv: Invoice) -> bool {
    &&& inv.id == before.counter() + 1
    &&& after.counter() == inv.id
    &&& after.invoices() == before.invoices().insert(inv.id, inv)
    &&& forall|a: Seq<char>| #[trigger]
        after.address_index(a) == before.address_index(a) + roles_of(inv, a)
    &&& after.event_log() == before.event_log().push(
        InvoiceEvent::Created {
            id: inv.id,
            issuer: inv.issuer,
            payer: inv.payer,
            amount: inv.amount,
            currency: inv.currency,
            due_date: inv.due_date,
        },
    )
    &&& after.ledger_timestamp() == before.ledger_timestamp()
}

impl StellarInvoiceContract {
    /// The number of invoices created so far; also the last id handed out.
    pub closed spec fn counter(&self) -> u64 {
        self.storage.counter()
    }

    /// The stored invoices, by id.
    pub closed spec fn invoices(&self) -> Map<u64, Invoice> {
        self.storage.invoices()
    }

    /// The ids listed for the address `a`.
    pub closed spec fn address_index(&self, a: Seq<char>) -> Seq<u64> {
        self.storage.indexed_ids(a)
    }

    /// The events published so far, oldest first.
    pub closed spec fn event_log(&self) -> Seq<InvoiceEvent> {
        self.events@
    }

    /// The ledger timestamp, in seconds.
    pub closed spec fn ledger_timestamp(&self) -> u64 {
        self.timestamp
    }

    /// The ids are exactly 1 to the counter, every stored invoice is consistent,
    /// and each address lists the invoices it issued or owes, in creation order.
    pub open spec fn wf(&self) -> bool {
        &&& forall|id: u64| #[trigger]
            self.invoices().contains_key(id) <==> 1 <= id <= self.counter()
        &&& forall|id: u64| #[trigger]
            self.invoices().contains_key(id) ==> invoice_wf(self.invoices()[id], id)
        &&& forall|a: Seq<char>| #[trigger]
            self.address_index(a) == ids_for_address(self.invoices(), self.counter() as nat, a)
    }

    /// What `pay_invoice(id, payer, amount)` yields: the amount is checked first,
    /// then that the invoice exists, then the rules of a payment.
    pub open spec fn payment_result(&self, id: u64, payer: Seq<char>, amount: i128) -> Result<
        Invoice,
        InvoiceError,
    > {
        if amount <= 0 {
            Err(InvoiceError::InvalidAmount)
        } else if !self.invoices().contains_key(id) {
            Err(InvoiceError::InvoiceNotFound)
        } else {
            payment_outcome(self.invoices()[id], payer, amount)
        }
    }

    /// What `cancel_invoice(id, issuer)` yields.
    pub open spec fn cancellation_result(&self, id: u64, issuer: Seq<char>) -> Result<
        Invoice,
        InvoiceError,
    > {
        if !self.invoices().contains_key(id) {
            Err(InvoiceError::InvoiceNotFound)
        } else {
            cancellation_outcome(self.invoices()[id], issuer)
        }
    }

    /// What `mark_overdue(id)` yields at the current ledger time.
    pub open spec fn overdue_result(&self, id: u64) -> Result<Invoice, InvoiceError> {
        if !self.invoices().contains_key(id) {
            Err(InvoiceError::InvoiceNotFound)
        } else {
            overdue_outcome(self.invoices()[id], self.ledger_timestamp())
        }
    }

    /// A contract with no invoices, no events, and the ledger clock at `timestamp`.
    pub fn new(timestamp: u64) -> (c: StellarInvoiceContract)
        ensures
            c.wf(),
            c.counter() == 0,
            c.invoices() == Map::<u64, Invoice>::empty(),
            forall|a: Seq<char>| #[trigger] c.address_index(a) == Seq::<u64>::empty(),
            c.event_log() == Seq::<InvoiceEvent>::empty(),
            c.ledger_timestamp() == timestamp,
    {
        StellarInvoiceContract { storage: Storage::new(), timestamp, events: Vec::new() }
    }

    /// The ledger timestamp.
    pub fn timestamp(&self) -> (t: u64)
        ensures
            t == self.ledger_timestamp(),
    {
        self.timestamp
    }

    /// Moves the ledger clock to `timestamp`; nothing else changes.
    pub fn set_timestamp(&mut self, timestamp: u64)
        ensures
            final(self).ledger_timestamp() == timestamp,
            final(self).counter() == old(self).counter(),
            final(self).invoices() == old(self).invoices(),
            forall|a: Seq<char>| #[trigger]
                final(self).address_index(a) == old(self).address_index(a),
            final(self).event_log() == old(self).event_log(),
            old(self).wf() ==> final(self).wf(),
    {
        self.timestamp = timestamp;
        proof {
            if old(self).wf() {
                assert(self.counter() == old(self).counter());
                assert(self.invoices() == old(self).invoices());
                assert forall|id: u64| #[trigger] self.invoices().contains_key(id) implies
                    invoice_wf(self.invoices()[id], id) by {
                    assert(old(self).invoices().contains_key(id));
                }
                assert forall|a: Seq<char>| #[trigger] self.address_index(a) == ids_for_address(
                    self.invoices(),
                    self.counter() as nat,
                    a,
                ) by {
                    assert(old(self).address_index(a) == ids_for_address(
                        old(self).invoices(),
                        old(self).counter() as nat,
                        a,
                    ));
                }
            }
        }
    }

    /// The events published so far, oldest first.
    pub fn events(&self) -> (log: &Vec<InvoiceEvent>)
        ensures
            log@ == self.event_log(),
    {
        &self.events
    }

    /// Creates an invoice that `issuer` raises against `payer` and returns its id.
    ///
    /// Errors: `InvalidAmount` when amount <= 0; `InvalidDueDate` when due_date is
    /// not strictly after the ledger timestamp.
    pub fn create_invoice(
        &mut self,
        issuer: Address,
        payer: Address,
        amount: i128,
        currency: String,
        due_date: u64,
    ) -> (r: Result<u64, InvoiceError>)
        requires
            old(self).wf(),
            creation_check(amount, due_date, old(self).ledger_timestamp()) is Ok ==> old(
                self,
            ).counter() < u64::MAX,
        ensures
            final(self).wf(),
            match creation_check(amount, due_date, old(self).ledger_timestamp()) {
                Err(e) => r == Err::<u64, InvoiceError>(e) && unchanged(*old(self), *final(self)),
                Ok(_) => {
                    let id = (old(self).counter() + 1) as u64;
                    let inv = created_invoice(
                        id,
                        issuer,
                        payer,
                        amount,
                        currency,
                        due_date,
                        old(self).ledger_timestamp(),
                    );
                    &&& r == Ok::<u64, InvoiceError>(id)
                    &&& added(*old(self), *final(self), inv)
                },
            },
    {
        let now = self.timestamp;
        match check_new_invoice(amount, due_date, now) {
            Err(e) => return Err(e),
            Ok(()) => {},
        }
        let id = self.storage.increment_counter();
        let invoice = Invoice {
            id,
            issuer: issuer.clone(),
            payer: payer.clone(),
            amount,
            currency: currency.clone(),
            due_date,
            status: Status::Created,
            created_at: now,
            paid_amount: 0,
        };
        let ghost before = *old(self);
        let ghost inv = invoice;
        self.storage.store_invoice(&invoice);
        self.storage.push_invoice_to_address(&issuer, id);
        self.storage.push_invoice_to_address(&payer, id);
        emit_invoice_created(&mut self.events, id, &issuer, &payer, amount, currency, due_date);
        proof {
            let n = before.counter() as nat;
            assert forall|a: Seq<char>| #[trigger]
                self.address_index(a) == before.address_index(a) + roles_of(inv, a) by {
                assert(self.address_index(a) =~= before.address_index(a) + roles_of(inv, a));
            }
            assert forall|a: Seq<char>| #[trigger]
                self.address_index(a) == ids_for_address(self.invoices(), self.counter() as nat, a) by {
                lemma_ids_for_address_extend(before.invoices(), n, inv, a);
            }
            assert forall|k: u64| #[trigger]
                self.invoices().contains_key(k) implies invoice_wf(self.invoices()[k], k) by {
                if k != id {
                    assert(before.invoices().contains_key(k));
                }
            }
            assert forall|k: u64| #[trigger]
                self.invoices().contains_key(k) <==> 1 <= k <= self.counter() by {
                if k != id {
                    assert(before.invoices().contains_key(k) <==> 1 <= k <= before.counter());
                }
            }
        }
        Ok(id)
    }

    /// Records a payment of `amount` by `payer` against invoice `invoice_id`.
    /// A partial payment leaves the invoice PartiallyPaid; the payment that
    /// reaches the amount makes it Paid.
    ///
    /// Errors, in the order they are checked: `InvalidAmount`, `InvoiceNotFound`,
    /// `UnauthorizedPayer`, `InvoiceNotPayable` (Paid or Cancelled),
    /// `PaidAmountOverflow`, `OverpaymentNotAllowed`.
    pub fn pay_invoice(&mut self, invoice_id: u64, payer: Address, amount: i128) -> (r: Result<
        (),
        InvoiceError,
    >)
        requires
            old(self).wf(),
        ensures
            final(self).wf(),
            match old(self).payment_result(invoice_id, payer@, amount) {
                Err(e) => r == Err::<(), InvoiceError>(e) && unchanged(*old(self), *final(self)),
                Ok(inv) => r == Ok::<(), InvoiceError>(()) && updated(
                    *old(self),
                    *final(self),
                    invoice_id,
                    inv,
                    InvoiceEvent::Paid {
                        id: invoice_id,
                        payer,
                        amount_paid: amount,
                        paid_total: inv.paid_amount,
                    },
                ),
            },
    {
        match check_payment_amount(amount) {
            Err(e) => return Err(e),
            Ok(()) => {},
        }
        let invoice = match self.storage.load_invoice(invoice_id) {
            Some(inv) => inv,
            None => return Err(InvoiceError::InvoiceNotFound),
        };
        let updated_invoice = match record_payment(invoice, &payer, amount) {
            Ok(inv) => inv,
            Err(e) => return Err(e),
        };
        let ghost before = *old(self);
        let ghost inv = updated_invoice;
        let new_paid = updated_invoice.paid_amount;
        self.storage.store_invoice(&updated_invoice);
        emit_invoice_paid(&mut self.events, invoice_id, &payer, amount, new_paid);
        proof {
            self.lemma_replace_keeps_wf(before, invoice_id, inv);
        }
        Ok(())
    }

    /// The invoice stored under `invoice_id`; `InvoiceNotFound` when there is none.
    pub fn get_invoice(&self, invoice_id: u64) -> (r: Result<Invoice, InvoiceError>)
        ensures
            r == if self.invoices().contains_key(invoice_id) {
                Ok::<Invoice, InvoiceError>(self.invoices()[invoice_id])
            } else {
                Err::<Invoice, InvoiceError>(InvoiceError::InvoiceNotFound)
            },
    {
        match self.storage.load_invoice(invoice_id) {
            Some(inv) => Ok(inv),
            None => Err(InvoiceError::InvoiceNotFound),
        }
    }

    /// Cancels invoice `invoice_id` at the request of `issuer`. Created,
    /// PartiallyPaid and Overdue invoices can be cancelled; a Paid one cannot.
    ///
    /// Errors, in the order they are checked: `InvoiceNotFound`,
    /// `OnlyIssuerCanCancel`, `CannotCancelPaidInvoice`, `InvoiceNotPayable`
    /// (already cancelled).
    pub fn cancel_invoice(&mut self, invoice_id: u64, issuer: Address) -> (r: Result<
        (),
        InvoiceError,
    >)
        requires
            old(self).wf(),
        ensures
            final(self).wf(),
            match old(self).cancellation_result(invoice_id, issuer@) {
                Err(e) => r == Err::<(), InvoiceError>(e) && unchanged(*old(self), *final(self)),
                Ok(inv) => r == Ok::<(), InvoiceError>(()) && updated(
                    *old(self),
                    *final(self),
                    invoice_id,
                    inv,
                    InvoiceEvent::Cancelled { id: invoice_id, issuer },
                ),
            },
    {
        let invoice = match self.storage.load_invoice(invoice_id) {
            Some(inv) => inv,
            None => return Err(InvoiceError::InvoiceNotFound),
        };
        let updated_invoice = match cancel(invoice, &issuer) {
            Ok(inv) => inv,
            Err(e) => return Err(e),
        };
        let ghost before = *old(self);
        let ghost inv = updated_invoice;
        self.storage.store_invoice(&updated_invoice);
        emit_invoice_cancelled(&mut self.events, invoice_id, &issuer);
        proof {
            self.lemma_replace_keeps_wf(before, invoice_id, inv);
        }
        Ok(())
    }

    /// The ids of the invoices in which `addr` is the issuer or the payer, in
    /// creation order (an id twice when `addr` is both); empty for an address
    /// that has none.
    pub fn list_invoices_by_address(&self, addr: Address) -> (ids: Vec<u64>)
        ensures
            ids@ == self.address_index(addr@),
    {
        self.storage.get_invoices_for_address(&addr)
    }

    /// Marks invoice `invoice_id` Overdue when it is Created or PartiallyPaid and
    /// the ledger timestamp is past its due date. Anyone may call it.
    ///
    /// Errors: `InvoiceNotFound`; `InvoiceNotPayable` when the invoice is in
    /// another state or its due date has not passed.
    pub fn mark_overdue(&mut self, invoice_id: u64) -> (r: Result<(), InvoiceError>)
        requires
            old(self).wf(),
        ensures
            final(self).wf(),
            match old(self).overdue_result(invoice_id) {
                Err(e) => r == Err::<(), InvoiceError>(e) && unchanged(*old(self), *final(self)),
                Ok(inv) => r == Ok::<(), InvoiceError>(()) && updated(
                    *old(self),
                    *final(self),
                    invoice_id,
                    inv,
                    InvoiceEvent::Overdue { id: invoice_id, due_date: inv.due_date },
                ),
            },
    {
        let invoice = match self.storage.load_invoice(invoice_id) {
            Some(inv) => inv,
            None => return Err(InvoiceError::InvoiceNotFound),
        };
        let updated_invoice = match mark_overdue_at(invoice, self.timestamp) {
            Ok(inv) => inv,
            Err(e) => return Err(e),
        };
        let ghost before = *old(self);
        let ghost inv = updated_invoice;
        let due_date = updated_invoice.due_date;
        self.storage.store_invoice(&updated_invoice);
        emit_invoice_overdue(&mut self.events, invoice_id, due_date);
        proof {
            self.lemma_replace_keeps_wf(before, invoice_id, inv);
        }
        Ok(())
    }

    /// Storing a consistent invoice with the same id, issuer and payer over an
    /// existing one keeps the contract well formed.
    proof fn lemma_replace_keeps_wf(&self, before: StellarInvoiceContract, id: u64, inv: Invoice)
        requires
            before.wf(),
            before.invoices().contains_key(id),
            invoice_wf(inv, id),
            inv.issuer == before.invoices()[id].issuer,
            inv.payer == before.invoices()[id].payer,
            self.counter() == before.counter(),
            self.invoices() == before.invoices().insert(id, inv),
            forall|a: Seq<char>| #[trigger] self.address_index(a) == before.address_index(a),
        ensures
            self.wf(),
    {
        assert forall|a: Seq<char>| #[trigger]
            self.address_index(a) == ids_for_address(self.invoices(), self.counter() as nat, a) by {
            lemma_ids_for_address_replace(before.invoices(), before.counter() as nat, id, inv, a);
        }
    }
}

} // verus!
