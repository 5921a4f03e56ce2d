//! Properties of the invoice ledger that hold across operations and states.
use vstd::prelude::*;

use crate::contract::{added, ids_for_address, invoice_wf, roles_of, StellarInvoiceContract};
use crate::errors::InvoiceError;
use crate::lifecycle::{
    cancellation_outcome, created_invoice, creation_check, is_terminal, overdue_outcome, payment_outcome,
};
use crate::storage::Storage;
use crate::types::{Address, Invoice, Status};

verus! {

/// Every stored invoice is consistent: its amount is positive, what has been paid
/// lies between 0 and the amount, and its status says how much: Created means
/// nothing was paid, PartiallyPaid some but not all, and the invoice is Paid
/// exactly when the whole amount has been paid.
pub proof fn lemma_stored_invoices_consistent(c: StellarInvoiceContract, id: u64)
    requires
        c.wf(),
        c.invoices().contains_key(id),
    ensures
        c.invoices()[id].id == id,
        c.invoices()[id].amount > 0,
        0 <= c.invoices()[id].paid_amount <= c.invoices()[id].amount,
        c.invoices()[id].status == Status::Created ==> c.invoices()[id].paid_amount == 0,
        c.invoices()[id].status == Status::PartiallyPaid ==> 0 < c.invoices()[id].paid_amount
            < c.invoices()[id].amount,
        c.invoices()[id].status == Status::Paid <==> c.invoices()[id].paid_amount
            == c.invoices()[id].amount,
        c.invoices()[id].created_at < c.invoices()[id].due_date,
{
    assert(invoice_wf(c.invoices()[id], id));
}

/// Invoice ids are handed out in sequence from 1: the stored ids are exactly
/// 1 to the number of invoices created.
pub proof fn lemma_ids_are_sequential(c: StellarInvoiceContract, id: u64)
    requires
        c.wf(),
    ensures
        c.invoices().contains_key(id) <==> 1 <= id <= c.counter(),
{
}

proof fn lemma_ids_for_address_contains(m: Map<u64, Invoice>, n: nat, a: Seq<char>, id: u64)
    requires
        n <= u64::MAX,
        forall|k: u64| 1 <= k <= n ==> (#[trigger] m[k]).id == k,
    ensures
        ids_for_address(m, n, a).contains(id) <==> (1 <= id <= n && (m[id].issuer@ == a
            || m[id].payer@ == a)),
    decreases n,
{
    if n > 0 {
        let prev = ids_for_address(m, (n - 1) as nat, a);
        let last = roles_of(m[n as u64], a);
        lemma_ids_for_address_contains(m, (n - 1) as nat, a, id);
        assert(m[n as u64].id == n);
        assert(ids_for_address(m, n, a) == prev + last);
        if (prev + last).contains(id) {
            let i = choose|i: int| 0 <= i < (prev + last).len() && (prev + last)[i] == id;
            if i >= prev.len() {
                assert(last[i - prev.len()] == id);
            } else {
                assert(prev[i] == id);
            }
        }
        if 1 <= id <= n && (m[id].issuer@ == a || m[id].payer@ == a) {
            if id == n {
                if m[id].issuer@ == a {
                    assert((prev + last)[prev.len() as int] == id);
                } else {
                    assert((prev + last)[(prev.len() + last.len() - 1) as int] == id);
                }
            } else {
                let i = choose|i: int| 0 <= i < prev.len() && prev[i] == id;
                assert((prev + last)[i] == id);
            }
        }
    }
}

/// An address's list holds exactly the ids of the stored invoices in which that
/// address is the issuer or the payer.
pub proof fn lemma_index_lists_associated_invoices(
    c: StellarInvoiceContract,
    a: Seq<char>,
    id: u64,
)
    requires
        c.wf(),
    ensures
        c.address_index(a).contains(id) <==> (c.invoices().contains_key(id) && (
        c.invoices()[id].issuer@ == a || c.invoices()[id].payer@ == a)),
{
    assert forall|k: u64| 1 <= k <= c.counter() implies (#[trigger] c.invoices()[k]).id == k by {
        assert(c.invoices().contains_key(k));
        assert(invoice_wf(c.invoices()[k], k));
    }
    lemma_ids_for_address_contains(c.invoices(), c.counter() as nat, a, id);
}

/// A created invoice reads back as created and is listed under both its issuer
/// and its payer; it takes the next id, so ids run 1, 2, 3, ... in creation order.
pub proof fn lemma_created_invoice_is_readable_and_listed(
    before: StellarInvoiceContract,
    after: StellarInvoiceContract,
    inv: Invoice,
)
    requires
        before.wf(),
        after.wf(),
        added(before, after, inv),
    ensures
        inv.id == before.counter() + 1,
        after.invoices().contains_key(inv.id),
        after.invoices()[inv.id] == inv,
        after.address_index(inv.issuer@).contains(inv.id),
        after.address_index(inv.payer@).contains(inv.id),
        forall|id: u64|
            #![trigger before.invoices().contains_key(id)]
            before.invoices().contains_key(id) ==> after.invoices()[id] == before.invoices()[id],
{
    lemma_index_lists_associated_invoices(after, inv.issuer@, inv.id);
    lemma_index_lists_associated_invoices(after, inv.payer@, inv.id);
    assert forall|id: u64|
        #![trigger before.invoices().contains_key(id)]
        before.invoices().contains_key(id) implies after.invoices()[id] == before.invoices()[id] by {
        assert(id <= before.counter());
    }
}

/// Paid and Cancelled are terminal: no payment, cancellation or overdue marking
/// is accepted for an invoice in either state (and a refused request changes
/// nothing, by the contracts of the operations).
pub proof fn lemma_terminal_states_are_final(
    c: StellarInvoiceContract,
    id: u64,
    caller: Seq<char>,
    amount: i128,
)
    requires
        c.wf(),
        c.invoices().contains_key(id),
        is_terminal(c.invoices()[id].status),
    ensures
        c.payment_result(id, caller, amount) is Err,
        c.cancellation_result(id, caller) is Err,
        c.overdue_result(id) is Err,
{
}

/// No transition changes what was agreed at creation: id, issuer, payer, amount,
/// currency, due date and creation time stay as they were.
pub proof fn lemma_transitions_keep_terms(
    inv: Invoice,
    caller: Seq<char>,
    amount: i128,
    now: u64,
)
    ensures
        forall|next: Invoice|
            payment_outcome(inv, caller, amount) == Ok::<Invoice, crate::InvoiceError>(next)
                || cancellation_outcome(inv, caller) == Ok::<Invoice, crate::InvoiceError>(next)
                || overdue_outcome(inv, now) == Ok::<Invoice, crate::InvoiceError>(next) ==> {
                &&& next.id == inv.id
                &&& next.issuer == inv.issuer
                &&& next.payer == inv.payer
                &&& next.amount == inv.amount
                &&& next.currency == inv.currency
                &&& next.due_date == inv.due_date
                &&& next.created_at == inv.created_at
            },
{
}

/// Partial payments accumulate: an accepted payment adds exactly its amount to
/// what had been paid, never beyond the invoice amount, and the invoice is Paid
/// exactly when the total reaches the amount (PartiallyPaid otherwise).
pub proof fn lemma_payments_accumulate(inv: Invoice, payer: Seq<char>, amount: i128)
    requires
        payment_outcome(inv, payer, amount) is Ok,
    ensures
        payment_outcome(inv, payer, amount)->Ok_0.paid_amount == inv.paid_amount + amount,
        payment_outcome(inv, payer, amount)->Ok_0.paid_amount <= inv.amount,
        payment_outcome(inv, payer, amount)->Ok_0.status == if inv.paid_amount + amount
            == inv.amount {
            Status::Paid
        } else {
            Status::PartiallyPaid
        },
{
}

/// Creation accepts exactly the valid requests: any positive amount with a due
/// date strictly after the ledger time, however far ahead; the amount is
/// checked first, then the due date.
pub proof fn lemma_creation_accepts_valid_requests(amount: i128, due_date: u64, now: u64)
    ensures
        creation_check(amount, due_date, now) is Ok <==> (amount > 0 && due_date > now),
        amount <= 0 ==> creation_check(amount, due_date, now) == Err::<(), crate::InvoiceError>(
            crate::InvoiceError::InvalidAmount,
        ),
        amount > 0 && due_date <= now ==> creation_check(amount, due_date, now) == Err::<
            (),
            crate::InvoiceError,
        >(crate::InvoiceError::InvalidDueDate),
{
}

/// A payment is accepted whenever it is due: the invoice is neither Paid nor
/// Cancelled (an Overdue one included), the caller is its payer, and the amount is
/// positive and does not exceed what is still owed. The accepted payment adds
/// exactly its amount, makes the invoice Paid when that settles it and
/// PartiallyPaid otherwise, and changes nothing else.
pub proof fn lemma_due_payment_is_accepted(inv: Invoice, payer: Seq<char>, amount: i128)
    requires
        inv.status != Status::Paid,
        inv.status != Status::Cancelled,
        payer == inv.payer@,
        0 < amount,
        amount <= inv.amount - inv.paid_amount,
    ensures
        payment_outcome(inv, payer, amount) is Ok,
        ({
            let next = payment_outcome(inv, payer, amount)->Ok_0;
            &&& next.paid_amount == inv.paid_amount + amount
            &&& next.status == Status::Paid <==> inv.paid_amount + amount == inv.amount
            &&& next.status == Status::Paid || next.status == Status::PartiallyPaid
            &&& next.id == inv.id
            &&& next.issuer == inv.issuer
            &&& next.payer == inv.payer
            &&& next.amount == inv.amount
            &&& next.currency == inv.currency
            &&& next.due_date == inv.due_date
            &&& next.created_at == inv.created_at
        }),
{
}

/// A payment is refused only for a reason: a non-positive amount, a caller other
/// than the payer, a Paid or Cancelled invoice, or a total that would overflow or
/// exceed the amount.
pub proof fn lemma_payment_refused_only_for_cause(inv: Invoice, payer: Seq<char>, amount: i128)
    requires
        payment_outcome(inv, payer, amount) is Err,
    ensures
        amount <= 0 || payer != inv.payer@ || inv.status == Status::Paid || inv.status
            == Status::Cancelled || inv.paid_amount + amount > inv.amount || inv.paid_amount
            + amount > i128::MAX,
{
}

/// On the ledger, a due payment of a stored invoice is accepted whatever the
/// ledger clock reads: paying a Created, PartiallyPaid or Overdue invoice after
/// its due date is accepted just as before it.
pub proof fn lemma_ledger_accepts_due_payment(
    c: StellarInvoiceContract,
    id: u64,
    payer: Seq<char>,
    amount: i128,
)
    requires
        c.invoices().contains_key(id),
        c.invoices()[id].status != Status::Paid,
        c.invoices()[id].status != Status::Cancelled,
        payer == c.invoices()[id].payer@,
        0 < amount,
        amount <= c.invoices()[id].amount - c.invoices()[id].paid_amount,
    ensures
        c.payment_result(id, payer, amount) is Ok,
        c.payment_result(id, payer, amount)->Ok_0.paid_amount == c.invoices()[id].paid_amount
            + amount,
        c.payment_result(id, payer, amount)->Ok_0.status == Status::Paid <==> c.invoices()[id].paid_amount
            + amount == c.invoices()[id].amount,
{
    lemma_due_payment_is_accepted(c.invoices()[id], payer, amount);
}

/// Payments and cancellations do not look at the clock: two ledgers that hold the
/// same invoices answer them the same, whatever their timestamps.
pub proof fn lemma_payment_and_cancellation_ignore_clock(
    c1: StellarInvoiceContract,
    c2: StellarInvoiceContract,
    id: u64,
    caller: Seq<char>,
    amount: i128,
)
    requires
        c1.invoices() == c2.invoices(),
    ensures
        c1.payment_result(id, caller, amount) == c2.payment_result(id, caller, amount),
        c1.cancellation_result(id, caller) == c2.cancellation_result(id, caller),
{
}

/// The issuer can cancel any invoice that is neither Paid nor Cancelled, and an
/// accepted cancellation changes the status to Cancelled and nothing else: what
/// was already paid stays recorded.
pub proof fn lemma_cancellation_changes_only_status(inv: Invoice, issuer: Seq<char>)
    ensures
        (issuer == inv.issuer@ && inv.status != Status::Paid && inv.status != Status::Cancelled)
            <==> cancellation_outcome(inv, issuer) is Ok,
        cancellation_outcome(inv, issuer) is Ok ==> ({
            let next = cancellation_outcome(inv, issuer)->Ok_0;
            &&& next.status == Status::Cancelled
            &&& next.paid_amount == inv.paid_amount
            &&& next.id == inv.id
            &&& next.issuer == inv.issuer
            &&& next.payer == inv.payer
            &&& next.amount == inv.amount
            &&& next.currency == inv.currency
            &&& next.due_date == inv.due_date
            &&& next.created_at == inv.created_at
        }),
{
}

/// An invoice can be marked overdue exactly when it is Created or PartiallyPaid
/// and the clock is past its due date; the marking changes the status to Overdue
/// and nothing else: what was already paid stays recorded.
pub proof fn lemma_overdue_marking_changes_only_status(inv: Invoice, now: u64)
    ensures
        ((inv.status == Status::Created || inv.status == Status::PartiallyPaid) && now
            > inv.due_date) <==> overdue_outcome(inv, now) is Ok,
        overdue_outcome(inv, now) is Ok ==> ({
            let next = overdue_outcome(inv, now)->Ok_0;
            &&& next.status == Status::Overdue
            &&& next.paid_amount == inv.paid_amount
            &&& next.id == inv.id
            &&& next.issuer == inv.issuer
            &&& next.payer == inv.payer
            &&& next.amount == inv.amount
            &&& next.currency == inv.currency
            &&& next.due_date == inv.due_date
            &&& next.created_at == inv.created_at
        }),
{
}

/// A payment after an overdue marking completes the invoice just as it would have
/// without the marking: marking overdue and then paying the rest of the amount
/// leaves the invoice Paid with the full amount recorded.
pub proof fn lemma_overdue_invoice_can_be_settled(inv: Invoice, now: u64, amount: i128)
    requires
        overdue_outcome(inv, now) is Ok,
        0 <= inv.paid_amount < inv.amount,
        amount == inv.amount - inv.paid_amount,
    ensures
        payment_outcome(overdue_outcome(inv, now)->Ok_0, inv.payer@, amount) is Ok,
        payment_outcome(overdue_outcome(inv, now)->Ok_0, inv.payer@, amount)->Ok_0.status
            == Status::Paid,
        payment_outcome(overdue_outcome(inv, now)->Ok_0, inv.payer@, amount)->Ok_0.paid_amount
            == inv.amount,
{
    lemma_overdue_marking_changes_only_status(inv, now);
    lemma_due_payment_is_accepted(overdue_outcome(inv, now)->Ok_0, inv.payer@, amount);
}

/// A new invoice records the request as made: the given parties, amount,
/// currency and due date, created at the ledger time, status Created and nothing
/// paid yet.
pub proof fn lemma_new_invoice_records_request(
    id: u64,
    issuer: Address,
    payer: Address,
    amount: i128,
    currency: String,
    due_date: u64,
    now: u64,
)
    ensures
        ({
            let inv = created_invoice(id, issuer, payer, amount, currency, due_date, now);
            &&& inv.id == id
            &&& inv.issuer == issuer
            &&& inv.payer == payer
            &&& inv.amount == amount
            &&& inv.currency == currency
            &&& inv.due_date == due_date
            &&& inv.created_at == now
            &&& inv.status == Status::Created
            &&& inv.paid_amount == 0
        }),
{
}

/// Which error refuses a payment: a non-positive amount is InvalidAmount; else a
/// caller other than the payer is UnauthorizedPayer; else a Paid or Cancelled
/// invoice is InvoiceNotPayable; else a total beyond i128 is PaidAmountOverflow;
/// else a total beyond the amount is OverpaymentNotAllowed.
pub proof fn lemma_payment_errors(inv: Invoice, payer: Seq<char>, amount: i128)
    ensures
        amount <= 0 ==> payment_outcome(inv, payer, amount) == Err::<Invoice, InvoiceError>(
            InvoiceError::InvalidAmount,
        ),
        amount > 0 && payer != inv.payer@ ==> payment_outcome(inv, payer, amount) == Err::<
            Invoice,
            InvoiceError,
        >(InvoiceError::UnauthorizedPayer),
        amount > 0 && payer == inv.payer@ && (inv.status == Status::Paid || inv.status
            == Status::Cancelled) ==> payment_outcome(inv, payer, amount) == Err::<
            Invoice,
            InvoiceError,
        >(InvoiceError::InvoiceNotPayable),
        amount > 0 && payer == inv.payer@ && inv.status != Status::Paid && inv.status
            != Status::Cancelled && inv.paid_amount + amount > i128::MAX ==> payment_outcome(
            inv,
            payer,
            amount,
        ) == Err::<Invoice, InvoiceError>(InvoiceError::PaidAmountOverflow),
        amount > 0 && payer == inv.payer@ && inv.status != Status::Paid && inv.status
            != Status::Cancelled && inv.paid_amount + amount <= i128::MAX && inv.paid_amount
            + amount > inv.amount ==> payment_outcome(inv, payer, amount) == Err::<
            Invoice,
            InvoiceError,
        >(InvoiceError::OverpaymentNotAllowed),
{
}

/// Which error refuses a cancellation: a caller other than the issuer is
/// OnlyIssuerCanCancel; else a Paid invoice is CannotCancelPaidInvoice; else an
/// already cancelled one is InvoiceNotPayable.
pub proof fn lemma_cancellation_errors(inv: Invoice, issuer: Seq<char>)
    ensures
        issuer != inv.issuer@ ==> cancellation_outcome(inv, issuer) == Err::<
            Invoice,
            InvoiceError,
        >(InvoiceError::OnlyIssuerCanCancel),
        issuer == inv.issuer@ && inv.status == Status::Paid ==> cancellation_outcome(inv, issuer)
            == Err::<Invoice, InvoiceError>(InvoiceError::CannotCancelPaidInvoice),
        issuer == inv.issuer@ && inv.status == Status::Cancelled ==> cancellation_outcome(
            inv,
            issuer,
        ) == Err::<Invoice, InvoiceError>(InvoiceError::InvoiceNotPayable),
{
}

/// A refused overdue marking is always InvoiceNotPayable.
pub proof fn lemma_overdue_error(inv: Invoice, now: u64)
    ensures
        overdue_outcome(inv, now) is Err ==> overdue_outcome(inv, now) == Err::<
            Invoice,
            InvoiceError,
        >(InvoiceError::InvoiceNotPayable),
{
}

/// On the ledger, a request for an id that holds no invoice is refused with
/// InvoiceNotFound (for a payment, once its amount is positive).
pub proof fn lemma_unknown_invoice_not_found(
    c: StellarInvoiceContract,
    id: u64,
    caller: Seq<char>,
    amount: i128,
)
    requires
        !c.invoices().contains_key(id),
    ensures
        amount > 0 ==> c.payment_result(id, caller, amount) == Err::<Invoice, InvoiceError>(
            InvoiceError::InvoiceNotFound,
        ),
        c.cancellation_result(id, caller) == Err::<Invoice, InvoiceError>(
            InvoiceError::InvoiceNotFound,
        ),
        c.overdue_result(id) == Err::<Invoice, InvoiceError>(InvoiceError::InvoiceNotFound),
{
}

/// On the ledger, cancellation and overdue marking of a stored invoice answer as
/// the rules for that invoice do: the issuer's cancellation changes only its
/// status, and so does a marking at the ledger clock.
pub proof fn lemma_ledger_transitions_change_only_status(
    c: StellarInvoiceContract,
    id: u64,
    issuer: Seq<char>,
)
    requires
        c.invoices().contains_key(id),
    ensures
        c.cancellation_result(id, issuer) is Ok ==> c.cancellation_result(id, issuer)->Ok_0
            == (Invoice { status: Status::Cancelled, ..c.invoices()[id] }),
        c.overdue_result(id) is Ok ==> c.overdue_result(id)->Ok_0 == (Invoice {
            status: Status::Overdue,
            ..c.invoices()[id]
        }),
        c.overdue_result(id) is Ok <==> ((c.invoices()[id].status == Status::Created
            || c.invoices()[id].status == Status::PartiallyPaid) && c.ledger_timestamp()
            > c.invoices()[id].due_date),
{
    lemma_cancellation_changes_only_status(c.invoices()[id], issuer);
    lemma_overdue_marking_changes_only_status(c.invoices()[id], c.ledger_timestamp());
}

/// Storage gives back what was written: after `store_invoice(inv)` a load of
/// `inv.id` yields `inv`, every other id reads as before, and the counter and
/// the address lists are untouched.
pub proof fn lemma_storage_reads_back_writes(before: Storage, after: Storage, inv: Invoice, id: u64)
    requires
        after.invoices() == before.invoices().insert(inv.id, inv),
    ensures
        after.invoices().contains_key(inv.id),
        after.invoices()[inv.id] == inv,
        id != inv.id ==> (after.invoices().contains_key(id) == before.invoices().contains_key(id)
            && after.invoices()[id] == before.invoices()[id]),
{
}

/// An address's list only grows by what is pushed for it: after
/// `push_invoice_to_address(addr, id)` the list of `addr` is its former list
/// followed by `id`, and every other list reads as before.
pub proof fn lemma_storage_index_appends(
    before: Storage,
    after: Storage,
    addr: Seq<char>,
    id: u64,
    other: Seq<char>,
)
    requires
        forall|a: Seq<char>| #[trigger]
            after.indexed_ids(a) == if a == addr {
                before.indexed_ids(a).push(id)
            } else {
                before.indexed_ids(a)
            },
    ensures
        after.indexed_ids(addr).last() == id,
        after.indexed_ids(addr).drop_last() == before.indexed_ids(addr),
        other != addr ==> after.indexed_ids(other) == before.indexed_ids(other),
{
    assert(after.indexed_ids(addr).drop_last() =~= before.indexed_ids(addr));
    assert(after.indexed_ids(other) == if other == addr {
        before.indexed_ids(other).push(id)
    } else {
        before.indexed_ids(other)
    });
}

} // verus!
