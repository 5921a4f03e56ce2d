use vstd::prelude::*;

verus! {

/// Lifecycle state of an invoice.
#[derive(Clone, Copy, Debug, PartialEq, Eq, Structural)]
pub enum Status {
    /// Created; no payment received yet.
    Created,
    /// At least one payment received, but less than the amount.
    PartiallyPaid,
    /// paid_amount equals amount; terminal.
    Paid,
    /// The ledger clock passed due_date before the invoice was fully paid.
    Overdue,
    /// Cancelled by the issuer; terminal.
    Cancelled,
}

/// An account or contract on the ledger, identified by its strkey
/// (`G...` for accounts, `C...` for contracts).
#[derive(Debug)]
pub struct Address {
    pub strkey: String,
}

impl View for Address {
    type V = Seq<char>;

    open spec fn view(&self) -> Seq<char> {
        self.strkey@
    }
}

impl Address {
    /// The address with the given strkey.
    pub fn new(strkey: String) -> (a: Address)
        ensures
            a.strkey == strkey,
    {
        Address { strkey }
    }
}

impl Clone for Address {
    fn clone(&self) -> (r: Self)
        ensures
            r == *self,
    {
        Address { strkey: self.strkey.clone() }
    }
}

impl PartialEq for Address {
    fn eq(&self, other: &Self) -> (r: bool) {
        self.strkey == other.strkey
    }
}

impl Eq for Address {
}

impl vstd::std_specs::cmp::PartialEqSpecImpl for Address {
    open spec fn obeys_eq_spec() -> bool {
        true
    }

    open spec fn eq_spec(&self, other: &Address) -> bool {
        self@ == other@
    }
}

/// An invoice as the ledger stores it.
#[derive(Debug, PartialEq, Eq)]
pub struct Invoice {
    pub id: u64,
    pub issuer: Address,
    pub payer: Address,
    pub amount: i128,
    pub currency: String,
    pub due_date: u64,
    pub status: Status,
    pub created_at: u64,
    pub paid_amount: i128,
}

impl Clone for Invoice {
    fn clone(&self) -> (r: Self)
        ensures
            r == *self,
    {
        Invoice {
            id: self.id,
            issuer: self.issuer.clone(),
            payer: self.payer.clone(),
            amount: self.amount,
            currency: self.currency.clone(),
            due_date: self.due_date,
            status: self.status,
            created_at: self.created_at,
            paid_amount: self.paid_amount,
        }
    }
}

} // verus!
