//! The ledger's storage: the global invoice counter, one entry per invoice id,
//! and an index from each address to the ids of the invoices it takes part in.
use vstd::prelude::*;
use std::collections::HashMap;

use crate::types::{Address, Invoice};

verus! {

broadcast use vstd::std_specs::hash::group_hash_axioms;

/// The list of invoice ids kept for one address.
pub struct IndexEntry {
    pub addr: Address,
    pub ids: Vec<u64>,
}

/// The ids listed for `a` in a sequence of index entries: those of the first
/// entry for `a`, or none when there is no such entry.
pub open spec fn index_lookup(entries: Seq<IndexEntry>, a: Seq<char>) -> Seq<u64>
    decreases entries.len(),
{
    if entries.len() == 0 {
        Seq::empty()
    } else if entries[0].addr@ == a {
        entries[0].ids@
    } else {
        index_lookup(entries.subrange(1, entries.len() as int), a)
    }
}

/// The lookup finds the first entry for `a`.
pub proof fn lemma_index_lookup_first(entries: Seq<IndexEntry>, a: Seq<char>, k: int)
    requires
        0 <= k < entries.len(),
        entries[k].addr@ == a,
        forall|j: int| 0 <= j < k ==> entries[j].addr@ != a,
    ensures
        index_lookup(entries, a) == entries[k].ids@,
    decreases k,
{
    if k > 0 {
        let rest = entries.subrange(1, entries.len() as int);
        assert forall|j: int| 0 <= j < k - 1 implies rest[j].addr@ != a by {
            assert(rest[j] == entries[j + 1]);
        }
        lemma_index_lookup_first(rest, a, k - 1);
    }
}

/// Without an entry for `a`, the lookup lists nothing.
pub proof fn lemma_index_lookup_absent(entries: Seq<IndexEntry>, a: Seq<char>)
    requires
        forall|j: int| 0 <= j < entries.len() ==> entries[j].addr@ != a,
    ensures
        index_lookup(entries, a) == Seq::<u64>::empty(),
    decreases entries.len(),
{
    if entries.len() > 0 {
        let rest = entries.subrange(1, entries.len() as int);
        assert forall|j: int| 0 <= j < rest.len() implies rest[j].addr@ != a by {
            assert(rest[j] == entries[j + 1]);
        }
        lemma_index_lookup_absent(rest, a);
    }
}

/// Replacing the first entry for an address changes the lookup for that address only.
pub proof fn lemma_index_lookup_update(
    entries: Seq<IndexEntry>,
    k: int,
    e: IndexEntry,
    x: Seq<char>,
)
    requires
        0 <= k < entries.len(),
        entries[k].addr@ == e.addr@,
        forall|j: int| 0 <= j < k ==> entries[j].addr@ != e.addr@,
    ensures
        index_lookup(entries.update(k, e), x) == if x == e.addr@ {
            e.ids@
        } else {
            index_lookup(entries, x)
        },
    decreases k,
{
    let upd = entries.update(k, e);
    if k == 0 {
        if x != e.addr@ {
            assert(upd.subrange(1, upd.len() as int) =~= entries.subrange(1, entries.len() as int));
        }
    } else {
        let rest = entries.subrange(1, entries.len() as int);
        assert forall|j: int| 0 <= j < k - 1 implies rest[j].addr@ != e.addr@ by {
            assert(rest[j] == entries[j + 1]);
        }
        lemma_index_lookup_update(rest, k - 1, e, x);
        assert(upd.subrange(1, upd.len() as int) =~= rest.update(k - 1, e));
    }
}

/// Appending an entry for a new address changes the lookup for that address only.
pub proof fn lemma_index_lookup_push(entries: Seq<IndexEntry>, e: IndexEntry, x: Seq<char>)
    requires
        forall|j: int| 0 <= j < entries.len() ==> entries[j].addr@ != e.addr@,
    ensures
        index_lookup(entries.push(e), x) == if x == e.addr@ {
            e.ids@
        } else {
            index_lookup(entries, x)
        },
    decreases entries.len(),
{
    let pushed = entries.push(e);
    assert(pushed[0] == if entries.len() == 0 { e } else { entries[0] });
    if entries.len() == 0 {
        if x != e.addr@ {
            assert(pushed.subrange(1, pushed.len() as int) =~= Seq::<IndexEntry>::empty());
            assert(index_lookup(Seq::<IndexEntry>::empty(), x) == Seq::<u64>::empty());
        }
    } else {
        let rest = entries.subrange(1, entries.len() as int);
        assert forall|j: int| 0 <= j < rest.len() implies rest[j].addr@ != e.addr@ by {
            assert(rest[j] == entries[j + 1]);
        }
        lemma_index_lookup_push(rest, e, x);
        assert(pushed.subrange(1, pushed.len() as int) =~= rest.push(e));
    }
}

/// The contract's storage.
pub struct Storage {
    counter: u64,
    invoices: HashMap<u64, Invoice>,
    index: Vec<IndexEntry>,
}

impl Storage {
    /// The number of invoices created so far (the last id handed out).
    pub closed spec fn counter(&self) -> u64 {
        self.counter
    }

    /// The stored invoices, by id.
    pub closed spec fn invoices(&self) -> Map<u64, Invoice> {
        self.invoices@
    }

    /// The ids indexed under the address `a`, in the order they were pushed.
    pub closed spec fn indexed_ids(&self, a: Seq<char>) -> Seq<u64> {
        index_lookup(self.index@, a)
    }

    /// Empty storage: counter 0, no invoices, an empty index.
    pub fn new() -> (s: Storage)
        ensures
            s.counter() == 0,
            s.invoices() == Map::<u64, Invoice>::empty(),
            forall|a: Seq<char>| #[trigger] s.indexed_ids(a) == Seq::<u64>::empty(),
    {
        let s = Storage { counter: 0, invoices: HashMap::new(), index: Vec::new() };
        assert forall|a: Seq<char>| #[trigger] s.indexed_ids(a) == Seq::<u64>::empty() by {
            lemma_index_lookup_absent(s.index@, a);
        }
        s
    }

    /// The invoice counter (0 before the first invoice).
    pub fn get_counter(&self) -> (c: u64)
        ensures
            c == self.counter(),
    {
        self.counter
    }

    /// Advances the counter by one and returns its new value.
    pub fn increment_counter(&mut self) -> (c: u64)
        requires
            old(self).counter() < u64::MAX,
        ensures
            c == old(self).counter() + 1,
            final(self).counter() == c,
            final(self).invoices() == old(self).invoices(),
            forall|a: Seq<char>| #[trigger]
                final(self).indexed_ids(a) == old(self).indexed_ids(a),
    {
        let counter = self.get_counter() + 1;
        self.counter = counter;
        counter
    }

    /// Stores `invoice` under its id, replacing any invoice stored there.
    pub fn store_invoice(&mut self, invoice: &Invoice)
        ensures
            final(self).invoices() == old(self).invoices().insert(invoice.id, *invoice),
            final(self).counter() == old(self).counter(),
            forall|a: Seq<char>| #[trigger]
                final(self).indexed_ids(a) == old(self).indexed_ids(a),
    {
        self.invoices.insert(invoice.id, invoice.clone());
    }

    /// The invoice stored under `id`, if any.
    pub fn load_invoice(&self, id: u64) -> (r: Option<Invoice>)
        ensures
            r == if self.invoices().contains_key(id) {
                Some(self.invoices()[id])
            } else {
                None
            },
    {
        match self.invoices.get(&id) {
            Some(inv) => Some(inv.clone()),
            None => None,
        }
    }

    /// Appends `id` to the list kept for `addr`.
    pub fn push_invoice_to_address(&mut self, addr: &Address, id: u64)
        ensures
            final(self).counter() == old(self).counter(),
            final(self).invoices() == old(self).invoices(),
            forall|a: Seq<char>| #[trigger]
                final(self).indexed_ids(a) == if a == addr@ {
                    old(self).indexed_ids(a).push(id)
                } else {
                    old(self).indexed_ids(a)
                },
    {
        let ghost old_index = self.index@;
        let n = self.index.len();
        let mut i: usize = 0;
        while i < n
            invariant
                n == self.index.len(),
                self.index@ == old_index,
                old_index == old(self).index@,
                self.counter == old(self).counter,
                self.invoices@ == old(self).invoices@,
                i <= n,
                forall|j: int| 0 <= j < i ==> self.index@[j].addr@ != addr@,
            decreases n - i,
        {
            if self.index[i].addr == *addr {
                proof {
                    lemma_index_lookup_first(old_index, addr@, i as int);
                }
                let mut entry = self.index.remove(i);
                assert(entry == old_index[i as int]);
                entry.ids.push(id);
                let ghost new_entry = entry;
                assert(new_entry.ids@ == old_index[i as int].ids@.push(id));
                assert(new_entry.addr@ == addr@);
                self.index.insert(i, entry);
                proof {
                    assert(self.index@ =~= old_index.update(i as int, new_entry));
                    assert forall|a: Seq<char>| #[trigger]
                        index_lookup(self.index@, a) == if a == addr@ {
                            index_lookup(old_index, a).push(id)
                        } else {
                            index_lookup(old_index, a)
                        } by {
                        lemma_index_lookup_update(old_index, i as int, new_entry, a);
                    }
                }
                return;
            }
            i = i + 1;
        }
        let mut ids = Vec::new();
        ids.push(id);
        let entry = IndexEntry { addr: addr.clone(), ids };
        let ghost new_entry = entry;
        proof {
            lemma_index_lookup_absent(old_index, addr@);
        }
        self.index.push(entry);
        proof {
            assert forall|a: Seq<char>| #[trigger]
                index_lookup(self.index@, a) == if a == addr@ {
                    index_lookup(old_index, a).push(id)
                } else {
                    index_lookup(old_index, a)
                } by {
                lemma_index_lookup_push(old_index, new_entry, a);
                if a == addr@ {
                    assert(new_entry.ids@ =~= Seq::<u64>::empty().push(id));
                }
            }
        }
    }

    /// The ids kept for `addr`; empty when it has none.
    pub fn get_invoices_for_address(&self, addr: &Address) -> (r: Vec<u64>)
        ensures
            r@ == self.indexed_ids(addr@),
    {
        let n = self.index.len();
        let mut i: usize = 0;
        while i < n
            invariant
                n == self.index.len(),
                i <= n,
                forall|j: int| 0 <= j < i ==> self.index@[j].addr@ != addr@,
            decreases n - i,
        {
            if self.index[i].addr == *addr {
                proof {
                    lemma_index_lookup_first(self.index@, addr@, i as int);
                }
                let ids = self.index[i].ids.clone();
                assert(ids@ =~= self.index@[i as int].ids@);
                return ids;
            }
            i = i + 1;
        }
        proof {
            lemma_index_lookup_absent(self.index@, addr@);
        }
        Vec::new()
    }
}

} // verus!
