//! The store of product records.

use vstd::prelude::*;
use crate::product::{valid_product_id, Product, ProductView};

verus! {

/// What holds of the stored records between any two commands: every key has
/// the length of an identifier, and every record is stored under its own
/// identifier.
pub open spec fn records_consistent<AccountId, Moment>(
    products: Map<Seq<u8>, ProductView<AccountId, Moment>>,
) -> bool {
    forall|id: Seq<u8>| #[trigger]
        products.contains_key(id) ==> valid_product_id(id) && products[id].id == id
}

/// Whether two byte strings are the same.
fn same_bytes(a: &[u8], b: &[u8]) -> (same: bool)
    ensures
        same == (a@ == b@),
{
    if a.len() != b.len() {
        return false;
    }
    let mut i: usize = 0;
    while i < a.len()
        invariant
            a@.len() == b@.len(),
            0 <= i <= a@.len(),
            forall|k: int| 0 <= k < i ==> a@[k] == b@[k],
        decreases a@.len() - i,
    {
        if a[i] != b[i] {
            return false;
        }
        i += 1;
    }
    assert(a@ =~= b@);
    true
}

/// The store of product records, keyed by identifier. It offers a probe, a
/// lookup and an insertion, and neither an update nor a removal.
pub struct Registry<AccountId, Moment> {
    records: Vec<Product<AccountId, Moment>>,
}

impl<AccountId, Moment> View for Registry<AccountId, Moment> {
    type V = Map<Seq<u8>, ProductView<AccountId, Moment>>;

    /// The stored records as a map from identifier to record.
    closed spec fn view(&self) -> Map<Seq<u8>, ProductView<AccountId, Moment>> {
        Map::new(
            |id: Seq<u8>| exists|i: int| self.holds_at(i, id),
            |id: Seq<u8>| self.records@[choose|i: int| self.holds_at(i, id)]@,
        )
    }
}

impl<AccountId, Moment> Registry<AccountId, Moment> {
    /// Whether the record in slot `i` is the one registered under `id`.
    spec fn holds_at(self, i: int, id: Seq<u8>) -> bool {
        0 <= i < self.records@.len() && self.records@[i].id@ == id
    }

    /// The identifier of the record in slot `i`.
    spec fn key_at(self, i: int) -> Seq<u8> {
        self.records@[i].id@
    }

    /// The store's invariant: every stored identifier is valid, no two
    /// records share one, and the keys are as many as the records.
    pub closed spec fn wf(self) -> bool {
        &&& forall|i: int|
            0 <= i < self.records@.len() ==> valid_product_id(#[trigger] self.key_at(i))
        &&& self.distinct_keys()
        &&& self@.dom().finite()
        &&& self@.dom().len() == self.records@.len()
    }

    /// Whether no two slots hold the same identifier.
    spec fn distinct_keys(self) -> bool {
        forall|i: int, j: int|
            0 <= i < j < self.records@.len() ==> #[trigger] self.key_at(i) != #[trigger] self.key_at(j)
    }

    /// Where the slots hold distinct identifiers, the record in the slot that
    /// holds `id` is the one that the store maps `id` to.
    proof fn lemma_slot_of(self, i: int, id: Seq<u8>)
        requires
            self.distinct_keys(),
            self.holds_at(i, id),
        ensures
            self@.contains_key(id),
            self@[id] == self.records@[i]@,
    {
        let j = choose|j: int| self.holds_at(j, id);
        assert(self.key_at(j) == self.key_at(i));
    }

    /// The record in slot `i` is the one that the store maps its identifier to.
    proof fn lemma_slot(self, i: int)
        requires
            self.wf(),
            0 <= i < self.records@.len(),
        ensures
            self@.contains_key(self.key_at(i)),
            self@[self.key_at(i)] == self.records@[i]@,
    {
        self.lemma_slot_of(i, self.key_at(i));
    }

    /// A well-formed store keeps the invariants of the data model: its keys
    /// are valid identifiers, and each record carries the key it is stored
    /// under.
    pub proof fn lemma_consistent(self)
        requires
            self.wf(),
        ensures
            records_consistent(self@),
    {
        assert forall|id: Seq<u8>| #[trigger] self@.contains_key(id) implies valid_product_id(id)
            && self@[id].id == id by {
            let i = choose|i: int| self.holds_at(i, id);
            assert(self.key_at(i) == id);
            self.lemma_slot(i);
        }
    }

    /// The empty store.
    pub fn new() -> (store: Self)
        ensures
            store.wf(),
            store@ == Map::<Seq<u8>, ProductView<AccountId, Moment>>::empty(),
    {
        let store = Registry { records: Vec::new() };
        assert(store@ =~= Map::<Seq<u8>, ProductView<AccountId, Moment>>::empty());
        store
    }

    /// How many records the store holds.
    pub fn len(&self) -> (count: usize)
        requires
            self.wf(),
        ensures
            self@.dom().finite(),
            count == self@.len(),
    {
        self.records.len()
    }

    /// The slot of the record registered under `id`, if there is one.
    fn find(&self, id: &[u8]) -> (slot: Option<usize>)
        ensures
            match slot {
                Some(i) => self.holds_at(i as int, id@),
                None => forall|i: int| !self.holds_at(i, id@),
            },
    {
        let mut i: usize = 0;
        while i < self.records.len()
            invariant
                0 <= i <= self.records@.len(),
                forall|k: int| 0 <= k < i ==> !self.holds_at(k, id@),
            decreases self.records@.len() - i,
        {
            if same_bytes(self.records[i].id.as_slice(), id) {
                return Some(i);
            }
            i += 1;
        }
        None
    }

    /// Whether a record is registered under `id`. Nothing is changed.
    pub fn contains(&self, id: &[u8]) -> (found: bool)
        requires
            self.wf(),
        ensures
            found == self@.contains_key(id@),
    {
        self.find(id).is_some()
    }

    /// The record registered under `id`, if there is one. Nothing is changed.
    pub fn get(&self, id: &[u8]) -> (record: Option<&Product<AccountId, Moment>>)
        requires
            self.wf(),
        ensures
            match record {
                Some(product) => self@.contains_key(id@) && product@ == self@[id@],
                None => !self@.contains_key(id@),
            },
    {
        match self.find(id) {
            Some(i) => {
                proof {
                    self.lemma_slot(i as int);
                }
                Some(&self.records[i])
            },
            None => None,
        }
    }

    /// Stores `product` under `id`. The caller has made sure that `id` is a
    /// valid identifier, that it is the product's own, and that nothing is
    /// registered under it yet; none of this is tested again here.
    pub fn insert(&mut self, id: &[u8], product: Product<AccountId, Moment>)
        requires
            old(self).wf(),
            valid_product_id(id@),
            product.id@ == id@,
            !old(self)@.contains_key(id@),
        ensures
            final(self).wf(),
            final(self)@ == old(self)@.insert(id@, product@),
    {
        let ghost slot = self.records@.len() as int;
        assert(forall|i: int| 0 <= i < slot ==> !old(self).holds_at(i, id@));
        self.records.push(product);
        proof {
            assert forall|i: int| 0 <= i < slot implies self.key_at(i) == old(self).key_at(i) by {}
            assert(self.key_at(slot) == id@);
            assert forall|i: int, j: int| 0 <= i < j < self.records@.len() implies self.key_at(i)
                != self.key_at(j) by {
                if j == slot {
                    assert(!old(self).holds_at(i, id@));
                } else {
                    assert(old(self).key_at(i) != old(self).key_at(j));
                }
            }
            let after = old(self)@.insert(id@, product@);
            assert forall|k: Seq<u8>| self@.contains_key(k) <==> after.contains_key(k) by {
                if self@.contains_key(k) {
                    let i = choose|i: int| self.holds_at(i, k);
                    if i < slot {
                        assert(old(self).holds_at(i, k));
                    }
                }
                if after.contains_key(k) && k != id@ {
                    let i = choose|i: int| old(self).holds_at(i, k);
                    assert(self.holds_at(i, k));
                }
                if k == id@ {
                    assert(self.holds_at(slot, k));
                }
            }
            assert forall|k: Seq<u8>| self@.contains_key(k) implies self@[k] == after[k] by {
                if k == id@ {
                    self.lemma_slot_of(slot, k);
                } else {
                    let i = choose|i: int| self.holds_at(i, k);
                    old(self).lemma_slot_of(i, k);
                    self.lemma_slot_of(i, k);
                }
            }
            assert(self@ =~= after);
            assert(after.dom() =~= old(self)@.dom().insert(id@));
        }
    }
}

} // verus!
