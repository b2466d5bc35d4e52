use vstd::prelude::*;
use crate::errors::Error;
use crate::product::Product;
use crate::product::ProductPayload;
use crate::product::StockPayload;
use crate::text::msg_two_amounts;
use crate::text::msg_with_id;
use crate::text::spec_decimal;
use crate::validation::product_payload_error;
use crate::validation::stock_payload_error;
use crate::validation::valid_product_payload;
use crate::validation::validate_product_payload;
use crate::validation::validate_stock_payload;

verus! {

/// The message carried by `NotFound` from a failed lookup.
pub open spec fn lookup_not_found_msg(id: u64) -> Seq<char> {
    "A product with id="@ + spec_decimal(id as int) + " was not found"@
}

/// The message carried by `NotFound` from a failed update.
pub open spec fn update_not_found_msg(id: u64) -> Seq<char> {
    "Couldn't update a product with id="@ + spec_decimal(id as int) + ". Product not found"@
}

/// The message carried by `NotFound` from a failed stock increase.
pub open spec fn add_quantity_not_found_msg(id: u64) -> Seq<char> {
    "Couldn't add quantity to product with id="@ + spec_decimal(id as int)
        + ". Product not found"@
}

/// The message carried by `NotFound` from a failed stock decrease.
pub open spec fn offload_not_found_msg(id: u64) -> Seq<char> {
    "Couldn't offload a product with id="@ + spec_decimal(id as int) + ". Product not found"@
}

/// The message carried by `NotFound` from a failed removal.
pub open spec fn remove_not_found_msg(id: u64) -> Seq<char> {
    "Couldn't delete a product with id="@ + spec_decimal(id as int) + ". Product not found"@
}

/// The message carried by `InvalidOperation` when decreasing a record whose
/// quantity is already 0.
pub open spec fn offload_zero_msg(id: u64) -> Seq<char> {
    "Product with id="@ + spec_decimal(id as int) + " cannot be offloaded because the quantity is 0"@
}

/// The message carried by `InvalidOperation` when the requested decrease
/// exceeds the available quantity.
pub open spec fn offload_exceed_msg(available: u32, requested: u32) -> Seq<char> {
    "Cannot offload more than available quantity. Available: "@ + spec_decimal(available as int)
        + ", Trying to offload: "@ + spec_decimal(requested as int)
}

/// The record store: the identifier allocator's counter together with the
/// keyed repository of live records.
///
/// The counter is monotonically non-decreasing and owned exclusively by the
/// allocator; every live record's id was allocated from it, so ids are never
/// reused, even after removal.
pub struct Store {
    counter: u64,
    products: Vec<Product>,
}

impl Store {
    /// The current value of the identifier counter.
    pub closed spec fn spec_counter(self) -> u64 {
        self.counter
    }

    /// Whether a live record with this id exists.
    pub closed spec fn has_id(self, id: u64) -> bool {
        exists|i: int| 0 <= i < self.products@.len() && self.products@[i].id == id
    }

    spec fn idx_of(self, id: u64) -> int {
        choose|i: int| 0 <= i < self.products@.len() && self.products@[i].id == id
    }

    /// The live record with this id; meaningful only when `has_id` holds.
    pub closed spec fn product_for(self, id: u64) -> Product {
        self.products@[self.idx_of(id)]
    }

    /// The repository as a mapping from id to record.
    pub closed spec fn contents(self) -> Map<u64, Product> {
        Map::new(|id: u64| self.has_id(id), |id: u64| self.product_for(id))
    }

    /// The result a pure lookup of `id` must produce.
    pub open spec fn lookup(self, id: u64) -> Option<Product> {
        if self.has_id(id) {
            Some(self.product_for(id))
        } else {
            None
        }
    }

    /// Well-formedness: ids are unique, and every live id was drawn from the
    /// counter, so no id above the counter is in use.
    pub closed spec fn wf(self) -> bool {
        &&& forall|i: int, j: int|
            0 <= i < j < self.products@.len() ==> self.products@[i].id != self.products@[j].id
        &&& forall|i: int|
            0 <= i < self.products@.len() ==> (#[trigger] self.products@[i]).id <= self.counter
    }

    proof fn lemma_index_is_witness(self, i: int)
        requires
            self.wf(),
            0 <= i < self.products@.len(),
        ensures
            self.has_id(self.products@[i].id),
            self.idx_of(self.products@[i].id) == i,
            self.product_for(self.products@[i].id) == self.products@[i],
    {
        let id = self.products@[i].id;
        assert(self.has_id(id));
        let k = self.idx_of(id);
        assert(0 <= k < self.products@.len() && self.products@[k].id == id);
        if k < i {
            assert(self.products@[k].id != self.products@[i].id);
        } else if i < k {
            assert(self.products@[i].id != self.products@[k].id);
        }
    }

    proof fn lemma_found(self, id: u64)
        requires
            self.wf(),
            self.has_id(id),
        ensures
            0 <= self.idx_of(id) < self.products@.len(),
            self.products@[self.idx_of(id)].id == id,
            self.product_for(id).id == id,
            self.product_for(id).id <= self.spec_counter(),
    {
        let k = self.idx_of(id);
        assert(0 <= k < self.products@.len() && self.products@[k].id == id);
    }

    /// The current value of the identifier counter.
    pub fn counter(&self) -> (c: u64)
        ensures
            c == self.spec_counter(),
    {
        self.counter
    }

    /// A fresh, empty store with the counter at 0.
    pub fn new() -> (s: Store)
        ensures
            s.wf(),
            s.spec_counter() == 0,
            s.contents() =~= Map::<u64, Product>::empty(),
    {
        Store::restore(0)
    }

    /// An empty store whose counter resumes from a persisted value, as after
    /// a restart: identifiers stay strictly increasing across the store's
    /// whole lifetime.
    pub fn restore(counter: u64) -> (s: Store)
        ensures
            s.wf(),
            s.spec_counter() == counter,
            s.contents() =~= Map::<u64, Product>::empty(),
    {
        let s = Store { counter, products: Vec::new() };
        proof {
            assert forall|id: u64| !s.has_id(id) by {};
            assert(s.contents() =~= Map::<u64, Product>::empty());
        }
        s
    }

    /// Allocates the next identifier: increments the counter by exactly 1 and
    /// returns the new value.
    pub fn next_id(&mut self) -> (id: u64)
        requires
            old(self).spec_counter() < u64::MAX,
        ensures
            id == old(self).spec_counter() + 1,
            final(self).spec_counter() == id,
            final(self).contents() =~= old(self).contents(),
            old(self).wf() ==> final(self).wf(),
    {
        self.counter = self.counter + 1;
        proof {
            assert(final(self).products@ == old(self).products@);
            assert forall|id: u64| old(self).has_id(id) implies final(self).has_id(id) by {
                let i = choose|i: int|
                    0 <= i < old(self).products@.len() && old(self).products@[i].id == id;
                assert(final(self).products@[i].id == id);
            }
            assert forall|id: u64| final(self).has_id(id) implies old(self).has_id(id) by {
                let i = choose|i: int|
                    0 <= i < final(self).products@.len() && final(self).products@[i].id == id;
                assert(old(self).products@[i].id == id);
            }
            assert forall|id: u64| #[trigger] final(self).has_id(id) implies final(self).product_for(id) == old(self).product_for(id) by {};
            assert(final(self).contents() =~= old(self).contents());
        }
        self.counter
    }

    /// The index at which `id` is stored, if any.
    fn find_index(&self, id: u64) -> (r: Option<usize>)
        ensures
            match r {
                Some(i) => i < self.products@.len() && self.products@[i as int].id == id,
                None => !self.has_id(id),
            },
    {
        let n = self.products.len();
        let mut i: usize = 0;
        while i < n
            invariant
                n == self.products@.len(),
                i <= n,
                forall|j: int| 0 <= j < i ==> self.products@[j].id != id,
            decreases n - i,
        {
            if self.products[i].id == id {
                return Some(i);
            }
            i = i + 1;
        }
        None
    }

    /// Pure lookup of a record by id; the caller receives a copy, never an
    /// alias into the repository.
    pub fn _get_product(&self, id: u64) -> (r: Option<Product>)
        requires
            self.wf(),
        ensures
            r == self.lookup(id),
    {
        match self.find_index(id) {
            Some(i) => {
                proof {
                    self.lemma_index_is_witness(i as int);
                }
                Some(self.products[i].clone())
            },
            None => None,
        }
    }

    proof fn lemma_contents_after_set(pre: Store, post: Store, i: int, p: Product)
        requires
            pre.wf(),
            0 <= i < pre.products@.len(),
            pre.products@[i].id == p.id,
            post.products@ == pre.products@.update(i, p),
            post.spec_counter() == pre.spec_counter(),
        ensures
            post.wf(),
            post.contents() =~= pre.contents().insert(p.id, p),
    {
        assert(post.products@.len() == pre.products@.len());
        assert forall|k: int| 0 <= k < post.products@.len() implies (#[trigger] post.products@[k]).id
            == pre.products@[k].id by {};
        assert(post.wf());
        assert forall|id: u64| #[trigger] post.has_id(id) implies pre.has_id(id) by {
            let k = choose|k: int|
                0 <= k < post.products@.len() && post.products@[k].id == id;
            assert(pre.products@[k].id == id);
        }
        assert forall|id: u64| #[trigger] pre.has_id(id) implies post.has_id(id) by {
            let k = choose|k: int| 0 <= k < pre.products@.len() && pre.products@[k].id == id;
            assert(post.products@[k].id == id);
        }
        assert forall|id: u64| #[trigger] post.has_id(id) implies post.product_for(id) == (if id
            == p.id {
            p
        } else {
            pre.product_for(id)
        }) by {
            post.lemma_found(id);
            let k = post.idx_of(id);
            if id == p.id {
                pre.lemma_index_is_witness(i);
                post.lemma_index_is_witness(i);
                assert(post.products@[i].id == p.id);
                assert(k == i);
            } else {
                assert(pre.products@[k].id == id);
                pre.lemma_index_is_witness(k);
                assert(k != i);
                assert(post.product_for(id) == post.products@[k]);
                assert(post.products@[k] == pre.products@[k]);
            }
        }
        assert(post.contents() =~= pre.contents().insert(p.id, p));
    }

    proof fn lemma_contents_after_push(pre: Store, post: Store, p: Product)
        requires
            pre.wf(),
            !pre.has_id(p.id),
            p.id <= pre.spec_counter(),
            post.products@ == pre.products@.push(p),
            post.spec_counter() == pre.spec_counter(),
        ensures
            post.wf(),
            post.contents() =~= pre.contents().insert(p.id, p),
    {
        let n = pre.products@.len() as int;
        assert forall|k: int| 0 <= k < n implies (#[trigger] post.products@[k]) == pre.products@[k]
            by {};
        assert(post.products@[n] == p);
        assert forall|i: int, j: int|
            0 <= i < j < post.products@.len() implies post.products@[i].id != post.products@[j].id
            by {
            if j == n {
                pre.lemma_index_is_witness(i);
                assert(pre.has_id(pre.products@[i].id));
            }
        }
        assert(post.wf());
        assert forall|id: u64| #[trigger] post.has_id(id) implies (pre.has_id(id) || id == p.id)
            by {
            let k = choose|k: int|
                0 <= k < post.products@.len() && post.products@[k].id == id;
            if k < n {
                assert(pre.products@[k].id == id);
            }
        }
        assert forall|id: u64| #[trigger] pre.has_id(id) implies post.has_id(id) by {
            let k = choose|k: int| 0 <= k < pre.products@.len() && pre.products@[k].id == id;
            assert(post.products@[k].id == id);
        }
        assert(post.has_id(p.id)) by {
            assert(post.products@[n].id == p.id);
        }
        assert forall|id: u64| #[trigger] post.has_id(id) implies post.product_for(id) == (if id
            == p.id {
            p
        } else {
            pre.product_for(id)
        }) by {
            post.lemma_found(id);
            let k = post.idx_of(id);
            if id == p.id {
                post.lemma_index_is_witness(n);
                assert(k == n);
            } else {
                assert(k != n);
                assert(pre.products@[k].id == id);
                pre.lemma_index_is_witness(k);
                assert(post.product_for(id) == post.products@[k]);
            }
        }
        assert(post.contents() =~= pre.contents().insert(p.id, p));
    }

    /// Inserts the record at `record.id`, overwriting any record already
    /// there: the repository's insert is idempotent by key. Payload
    /// validation is the caller's responsibility and happens before any
    /// insert.
    pub fn do_insert(&mut self, product: &Product)
        requires
            old(self).wf(),
            product.id <= old(self).spec_counter(),
        ensures
            final(self).wf(),
            final(self).spec_counter() == old(self).spec_counter(),
            final(self).contents() =~= old(self).contents().insert(product.id, *product),
    {
        match self.find_index(product.id) {
            Some(i) => {
                self.products.set(i, product.clone());
                proof {
                    Store::lemma_contents_after_set(*old(self), *self, i as int, *product);
                }
            },
            None => {
                self.products.push(product.clone());
                proof {
                    Store::lemma_contents_after_push(*old(self), *self, *product);
                }
            },
        }
    }

    proof fn lemma_contents_after_remove(pre: Store, post: Store, i: int)
        requires
            pre.wf(),
            0 <= i < pre.products@.len(),
            post.products@ == pre.products@.remove(i),
            post.spec_counter() == pre.spec_counter(),
        ensures
            post.wf(),
            post.contents() =~= pre.contents().remove(pre.products@[i].id),
            !post.has_id(pre.products@[i].id),
    {
        let rid = pre.products@[i].id;
        let n = pre.products@.len() as int;
        assert(post.products@.len() == n - 1);
        assert forall|k: int| 0 <= k < n - 1 implies (#[trigger] post.products@[k]) == (if k < i {
            pre.products@[k]
        } else {
            pre.products@[k + 1]
        }) by {};
        assert forall|a: int, b: int|
            0 <= a < b < post.products@.len() implies post.products@[a].id != post.products@[b].id
            by {
            let pa = if a < i { a } else { a + 1 };
            let pb = if b < i { b } else { b + 1 };
            assert(pre.products@[pa].id != pre.products@[pb].id);
        }
        assert(post.wf());
        assert forall|id: u64| #[trigger] post.has_id(id) implies pre.has_id(id) && id != rid by {
            let k = choose|k: int|
                0 <= k < post.products@.len() && post.products@[k].id == id;
            let pk = if k < i { k } else { k + 1 };
            assert(pre.products@[pk].id == id);
            pre.lemma_index_is_witness(pk);
            if id == rid {
                pre.lemma_index_is_witness(i);
                assert(false);
            }
        }
        assert forall|id: u64| pre.has_id(id) && id != rid implies #[trigger] post.has_id(id) by {
            let k = choose|k: int| 0 <= k < pre.products@.len() && pre.products@[k].id == id;
            pre.lemma_index_is_witness(k);
            pre.lemma_index_is_witness(i);
            if k < i {
                assert(post.products@[k].id == id);
            } else {
                assert(k != i);
                assert(post.products@[k - 1].id == id);
            }
        }
        assert forall|id: u64| #[trigger] post.has_id(id) implies post.product_for(id)
            == pre.product_for(id) by {
            post.lemma_found(id);
            let k = post.idx_of(id);
            let pk = if k < i { k } else { k + 1 };
            assert(pre.products@[pk].id == id);
            pre.lemma_index_is_witness(pk);
            assert(post.product_for(id) == post.products@[k]);
            assert(post.products@[k] == pre.products@[pk]);
        }
        assert(post.contents() =~= pre.contents().remove(rid));
    }

    /// What a successful removal does: the prior record comes back, the id's
    /// entry leaves the map, and the counter is untouched, so the id stays
    /// permanently retired.
    pub open spec fn remove_ok(pre: Store, post: Store, id: u64, p: Product) -> bool {
        &&& pre.has_id(id)
        &&& p == pre.product_for(id)
        &&& post.spec_counter() == pre.spec_counter()
        &&& post.contents() =~= pre.contents().remove(id)
        &&& post.wf()
    }

    /// Deletes the record with this id and returns the prior value, or
    /// `NotFound` if the id has no live record. No extra validation.
    pub fn remove_product(&mut self, id: u64) -> (r: Result<Product, Error>)
        requires
            old(self).wf(),
        ensures
            final(self).wf(),
            final(self).spec_counter() == old(self).spec_counter(),
            r is Ok <==> old(self).has_id(id),
            r matches Ok(p) ==> Store::remove_ok(*old(self), *final(self), id, p),
            r matches Err(e) ==> (*final(self) == *old(self) && (e matches Error::NotFound { msg }
                && msg@ == remove_not_found_msg(id))),
    {
        match self.find_index(id) {
            Some(i) => {
                proof {
                    self.lemma_index_is_witness(i as int);
                }
                let p = self.products.remove(i);
                proof {
                    Store::lemma_contents_after_remove(*old(self), *self, i as int);
                }
                Ok(p)
            },
            None => Err(
                Error::NotFound {
                    msg: msg_with_id("Couldn't delete a product with id=", id, ". Product not found"),
                },
            ),
        }
    }

    /// Looks a record up by id, or reports `NotFound`.
    pub fn get_product(&self, id: u64) -> (r: Result<Product, Error>)
        requires
            self.wf(),
        ensures
            r is Ok <==> self.has_id(id),
            r matches Ok(p) ==> self.lookup(id) == Some(p),
            r matches Err(e) ==> (e matches Error::NotFound { msg } && msg@ == lookup_not_found_msg(
                id,
            )),
    {
        match self._get_product(id) {
            Some(product) => Ok(product),
            None => Err(
                Error::NotFound { msg: msg_with_id("A product with id=", id, " was not found") },
            ),
        }
    }

    /// Reports the current stock of a record, or `NotFound`.
    pub fn get_stock(&self, id: u64) -> (r: Result<u32, Error>)
        requires
            self.wf(),
        ensures
            r is Ok <==> self.has_id(id),
            r matches Ok(q) ==> q == self.product_for(id).quantity,
            r matches Err(e) ==> (e matches Error::NotFound { msg } && msg@ == lookup_not_found_msg(
                id,
            )),
    {
        match self._get_product(id) {
            Some(product) => Ok(product.quantity),
            None => Err(
                Error::NotFound { msg: msg_with_id("A product with id=", id, " was not found") },
            ),
        }
    }

    /// What a successful creation does: a fresh id one above the prior
    /// counter, the payload's fields, `created_at` stamped with `now`,
    /// `updated_at` absent, and the record inserted under its id.
    pub open spec fn add_product_ok(
        pre: Store,
        post: Store,
        payload: ProductPayload,
        now: u64,
        p: Product,
    ) -> bool {
        &&& p.id == pre.spec_counter() + 1
        &&& p.name == payload.name
        &&& p.category == payload.category
        &&& p.quantity == payload.quantity
        &&& p.created_at == now
        &&& p.updated_at is None
        &&& post.spec_counter() == pre.spec_counter() + 1
        &&& post.contents() =~= pre.contents().insert(p.id, p)
        &&& post.wf()
    }

    /// Validates the payload, allocates a fresh id, and inserts the new
    /// record, returning it. An invalid payload is rejected before any state
    /// change: no record is created and the counter is not incremented.
    ///
    /// `now` is the creation timestamp supplied by the hosting runtime.
    pub fn add_product(&mut self, payload: ProductPayload, now: u64) -> (r: Result<Product, Error>)
        requires
            old(self).wf(),
            old(self).spec_counter() < u64::MAX,
        ensures
            final(self).wf(),
            final(self).spec_counter() >= old(self).spec_counter(),
            valid_product_payload(payload) ==> (r matches Ok(p) && Store::add_product_ok(
                *old(self),
                *final(self),
                payload,
                now,
                p,
            )),
            !valid_product_payload(payload) ==> (*final(self) == *old(self) && (r matches Err(e)
                && product_payload_error(e, payload))),
    {
        match validate_product_payload(&payload) {
            Err(e) => {
                return Err(e);
            },
            Ok(()) => {},
        }
        let id = self.next_id();
        let item = Product {
            id,
            name: payload.name,
            category: payload.category,
            quantity: payload.quantity,
            created_at: now,
            updated_at: None,
        };
        self.do_insert(&item);
        proof {
            assert(self.contents() =~= old(self).contents().insert(item.id, item));
        }
        Ok(item)
    }

    /// What a successful update does: the payload's name, category and
    /// quantity overwrite the record's, `created_at` is preserved, and
    /// `updated_at` is refreshed with `now`.
    pub open spec fn update_product_ok(
        pre: Store,
        post: Store,
        id: u64,
        payload: ProductPayload,
        now: u64,
        p: Product,
    ) -> bool {
        &&& pre.has_id(id)
        &&& p.id == id
        &&& p.name == payload.name
        &&& p.category == payload.category
        &&& p.quantity == payload.quantity
        &&& p.created_at == pre.product_for(id).created_at
        &&& p.updated_at == Some(now)
        &&& post.spec_counter() == pre.spec_counter()
        &&& post.contents() =~= pre.contents().insert(id, p)
        &&& post.wf()
    }

    /// Overwrites an existing record's name, category and quantity from a
    /// validated payload, stamping `updated_at` with `now`.
    pub fn update_product(&mut self, id: u64, payload: ProductPayload, now: u64) -> (r: Result<
        Product,
        Error,
    >)
        requires
            old(self).wf(),
        ensures
            final(self).wf(),
            final(self).spec_counter() == old(self).spec_counter(),
            !valid_product_payload(payload) ==> (*final(self) == *old(self) && (r matches Err(e)
                && product_payload_error(e, payload))),
            valid_product_payload(payload) && !old(self).has_id(id) ==> (*final(self) == *old(self)
                && (r matches Err(e) && e matches Error::NotFound { msg } && msg@
                == update_not_found_msg(id))),
            valid_product_payload(payload) && old(self).has_id(id) ==> (r matches Ok(p)
                && Store::update_product_ok(*old(self), *final(self), id, payload, now, p)),
    {
        match validate_product_payload(&payload) {
            Err(e) => {
                return Err(e);
            },
            Ok(()) => {},
        }
        match self._get_product(id) {
            Some(product) => {
                proof {
                    self.lemma_found(id);
                }
                let updated = Product {
                    id,
                    name: payload.name,
                    category: payload.category,
                    quantity: payload.quantity,
                    created_at: product.created_at,
                    updated_at: Some(now),
                };
                self.do_insert(&updated);
                Ok(updated)
            },
            None => Err(
                Error::NotFound {
                    msg: msg_with_id("Couldn't update a product with id=", id, ". Product not found"),
                },
            ),
        }
    }

    /// What a successful stock increase does: the quantity grows by the
    /// amount, everything else but `updated_at` is preserved.
    pub open spec fn add_quantity_ok(
        pre: Store,
        post: Store,
        id: u64,
        amount: u32,
        now: u64,
        p: Product,
    ) -> bool {
        &&& pre.has_id(id)
        &&& 0 < amount
        &&& p.id == id
        &&& p.name == pre.product_for(id).name
        &&& p.category == pre.product_for(id).category
        &&& p.quantity == pre.product_for(id).quantity + amount
        &&& p.created_at == pre.product_for(id).created_at
        &&& p.updated_at == Some(now)
        &&& post.spec_counter() == pre.spec_counter()
        &&& post.contents() =~= pre.contents().insert(id, p)
        &&& post.wf()
    }

    /// Adds stock to a record's quantity. The addition is proved not to
    /// overflow under the stated bound; a quantity near the unsigned maximum
    /// is a fatal internal condition the caller must rule out, not an error
    /// this operation can return.
    pub fn add_quantity(&mut self, id: u64, payload: StockPayload, now: u64) -> (r: Result<
        Product,
        Error,
    >)
        requires
            old(self).wf(),
            old(self).has_id(id) ==> old(self).product_for(id).quantity + payload.amount
                <= u32::MAX,
        ensures
            final(self).wf(),
            final(self).spec_counter() == old(self).spec_counter(),
            payload.amount == 0 ==> (*final(self) == *old(self) && (r matches Err(e)
                && stock_payload_error(e))),
            payload.amount > 0 && !old(self).has_id(id) ==> (*final(self) == *old(self) && (
            r matches Err(e) && e matches Error::NotFound { msg } && msg@
                == add_quantity_not_found_msg(id))),
            payload.amount > 0 && old(self).has_id(id) ==> (r matches Ok(p)
                && Store::add_quantity_ok(*old(self), *final(self), id, payload.amount, now, p)),
    {
        match validate_stock_payload(&payload) {
            Err(e) => {
                return Err(e);
            },
            Ok(()) => {},
        }
        match self._get_product(id) {
            Some(product) => {
                proof {
                    self.lemma_found(id);
                }
                let updated = Product {
                    id,
                    name: product.name,
                    category: product.category,
                    quantity: product.quantity + payload.amount,
                    created_at: product.created_at,
                    updated_at: Some(now),
                };
                self.do_insert(&updated);
                Ok(updated)
            },
            None => Err(
                Error::NotFound {
                    msg: msg_with_id(
                        "Couldn't add quantity to product with id=",
                        id,
                        ". Product not found",
                    ),
                },
            ),
        }
    }

    /// What a successful stock decrease does: the quantity shrinks by the
    /// amount, which is positive and at most the available quantity;
    /// everything else but `updated_at` is preserved.
    pub open spec fn offload_quantity_ok(
        pre: Store,
        post: Store,
        id: u64,
        amount: u32,
        now: u64,
        p: Product,
    ) -> bool {
        &&& pre.has_id(id)
        &&& 0 < amount <= pre.product_for(id).quantity
        &&& p.id == id
        &&& p.name == pre.product_for(id).name
        &&& p.category == pre.product_for(id).category
        &&& p.quantity == pre.product_for(id).quantity - amount
        &&& p.created_at == pre.product_for(id).created_at
        &&& p.updated_at == Some(now)
        &&& post.spec_counter() == pre.spec_counter()
        &&& post.contents() =~= pre.contents().insert(id, p)
        &&& post.wf()
    }

    /// Removes stock from a record's quantity. The two-part guard — the
    /// zero-quantity check, then the amount-exceeds-available check — runs
    /// strictly before the subtraction, so the unsigned quantity can never
    /// wrap below zero.
    pub fn offload_quantity(&mut self, id: u64, payload: StockPayload, now: u64) -> (r: Result<
        Product,
        Error,
    >)
        requires
            old(self).wf(),
        ensures
            final(self).wf(),
            final(self).spec_counter() == old(self).spec_counter(),
            payload.amount == 0 ==> (*final(self) == *old(self) && (r matches Err(e)
                && stock_payload_error(e))),
            payload.amount > 0 && !old(self).has_id(id) ==> (*final(self) == *old(self) && (
            r matches Err(e) && e matches Error::NotFound { msg } && msg@ == offload_not_found_msg(
                id,
            ))),
            payload.amount > 0 && old(self).has_id(id) && old(self).product_for(id).quantity == 0
                ==> (*final(self) == *old(self) && (r matches Err(e) && e
                matches Error::InvalidOperation { msg } && msg@ == offload_zero_msg(id))),
            payload.amount > 0 && old(self).has_id(id) && 0 < old(self).product_for(id).quantity
                < payload.amount ==> (*final(self) == *old(self) && (r matches Err(e) && e
                matches Error::InvalidOperation { msg } && msg@ == offload_exceed_msg(
                old(self).product_for(id).quantity,
                payload.amount,
            ))),
            payload.amount > 0 && old(self).has_id(id) && 0 < payload.amount <= old(
                self,
            ).product_for(id).quantity ==> (r matches Ok(p) && Store::offload_quantity_ok(
                *old(self),
                *final(self),
                id,
                payload.amount,
                now,
                p,
            )),
    {
        match validate_stock_payload(&payload) {
            Err(e) => {
                return Err(e);
            },
            Ok(()) => {},
        }
        match self._get_product(id) {
            Some(product) => {
                proof {
                    self.lemma_found(id);
                }
                if product.quantity == 0 {
                    return Err(
                        Error::InvalidOperation {
                            msg: msg_with_id(
                                "Product with id=",
                                id,
                                " cannot be offloaded because the quantity is 0",
                            ),
                        },
                    );
                }
                if payload.amount > product.quantity {
                    return Err(
                        Error::InvalidOperation {
                            msg: msg_two_amounts(
                                "Cannot offload more than available quantity. Available: ",
                                product.quantity,
                                ", Trying to offload: ",
                                payload.amount,
                            ),
                        },
                    );
                }
                let updated = Product {
                    id,
                    name: product.name,
                    category: product.category,
                    quantity: product.quantity - payload.amount,
                    created_at: product.created_at,
                    updated_at: Some(now),
                };
                self.do_insert(&updated);
                Ok(updated)
            },
            None => Err(
                Error::NotFound {
                    msg: msg_with_id(
                        "Couldn't offload a product with id=",
                        id,
                        ". Product not found",
                    ),
                },
            ),
        }
    }
}

/// The two views of the repository agree: an id is live exactly when it lies
/// in the contents' domain, and a lookup returns exactly the mapped record.
pub proof fn lemma_contents_agree(s: Store, id: u64)
    ensures
        s.has_id(id) <==> s.contents().dom().contains(id),
        s.has_id(id) ==> s.lookup(id) == Some(s.contents()[id]),
        !s.has_id(id) ==> s.lookup(id) is None,
{
}

/// Round trip: the record a successful creation returns is exactly what a
/// lookup of its id then produces.
pub proof fn lemma_create_then_lookup(
    pre: Store,
    post: Store,
    payload: ProductPayload,
    now: u64,
    p: Product,
)
    requires
        Store::add_product_ok(pre, post, payload, now, p),
    ensures
        post.lookup(p.id) == Some(p),
{
    assert(post.contents() == pre.contents().insert(p.id, p));
    assert(post.contents().dom().contains(p.id));
    assert(post.has_id(p.id));
    assert(post.product_for(p.id) == post.contents()[p.id]);
    assert(post.product_for(p.id) == p);
}

/// Monotonic identifiers: two successful creations, with any operations in
/// between (none of which ever lowers the counter), return strictly
/// increasing ids — even after removals, since removal retires an id without
/// touching the counter.
pub proof fn lemma_monotonic_ids(
    pre1: Store,
    post1: Store,
    payload1: ProductPayload,
    now1: u64,
    p1: Product,
    pre2: Store,
    post2: Store,
    payload2: ProductPayload,
    now2: u64,
    p2: Product,
)
    requires
        Store::add_product_ok(pre1, post1, payload1, now1, p1),
        post1.spec_counter() <= pre2.spec_counter(),
        Store::add_product_ok(pre2, post2, payload2, now2, p2),
    ensures
        p1.id < p2.id,
{
}

/// Quantity non-negativity: quantities are unsigned by construction, and a
/// successful decrease subtracts an amount bounded by the available stock, so
/// the subtraction can never produce a value below zero.
pub proof fn lemma_offload_never_underflows(
    pre: Store,
    post: Store,
    id: u64,
    amount: u32,
    now: u64,
    p: Product,
)
    requires
        Store::offload_quantity_ok(pre, post, id, amount, now, p),
    ensures
        p.quantity >= 0,
        pre.product_for(id).quantity - amount >= 0,
        p.quantity == pre.product_for(id).quantity - amount,
{
}

/// Idempotent removal: after a successful removal the id has no live record,
/// so a second `remove_product` of the same id returns `NotFound` (by
/// `remove_product`'s contract, which returns `Ok` exactly when the id is
/// live).
pub proof fn lemma_remove_idempotent(pre: Store, post: Store, id: u64, p: Product)
    requires
        Store::remove_ok(pre, post, id, p),
    ensures
        !post.has_id(id),
        post.lookup(id) is None,
{
    assert(post.contents() == pre.contents().remove(id));
    assert(!post.contents().dom().contains(id));
    assert(!post.has_id(id));
}

/// Decrease/increase inverse: offloading an amount no greater than the
/// available quantity and then adding the same amount back restores the
/// original quantity.
pub proof fn lemma_offload_then_add_restores(
    s0: Store,
    s1: Store,
    s2: Store,
    id: u64,
    amount: u32,
    now1: u64,
    now2: u64,
    p1: Product,
    p2: Product,
)
    requires
        Store::offload_quantity_ok(s0, s1, id, amount, now1, p1),
        Store::add_quantity_ok(s1, s2, id, amount, now2, p2),
    ensures
        p2.quantity == s0.product_for(id).quantity,
{
    assert(s1.contents() == s0.contents().insert(id, p1));
    assert(s1.contents().dom().contains(id));
    assert(s1.has_id(id));
    assert(s1.product_for(id) == s1.contents()[id]);
    assert(s1.product_for(id) == p1);
}

} // verus!
