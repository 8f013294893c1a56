//! The registration handler and the state it works on.

use vstd::prelude::*;
use vstd::slice::slice_to_vec;
use crate::error::Error;
use crate::event::{Event, EventView};
use crate::origin::{ensure_signed, Origin};
use crate::product::{
    props_view, valid_product_id, Product, ProductBuilder, ProductId, ProductProperty, ProductView,
    PropertyView, PRODUCT_ID_MAX_LENGTH,
};
use crate::registry::{records_consistent, Registry};

verus! {

/// What the host settles for the registry: how it names a principal and how
/// it tells the time.
pub trait Trait {
    /// The identity of a principal. The registry never looks inside it.
    type AccountId: Clone;

    /// A point in time as the host reports it.
    type Moment;
}

/// Why a registration is turned down, if it is turned down. The origin is
/// judged first, then the identifier's length, then its being taken, and the
/// first of these that fails gives the error. `exists` says whether the
/// identifier is a key of the registry.
pub open spec fn registration_error<AccountId>(
    origin: Origin<AccountId>,
    id: Seq<u8>,
    exists: bool,
) -> Option<Error> {
    if origin.signer() is None {
        Some(Error::BadOrigin)
    } else if id.len() == 0 {
        Some(Error::ProductIdMissing)
    } else if id.len() > PRODUCT_ID_MAX_LENGTH {
        Some(Error::ProductIdTooLong)
    } else if exists {
        Some(Error::ProductIdExists)
    } else {
        None
    }
}

/// What a registration returns when the registry holds `products`.
pub open spec fn register_result<AccountId, Moment>(
    products: Map<Seq<u8>, ProductView<AccountId, Moment>>,
    origin: Origin<AccountId>,
    id: Seq<u8>,
) -> Result<(), Error> {
    match registration_error(origin, id, products.contains_key(id)) {
        Some(error) => Err(error),
        None => Ok(()),
    }
}

/// What the registry holds after a registration that found it holding
/// `products`: one record more where the registration is not turned down,
/// and the same records where it is.
pub open spec fn register_products<AccountId, Moment>(
    products: Map<Seq<u8>, ProductView<AccountId, Moment>>,
    origin: Origin<AccountId>,
    id: Seq<u8>,
    owner: AccountId,
    props: Option<Seq<PropertyView>>,
    now: Moment,
) -> Map<Seq<u8>, ProductView<AccountId, Moment>> {
    if registration_error(origin, id, products.contains_key(id)) is None {
        products.insert(id, ProductView { id, owner, registered: now, props })
    } else {
        products
    }
}

/// Whether `event` announces the registration of `id` by `submitter` for
/// `owner`. The event carries a clone of the owner.
pub open spec fn announces<AccountId: Clone>(
    event: EventView<AccountId>,
    submitter: AccountId,
    owner: AccountId,
    id: Seq<u8>,
) -> bool {
    match event {
        EventView::ProductRegistered(by, to, what) => by == submitter && cloned(owner, to) && what
            == id,
    }
}

/// What an accepted registration asks the host to do: store the record, then
/// emit the event.
pub struct Registration<AccountId, Moment> {
    pub product: Product<AccountId, Moment>,
    pub event: Event<AccountId>,
}

/// The registry with its handler: the stored records, and the events that
/// wait for the host to collect them.
pub struct Module<T: Trait> {
    products: Registry<T::AccountId, T::Moment>,
    events: Vec<Event<T::AccountId>>,
}

impl<T: Trait> Module<T> {
    /// The stored records as a map from identifier to record.
    pub closed spec fn products(&self) -> Map<Seq<u8>, ProductView<T::AccountId, T::Moment>> {
        self.products@
    }

    /// The events that wait to be collected, oldest first.
    pub closed spec fn events(&self) -> Seq<EventView<T::AccountId>> {
        self.events@.map_values(|event: Event<T::AccountId>| event@)
    }

    /// The registry's invariant; every operation keeps it.
    pub closed spec fn wf(&self) -> bool {
        self.products.wf()
    }

    /// A well-formed registry keeps the invariants of the data model: every
    /// key is a valid identifier, and every record is stored under its own.
    pub proof fn lemma_consistent(&self)
        requires
            self.wf(),
        ensures
            records_consistent(self.products()),
    {
        self.products.lemma_consistent();
    }

    /// A registry that holds nothing and has announced nothing.
    pub fn new() -> (module: Self)
        ensures
            module.wf(),
            module.products() == Map::<Seq<u8>, ProductView<T::AccountId, T::Moment>>::empty(),
            module.events() == Seq::<EventView<T::AccountId>>::empty(),
    {
        let module = Module { products: Registry::new(), events: Vec::new() };
        assert(module.events() =~= Seq::<EventView<T::AccountId>>::empty());
        module
    }

    /// A registry that starts out with the records of `products`.
    pub fn with_products(products: Registry<T::AccountId, T::Moment>) -> (module: Self)
        requires
            products.wf(),
        ensures
            module.wf(),
            module.products() == products@,
            module.events() == Seq::<EventView<T::AccountId>>::empty(),
    {
        let module = Module { products, events: Vec::new() };
        assert(module.events() =~= Seq::<EventView<T::AccountId>>::empty());
        module
    }

    /// Checks the format of an identifier: it is neither empty nor longer than
    /// `PRODUCT_ID_MAX_LENGTH` bytes. Nothing else is asked of it.
    pub fn validate_product_id(id: &[u8]) -> (verdict: Result<(), Error>)
        ensures
            id@.len() == 0 ==> verdict == Err::<(), Error>(Error::ProductIdMissing),
            1 <= id@.len() <= PRODUCT_ID_MAX_LENGTH ==> verdict == Ok::<(), Error>(()),
            id@.len() > PRODUCT_ID_MAX_LENGTH ==> verdict == Err::<(), Error>(
                Error::ProductIdTooLong,
            ),
            verdict is Ok <==> valid_product_id(id@),
    {
        if id.is_empty() {
            return Err(Error::ProductIdMissing);
        }
        if id.len() > PRODUCT_ID_MAX_LENGTH {
            return Err(Error::ProductIdTooLong);
        }
        Ok(())
    }

    /// Checks that nothing is registered under `id` yet, with one lookup.
    pub fn validate_new_product(&self, id: &[u8]) -> (verdict: Result<(), Error>)
        requires
            self.wf(),
        ensures
            verdict == if self.products().contains_key(id@) {
                Err::<(), Error>(Error::ProductIdExists)
            } else {
                Ok::<(), Error>(())
            },
    {
        if self.products.contains(id) {
            return Err(Error::ProductIdExists);
        }
        Ok(())
    }

    /// Judges a registration, step by step: the origin must be signed, the
    /// identifier well-formed, and, as `exists` tells, not taken. The first
    /// step that fails gives the error. A registration that passes them all
    /// yields the record to store, stamped with `now`, and the event to emit.
    pub fn prepare_registration(
        origin: Origin<T::AccountId>,
        id: &[u8],
        owner: T::AccountId,
        props: Option<Vec<ProductProperty>>,
        exists: bool,
        now: T::Moment,
    ) -> (outcome: Result<Registration<T::AccountId, T::Moment>, Error>)
        ensures
            match outcome {
                Ok(registration) => {
                    &&& registration_error(origin, id@, exists) is None
                    &&& registration.product@ == (ProductView {
                        id: id@,
                        owner,
                        registered: now,
                        props: props_view(props),
                    })
                    &&& announces(registration.event@, origin.signer().unwrap(), owner, id@)
                },
                Err(error) => registration_error(origin, id@, exists) == Some(error),
            },
    {
        let who = ensure_signed(origin)?;
        Self::validate_product_id(id)?;
        if exists {
            return Err(Error::ProductIdExists);
        }
        let event = Event::ProductRegistered(who, owner.clone(), slice_to_vec(id));
        let product = ProductBuilder::new(slice_to_vec(id), owner, now, props).build();
        Ok(Registration { product, event })
    }

    /// Registers a product: `origin` submits `id` for `owner`, with `props`,
    /// at the moment `now`.
    ///
    /// The registration is judged as `prepare_registration` does, against the
    /// stored records. Where it passes, the record is stored under `id` and
    /// the event is queued behind those that wait. Where it fails, the error
    /// says at which step, and neither the records nor the events change.
    pub fn register_product(
        &mut self,
        origin: Origin<T::AccountId>,
        id: ProductId,
        owner: T::AccountId,
        props: Option<Vec<ProductProperty>>,
        now: T::Moment,
    ) -> (result: Result<(), Error>)
        requires
            old(self).wf(),
        ensures
            final(self).wf(),
            result == register_result(old(self).products(), origin, id@),
            final(self).products() == register_products(
                old(self).products(),
                origin,
                id@,
                owner,
                props_view(props),
                now,
            ),
            result is Err ==> {
                &&& final(self).products() == old(self).products()
                &&& final(self).events() == old(self).events()
            },
            result is Ok ==> {
                &&& final(self).events().len() == old(self).events().len() + 1
                &&& final(self).events().drop_last() == old(self).events()
                &&& announces(
                    final(self).events().last(),
                    origin.signer().unwrap(),
                    owner,
                    id@,
                )
            },
    {
        let exists = self.products.contains(id.as_slice());
        match Self::prepare_registration(origin, id.as_slice(), owner, props, exists, now) {
            Ok(registration) => {
                let Registration { product, event } = registration;
                let ghost queued = self.events();
                self.products.insert(id.as_slice(), product);
                self.events.push(event);
                assert(self.events().drop_last() =~= queued);
                Ok(())
            },
            Err(error) => Err(error),
        }
    }

    /// How many products are registered.
    pub fn product_count(&self) -> (count: usize)
        requires
            self.wf(),
        ensures
            self.products().dom().finite(),
            count == self.products().len(),
    {
        self.products.len()
    }

    /// The record registered under `id`, if there is one.
    pub fn product_by_id(&self, id: &[u8]) -> (record: Option<&Product<T::AccountId, T::Moment>>)
        requires
            self.wf(),
        ensures
            match record {
                Some(product) => self.products().contains_key(id@) && product@
                    == self.products()[id@],
                None => !self.products().contains_key(id@),
            },
    {
        self.products.get(id)
    }

    /// The owner of the product registered under `id`, if there is one: the
    /// owner that its record names.
    pub fn owner_of(&self, id: &[u8]) -> (owner: Option<&T::AccountId>)
        requires
            self.wf(),
        ensures
            match owner {
                Some(who) => self.products().contains_key(id@) && *who
                    == self.products()[id@].owner,
                None => !self.products().contains_key(id@),
            },
    {
        match self.products.get(id) {
            Some(product) => Some(&product.owner),
            None => None,
        }
    }

    /// Hands the waiting events to the host, oldest first, and leaves none
    /// behind. The records stay as they are.
    pub fn take_events(&mut self) -> (taken: Vec<Event<T::AccountId>>)
        ensures
            taken@.map_values(|event: Event<T::AccountId>| event@) == old(self).events(),
            final(self).events() == Seq::<EventView<T::AccountId>>::empty(),
            final(self).products() == old(self).products(),
            final(self).wf() == old(self).wf(),
    {
        let mut taken: Vec<Event<T::AccountId>> = Vec::new();
        std::mem::swap(&mut self.events, &mut taken);
        assert(self.events() =~= Seq::<EventView<T::AccountId>>::empty());
        taken
    }
}

} // verus!
