//! What holds of every registration, stated over the registry as a map from
//! identifier to record.

use vstd::prelude::*;
use crate::error::Error;
use crate::module::{register_products, register_result};
use crate::origin::Origin;
use crate::product::{valid_product_id, ProductView, PropertyView};
use crate::registry::records_consistent;

verus! {

/// A registration that fails changes nothing: the registry holds the same
/// records, under the same keys, as before.
pub proof fn lemma_failure_changes_nothing<AccountId, Moment>(
    products: Map<Seq<u8>, ProductView<AccountId, Moment>>,
    origin: Origin<AccountId>,
    id: Seq<u8>,
    owner: AccountId,
    props: Option<Seq<PropertyView>>,
    now: Moment,
)
    requires
        register_result(products, origin, id) is Err,
    ensures
        register_products(products, origin, id, owner, props, now) == products,
        register_products(products, origin, id, owner, props, now).dom() == products.dom(),
{
}

/// A registration that succeeds can be read back: the registry then holds,
/// under the submitted identifier, a record with that identifier, the
/// submitted owner and properties, and the moment of the registration.
pub proof fn lemma_success_can_be_read_back<AccountId, Moment>(
    products: Map<Seq<u8>, ProductView<AccountId, Moment>>,
    origin: Origin<AccountId>,
    id: Seq<u8>,
    owner: AccountId,
    props: Option<Seq<PropertyView>>,
    now: Moment,
)
    requires
        register_result(products, origin, id) is Ok,
    ensures
        register_products(products, origin, id, owner, props, now).contains_key(id),
        register_products(products, origin, id, owner, props, now)[id] == (ProductView {
            id,
            owner,
            registered: now,
            props,
        }),
        register_products(products, origin, id, owner, props, now).dom() == products.dom().insert(
            id,
        ),
{
}

/// An identifier is registered once. Where a signed origin registers a valid
/// identifier that is free, the registration succeeds; a second registration
/// of the same identifier by a signed origin, whatever owner, properties and
/// moment it names, fails because the identifier exists, and the registry
/// stays as the first registration left it: the first record is not
/// overwritten.
pub proof fn lemma_second_registration_fails<AccountId, Moment>(
    products: Map<Seq<u8>, ProductView<AccountId, Moment>>,
    id: Seq<u8>,
    first_origin: Origin<AccountId>,
    first_owner: AccountId,
    first_props: Option<Seq<PropertyView>>,
    first_now: Moment,
    second_origin: Origin<AccountId>,
    second_owner: AccountId,
    second_props: Option<Seq<PropertyView>>,
    second_now: Moment,
)
    requires
        valid_product_id(id),
        !products.contains_key(id),
        first_origin.signer() is Some,
        second_origin.signer() is Some,
    ensures
        ({
            let once = register_products(
                products,
                first_origin,
                id,
                first_owner,
                first_props,
                first_now,
            );
            let twice = register_products(
                once,
                second_origin,
                id,
                second_owner,
                second_props,
                second_now,
            );
            &&& register_result(products, first_origin, id) == Ok::<(), Error>(())
            &&& register_result(once, second_origin, id) == Err::<(), Error>(
                Error::ProductIdExists,
            )
            &&& twice == once
            &&& twice[id] == (ProductView {
                id,
                owner: first_owner,
                registered: first_now,
                props: first_props,
            })
        }),
{
}

/// Registration is write-once: whatever a registration does, every record
/// that was stored before it is still stored, under the same key and with the
/// same identifier, owner, moment and properties.
pub proof fn lemma_stored_records_never_change<AccountId, Moment>(
    products: Map<Seq<u8>, ProductView<AccountId, Moment>>,
    origin: Origin<AccountId>,
    id: Seq<u8>,
    owner: AccountId,
    props: Option<Seq<PropertyView>>,
    now: Moment,
)
    ensures
        forall|key: Seq<u8>| #[trigger]
            products.contains_key(key) ==> {
                &&& register_products(products, origin, id, owner, props, now).contains_key(key)
                &&& register_products(products, origin, id, owner, props, now)[key]
                    == products[key]
            },
{
}

/// Registration keeps the stored records consistent: where every key was a
/// valid identifier and every record was stored under its own identifier
/// before, the same holds afterwards.
pub proof fn lemma_registration_keeps_consistency<AccountId, Moment>(
    products: Map<Seq<u8>, ProductView<AccountId, Moment>>,
    origin: Origin<AccountId>,
    id: Seq<u8>,
    owner: AccountId,
    props: Option<Seq<PropertyView>>,
    now: Moment,
)
    requires
        records_consistent(products),
    ensures
        records_consistent(register_products(products, origin, id, owner, props, now)),
{
}

} // verus!
