use product_registry::{Error, Event, Module, Origin, Product, ProductId, Registry, Trait};

type AccountId = [u8; 32];
type Moment = u64;

struct Test;

impl Trait for Test {
    type AccountId = AccountId;
    type Moment = Moment;
}

type ProductRegistry = Module<Test>;

const TEST_PRODUCT_ID: &str = "00012345600012";
const TEST_ORGANIZATION: &str = "Northwind";
const TEST_SENDER: &str = "Alice";
const LONG_VALUE: &str = "Lorem ipsum dolor sit amet, consectetur adipiscing elit. Donec aliquam ut tortor nec congue. Pellente";

/// The account that goes by `name`.
fn account_key(name: &str) -> AccountId {
    let mut key = [0u8; 32];
    for (slot, byte) in key.iter_mut().zip(name.bytes()) {
        *slot = byte;
    }
    key
}

/// A registry that already holds one product.
fn store_test_product(id: ProductId, owner: AccountId, registered: Moment) -> ProductRegistry {
    let mut products = Registry::new();
    products.insert(
        &id.clone(),
        Product {
            id,
            owner,
            registered,
            props: None,
        },
    );
    ProductRegistry::with_products(products)
}

#[test]
fn create_product_with_valid_args() {
    let mut registry = ProductRegistry::new();
    let sender = account_key(TEST_SENDER);
    let id = String::from(TEST_PRODUCT_ID).into_bytes();
    let owner = account_key(TEST_ORGANIZATION);
    let now = 42;

    let result = registry.register_product(Origin::signed(sender), id.clone(), owner.clone(), None, now);

    assert_eq!(result, Ok(()));

    assert_eq!(
        registry.product_by_id(&id),
        Some(&Product {
            id: id.clone(),
            owner: owner,
            registered: now,
            props: None
        })
    );

    assert_eq!(registry.owner_of(&id), Some(&owner));
}

#[test]
fn create_product_with_invalid_sender() {
    let mut registry = ProductRegistry::new();
    assert_eq!(
        registry.register_product(Origin::none(), vec![], account_key(TEST_ORGANIZATION), None, 0),
        Err(Error::BadOrigin)
    );
    assert_eq!(registry.product_count(), 0);
    assert!(registry.take_events().is_empty());
}

#[test]
fn create_product_with_missing_id() {
    let mut registry = ProductRegistry::new();
    assert_eq!(
        registry.register_product(
            Origin::signed(account_key(TEST_SENDER)),
            vec![],
            account_key(TEST_ORGANIZATION),
            None,
            0
        ),
        Err(Error::ProductIdMissing)
    );
    assert_eq!(registry.product_count(), 0);
    assert!(registry.take_events().is_empty());
}

#[test]
fn create_product_with_long_id() {
    let mut registry = ProductRegistry::new();
    assert_eq!(
        registry.register_product(
            Origin::signed(account_key(TEST_SENDER)),
            String::from(LONG_VALUE).into_bytes(),
            account_key(TEST_ORGANIZATION),
            None,
            0
        ),
        Err(Error::ProductIdTooLong)
    );
    assert_eq!(registry.product_count(), 0);
    assert!(registry.take_events().is_empty());
}

#[test]
fn create_product_with_existing_id() {
    let existing_product = String::from(TEST_PRODUCT_ID).into_bytes();
    let now = 42;
    let mut registry =
        store_test_product(existing_product.clone(), account_key(TEST_ORGANIZATION), now);

    assert_eq!(
        registry.register_product(
            Origin::signed(account_key(TEST_SENDER)),
            existing_product.clone(),
            account_key(TEST_ORGANIZATION),
            None,
            now
        ),
        Err(Error::ProductIdExists)
    );
    assert_eq!(registry.product_count(), 1);
    assert!(registry.take_events().is_empty());
    assert_eq!(
        registry.product_by_id(&existing_product),
        Some(&Product {
            id: existing_product.clone(),
            owner: account_key(TEST_ORGANIZATION),
            registered: now,
            props: None
        })
    );
}

#[test]
fn registration_emits_one_event() {
    let mut registry = ProductRegistry::new();
    let sender = account_key(TEST_SENDER);
    let owner = account_key(TEST_ORGANIZATION);
    let id = String::from(TEST_PRODUCT_ID).into_bytes();

    assert_eq!(
        registry.register_product(Origin::signed(sender), id.clone(), owner, None, 42),
        Ok(())
    );
    assert_eq!(registry.take_events(), vec![Event::ProductRegistered(sender, owner, id)]);
    assert!(registry.take_events().is_empty());
    assert_eq!(registry.product_count(), 1);
}
