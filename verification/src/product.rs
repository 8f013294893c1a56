//! Product records, their identifiers and properties, and the builder that
//! assembles a record.

use vstd::prelude::*;

verus! {

/// Longest identifier, in bytes, that the registry accepts.
pub const PRODUCT_ID_MAX_LENGTH: usize = 14;

/// An identifier is a plain byte string; it is the key under which a product
/// is stored.
pub type ProductId = Vec<u8>;

/// Whether a byte string has the length of an identifier: at least one byte
/// and at most `PRODUCT_ID_MAX_LENGTH`. Nothing else is asked of it.
pub open spec fn valid_product_id(id: Seq<u8>) -> bool {
    0 < id.len() <= PRODUCT_ID_MAX_LENGTH
}

/// One descriptive attribute of a product.
#[derive(Clone, Debug, PartialEq, Eq)]
pub struct ProductProperty {
    pub name: Vec<u8>,
    pub value: Vec<u8>,
}

/// What a property says: its name and its value as byte strings.
pub struct PropertyView {
    pub name: Seq<u8>,
    pub value: Seq<u8>,
}

impl View for ProductProperty {
    type V = PropertyView;

    open spec fn view(&self) -> PropertyView {
        PropertyView { name: self.name@, value: self.value@ }
    }
}

/// What an optional list of properties says.
pub open spec fn props_view(props: Option<Vec<ProductProperty>>) -> Option<Seq<PropertyView>> {
    match props {
        Some(list) => Some(list@.map_values(|p: ProductProperty| p@)),
        None => None,
    }
}

/// The unit of storage: an identifier bound to its owner, the moment of its
/// registration and the properties it was registered with.
#[derive(Clone, Debug, PartialEq, Eq)]
pub struct Product<AccountId, Moment> {
    pub id: ProductId,
    pub owner: AccountId,
    pub registered: Moment,
    pub props: Option<Vec<ProductProperty>>,
}

/// What a product record says.
pub struct ProductView<AccountId, Moment> {
    pub id: Seq<u8>,
    pub owner: AccountId,
    pub registered: Moment,
    pub props: Option<Seq<PropertyView>>,
}

impl<AccountId, Moment> View for Product<AccountId, Moment> {
    type V = ProductView<AccountId, Moment>;

    open spec fn view(&self) -> ProductView<AccountId, Moment> {
        ProductView {
            id: self.id@,
            owner: self.owner,
            registered: self.registered,
            props: props_view(self.props),
        }
    }
}

/// Assembles a product record field by field.
///
/// `new` takes every field and is what a registration goes through. The
/// `Default` builder starts from placeholder values and is meant for fixtures:
/// a record that is to be stored has each of its fields set.
pub struct ProductBuilder<AccountId, Moment> {
    id: ProductId,
    owner: AccountId,
    registered: Moment,
    props: Option<Vec<ProductProperty>>,
}

impl<AccountId, Moment> View for ProductBuilder<AccountId, Moment> {
    type V = ProductView<AccountId, Moment>;

    /// The record that `build` would hand out.
    closed spec fn view(&self) -> ProductView<AccountId, Moment> {
        ProductView {
            id: self.id@,
            owner: self.owner,
            registered: self.registered,
            props: props_view(self.props),
        }
    }
}

impl<AccountId: Default, Moment: Default> Default for ProductBuilder<AccountId, Moment> {
    /// A builder with an empty identifier, no properties, and the default
    /// owner and moment.
    fn default() -> (builder: Self)
        ensures
            builder@.id == Seq::<u8>::empty(),
            builder@.props == None::<Seq<PropertyView>>,
            call_ensures(AccountId::default, (), builder@.owner),
            call_ensures(Moment::default, (), builder@.registered),
    {
        ProductBuilder {
            id: Vec::new(),
            owner: AccountId::default(),
            registered: Moment::default(),
            props: None,
        }
    }
}

impl<AccountId, Moment> ProductBuilder<AccountId, Moment> {
    /// A builder with every field set.
    pub fn new(
        id: ProductId,
        owner: AccountId,
        registered: Moment,
        props: Option<Vec<ProductProperty>>,
    ) -> (builder: Self)
        ensures
            builder@ == (ProductView { id: id@, owner, registered, props: props_view(props) }),
    {
        ProductBuilder { id, owner, registered, props }
    }

    /// Sets the identifier.
    pub fn identified_by(self, id: ProductId) -> (builder: Self)
        ensures
            builder@ == (ProductView { id: id@, ..self@ }),
    {
        let mut builder = self;
        builder.id = id;
        builder
    }

    /// Sets the owner.
    pub fn owned_by(self, owner: AccountId) -> (builder: Self)
        ensures
            builder@ == (ProductView { owner, ..self@ }),
    {
        let mut builder = self;
        builder.owner = owner;
        builder
    }

    /// Sets the moment of registration.
    pub fn created_on(self, registered: Moment) -> (builder: Self)
        ensures
            builder@ == (ProductView { registered, ..self@ }),
    {
        let mut builder = self;
        builder.registered = registered;
        builder
    }

    /// Sets the properties.
    pub fn with_props(self, props: Option<Vec<ProductProperty>>) -> (builder: Self)
        ensures
            builder@ == (ProductView { props: props_view(props), ..self@ }),
    {
        let mut builder = self;
        builder.props = props;
        builder
    }

    /// The record with the fields as they were set.
    pub fn build(self) -> (product: Product<AccountId, Moment>)
        ensures
            product@ == self@,
    {
        Product { id: self.id, owner: self.owner, registered: self.registered, props: self.props }
    }
}

} // verus!
