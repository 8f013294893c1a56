//! A write-once registry of products.
//!
//! A registration command names an identifier of bounded length, an owning
//! principal and, optionally, a few descriptive properties. The registry
//! validates the identifier, refuses one that is already taken, stamps the
//! record with the moment of the commit and announces it with an event.

pub mod error;
pub mod event;
pub mod lemmas;
pub mod module;
pub mod origin;
pub mod product;
pub mod registry;

pub use error::Error;
pub use event::{Event, EventView};
pub use module::{
    announces, register_products, register_result, registration_error, Module, Registration, Trait,
};
pub use origin::{ensure_signed, Origin};
pub use product::{
    props_view, valid_product_id, Product, ProductBuilder, ProductId, ProductProperty, ProductView,
    PropertyView, PRODUCT_ID_MAX_LENGTH,
};
pub use registry::{records_consistent, Registry};
