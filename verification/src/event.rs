//! The events that the registry emits.

use vstd::prelude::*;
use crate::product::ProductId;

verus! {

/// What the registry announces to those who watch it.
#[derive(Clone, Debug, PartialEq, Eq)]
pub enum Event<AccountId> {
    /// A product was registered: by whom, for which owner, under which
    /// identifier.
    ProductRegistered(AccountId, AccountId, ProductId),
}

/// What an event says.
pub enum EventView<AccountId> {
    ProductRegistered(AccountId, AccountId, Seq<u8>),
}

impl<AccountId> View for Event<AccountId> {
    type V = EventView<AccountId>;

    open spec fn view(&self) -> EventView<AccountId> {
        match *self {
            Event::ProductRegistered(submitter, owner, id) => EventView::ProductRegistered(
                submitter,
                owner,
                id@,
            ),
        }
    }
}

} // verus!
