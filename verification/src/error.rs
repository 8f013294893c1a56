//! The errors of a registration.

use vstd::prelude::*;

verus! {

/// Why a registration was turned down. The taxonomy is flat: every variant is
/// returned to the submitter as it is, and none wraps another cause.
#[derive(Clone, Copy, Debug, PartialEq, Eq, Structural)]
pub enum Error {
    /// The origin could not be resolved to a verified principal.
    BadOrigin,
    /// The identifier is empty.
    ProductIdMissing,
    /// The identifier is longer than `PRODUCT_ID_MAX_LENGTH` bytes.
    ProductIdTooLong,
    /// The identifier is already a key of the registry.
    ProductIdExists,
}

} // verus!
