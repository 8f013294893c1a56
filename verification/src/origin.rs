//! The origin of a command and its resolution to a principal.

use vstd::prelude::*;
use crate::error::Error;

verus! {

/// Where a command comes from, as the host hands it to the registry.
#[derive(Clone, Debug, PartialEq, Eq)]
pub enum Origin<AccountId> {
    /// The host itself ordered the command.
    Root,
    /// A principal signed the command.
    Signed(AccountId),
    /// Nobody signed the command.
    Unsigned,
}

impl<AccountId> Origin<AccountId> {
    /// The origin of a command that `who` signed.
    pub fn signed(who: AccountId) -> (origin: Self)
        ensures
            origin == Origin::Signed(who),
    {
        Origin::Signed(who)
    }

    /// The origin of a command that nobody signed.
    pub fn none() -> (origin: Self)
        ensures
            origin == Origin::<AccountId>::Unsigned,
    {
        Origin::Unsigned
    }

    /// The origin of a command that the host itself ordered.
    pub fn root() -> (origin: Self)
        ensures
            origin == Origin::<AccountId>::Root,
    {
        Origin::Root
    }

    /// The principal that an origin stands for, if it stands for one.
    pub open spec fn signer(self) -> Option<AccountId> {
        match self {
            Origin::Signed(who) => Some(who),
            _ => None,
        }
    }
}

/// Resolves an origin to the principal that signed it. Only a signed origin
/// resolves; the root and the unsigned origin are turned down.
pub fn ensure_signed<AccountId>(origin: Origin<AccountId>) -> (who: Result<AccountId, Error>)
    ensures
        who == match origin.signer() {
            Some(w) => Ok::<AccountId, Error>(w),
            None => Err::<AccountId, Error>(Error::BadOrigin),
        },
{
    match origin {
        Origin::Signed(who) => Ok(who),
        _ => Err(Error::BadOrigin),
    }
}

} // verus!
