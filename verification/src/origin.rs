//! Where a call comes from, as the host has authenticated it.

use vstd::prelude::*;
use crate::error::Error;

verus! {

/// The authenticated source of a call. The host decides it; the library only
/// tells the three kinds apart and compares identities for equality.
#[derive(Clone, Debug, PartialEq, Eq)]
pub enum Origin<A> {
    /// The host's highest authority, which is no account.
    Root,
    /// The account that signed the call.
    Signed(A),
    /// No authority at all.
    Unsigned,
}

impl<A> Origin<A> {
    /// What `ensure_signed` gives for an origin.
    pub open spec fn signer(self) -> Result<A, Error> {
        match self {
            Origin::Signed(who) => Ok(who),
            _ => Err(Error::BadOrigin),
        }
    }

    /// What `ensure_signed_or_root` gives for an origin.
    pub open spec fn signer_or_root(self) -> Result<Option<A>, Error> {
        match self {
            Origin::Root => Ok(None),
            Origin::Signed(who) => Ok(Some(who)),
            Origin::Unsigned => Err(Error::BadOrigin),
        }
    }

    /// The account behind a signed origin; any other origin is a bad origin.
    pub fn ensure_signed(self) -> (res: Result<A, Error>)
        ensures
            res == self.signer(),
    {
        match self {
            Origin::Signed(who) => Ok(who),
            _ => Err(Error::BadOrigin),
        }
    }

    /// The account behind a signed origin, or `None` for the root; an origin
    /// without authority is a bad origin.
    pub fn ensure_signed_or_root(self) -> (res: Result<Option<A>, Error>)
        ensures
            res == self.signer_or_root(),
    {
        match self {
            Origin::Root => Ok(None),
            Origin::Signed(who) => Ok(Some(who)),
            Origin::Unsigned => Err(Error::BadOrigin),
        }
    }
}

} // verus!
