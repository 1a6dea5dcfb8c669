//! The two role slots and the rule that guards the uploader slot.

use vstd::prelude::*;
use vstd::laws_eq::obeys_concrete_eq;
use crate::error::Error;

verus! {

/// The admin and uploader slots. Each is empty or holds one identity.
#[derive(Clone, Debug, PartialEq, Eq)]
pub struct RoleStore<A> {
    /// Who may reassign the uploader, besides the root.
    pub admin: Option<A>,
    /// Who may submit blobs.
    pub uploader: Option<A>,
}

/// Who may reassign the uploader.
#[derive(Clone, Copy, Debug, PartialEq, Eq, Structural)]
pub enum AuthorizationPolicy {
    /// The root, and the account in the admin slot.
    AdminOrRoot,
    /// The root alone; the admin slot is not consulted.
    RootOnly,
}

impl AuthorizationPolicy {
    /// Whether `sender` may reassign the uploader: `None` stands for the
    /// root, `Some` for a signed account, which is judged against `admin`.
    pub open spec fn permits<A>(self, admin: Option<A>, sender: Option<A>) -> Result<(), Error> {
        match sender {
            None => Ok(()),
            Some(who) => match self {
                AuthorizationPolicy::RootOnly => Err(Error::BadOrigin),
                AuthorizationPolicy::AdminOrRoot => match admin {
                    None => Err(Error::AdminNotSet),
                    Some(current) => if who == current {
                        Ok(())
                    } else {
                        Err(Error::CallableByAdminOnly)
                    },
                },
            },
        }
    }

    /// Decides whether `sender` may reassign the uploader. Identities are
    /// compared with `==`, which must tell whether two are the same value.
    pub fn authorize<A: PartialEq>(&self, admin: &Option<A>, sender: &Option<A>) -> (res: Result<
        (),
        Error,
    >)
        requires
            obeys_concrete_eq::<A>(),
        ensures
            res == self.permits(*admin, *sender),
    {
        proof {
            reveal(obeys_concrete_eq);
        }
        match sender {
            None => Ok(()),
            Some(who) => match self {
                AuthorizationPolicy::RootOnly => Err(Error::BadOrigin),
                AuthorizationPolicy::AdminOrRoot => match admin {
                    None => Err(Error::AdminNotSet),
                    Some(current) => if *who == *current {
                        Ok(())
                    } else {
                        Err(Error::CallableByAdminOnly)
                    },
                },
            },
        }
    }
}

impl<A> RoleStore<A> {
    /// Whether `sender` is the uploader.
    pub open spec fn admits_uploader(self, sender: A) -> Result<(), Error> {
        match self.uploader {
            None => Err(Error::UploaderNotSet),
            Some(current) => if sender == current {
                Ok(())
            } else {
                Err(Error::CallableByUploaderOnly)
            },
        }
    }

    /// Both slots empty.
    pub fn new() -> (roles: Self)
        ensures
            roles.admin is None,
            roles.uploader is None,
    {
        RoleStore { admin: None, uploader: None }
    }

    /// Puts `uploader` in the uploader slot and leaves the admin slot alone.
    pub fn put_uploader(&mut self, uploader: A)
        ensures
            final(self).uploader == Some(uploader),
            final(self).admin == old(self).admin,
    {
        self.uploader = Some(uploader);
    }
}

impl<A: PartialEq> RoleStore<A> {
    /// Decides whether `sender` may submit blobs. Identities are compared
    /// with `==`, which must tell whether two are the same value.
    pub fn ensure_uploader(&self, sender: &A) -> (res: Result<(), Error>)
        requires
            obeys_concrete_eq::<A>(),
        ensures
            res == self.admits_uploader(*sender),
    {
        proof {
            reveal(obeys_concrete_eq);
        }
        match &self.uploader {
            None => Err(Error::UploaderNotSet),
            Some(current) => if *sender == *current {
                Ok(())
            } else {
                Err(Error::CallableByUploaderOnly)
            },
        }
    }
}

} // verus!
