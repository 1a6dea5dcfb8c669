//! What is fixed when the system is set up: the limits, the policy, and the
//! roles that exist from the start.

use vstd::prelude::*;
use crate::roles::{AuthorizationPolicy, RoleStore};

verus! {

/// The limits and the policy under which a ledger runs. They never change
/// once the ledger exists.
#[derive(Clone, Copy, Debug, PartialEq, Eq, Structural)]
pub struct Config {
    /// The maximum number of blobs stored per block.
    pub max_blobs_per_block: u32,
    /// The maximum size of a single blob, in bytes.
    pub max_blob_size: u32,
    /// Who may reassign the uploader.
    pub policy: AuthorizationPolicy,
}

/// The roles that exist before the first call.
#[derive(Clone, Debug, PartialEq, Eq)]
pub struct GenesisConfig<A> {
    /// The first admin, if there is to be one.
    pub admin: Option<A>,
    /// The first uploader, if there is to be one.
    pub uploader: Option<A>,
}

impl<A> Default for GenesisConfig<A> {
    /// No admin and no uploader.
    fn default() -> (genesis: Self)
        ensures
            genesis.admin is None,
            genesis.uploader is None,
    {
        GenesisConfig { admin: None, uploader: None }
    }
}

impl<A> GenesisConfig<A> {
    /// The role slots as they stand before the first call: exactly the two
    /// that were configured, with no authorization asked of anyone.
    pub open spec fn roles(self) -> RoleStore<A> {
        RoleStore { admin: self.admin, uploader: self.uploader }
    }

    /// Fills the role slots from the configuration.
    pub fn build(self) -> (roles: RoleStore<A>)
        ensures
            roles == self.roles(),
    {
        RoleStore { admin: self.admin, uploader: self.uploader }
    }
}

} // verus!
