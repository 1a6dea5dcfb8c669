//! A role-gated, capacity-bounded ledger of blobs, kept per block height.
//!
//! An uploader submits opaque byte blobs. Each blob is appended to the log of
//! the current block height, as long as it is no longer than the maximum
//! blob size and the log holds fewer blobs than a block may hold. Who the
//! uploader is can be changed by the root and, where the policy says so, by
//! an admin. A call either passes all of its checks and takes effect, or is
//! refused with the first check that failed and changes nothing.
//!
//! [`Pallet`] holds the state and offers the calls. [`State`] is the same
//! state as mathematical values, over which the contracts of the calls are
//! written and the laws of [`laws`] are proved.

pub mod bounded;
pub mod config;
pub mod error;
pub mod laws;
pub mod ledger;
pub mod model;
pub mod origin;
pub mod pallet;
pub mod roles;

pub use bounded::{BoundedBuffer, BoundedLog};
pub use config::{Config, GenesisConfig};
pub use error::Error;
pub use ledger::{BlobLedger, BlockNumber};
pub use model::{Call, Event, State};
pub use origin::Origin;
pub use pallet::Pallet;
pub use roles::{AuthorizationPolicy, RoleStore};
