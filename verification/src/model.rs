//! The ledger as a state machine over mathematical values: what each call
//! answers in a given state, and the state that it leaves behind.

use vstd::prelude::*;
use crate::config::{Config, GenesisConfig};
use crate::error::Error;
use crate::ledger::{append_outcome, appended, within_limits, BlockNumber, Logs};
use crate::origin::Origin;
use crate::roles::RoleStore;

verus! {

/// What observers are told.
#[derive(Clone, Copy, Debug, PartialEq, Eq, Structural)]
pub enum Event {
    /// A blob was stored. The blob itself is read from the ledger.
    BlobStored,
}

/// A call with its arguments, as a host hands it over for dispatch.
#[derive(Clone, Debug, PartialEq, Eq)]
pub enum Call<A> {
    /// Set new Uploader.
    SetUploader {
        /// The account that is to be the uploader.
        uploader: A,
    },
    /// Upload new Blob.
    UploadBlob {
        /// The bytes to store.
        blob: Vec<u8>,
    },
}

/// Everything that a call can read or change.
pub struct State<A> {
    /// The admin and uploader slots.
    pub roles: RoleStore<A>,
    /// The blobs stored so far, by height.
    pub blobs: Logs,
    /// The notifications sent so far, oldest first.
    pub events: Seq<Event>,
}

impl<A> State<A> {
    /// The state before the first call: the configured roles, no blob, no
    /// notification.
    pub open spec fn genesis(genesis: GenesisConfig<A>) -> State<A> {
        State { roles: genesis.roles(), blobs: Logs::empty(), events: Seq::empty() }
    }

    /// The stored blobs respect the limits of `config`.
    pub open spec fn within_limits(self, config: Config) -> bool {
        within_limits(self.blobs, config.max_blobs_per_block, config.max_blob_size)
    }

    /// What a call to set the uploader answers: the origin must be signed or
    /// the root, and a signed origin must pass the policy.
    pub open spec fn set_uploader_outcome(self, config: Config, origin: Origin<A>) -> Result<
        (),
        Error,
    > {
        match origin.signer_or_root() {
            Err(e) => Err(e),
            Ok(sender) => config.policy.permits(self.roles.admin, sender),
        }
    }

    /// The state once `uploader` has been put in the uploader slot.
    pub open spec fn with_uploader(self, uploader: A) -> State<A> {
        State {
            roles: RoleStore { admin: self.roles.admin, uploader: Some(uploader) },
            blobs: self.blobs,
            events: self.events,
        }
    }

    /// The state after a call to set the uploader, whatever it answered.
    pub open spec fn set_uploader(self, config: Config, origin: Origin<A>, uploader: A) -> State<
        A,
    > {
        if self.set_uploader_outcome(config, origin) is Ok {
            self.with_uploader(uploader)
        } else {
            self
        }
    }

    /// What a call to upload `blob` at `height` answers. The checks come in
    /// a fixed order, and the answer names the first that fails: the origin
    /// is signed, an uploader exists, the signer is the uploader, the blob is
    /// not too long, the log of the height is not full.
    pub open spec fn upload_blob_outcome(
        self,
        config: Config,
        origin: Origin<A>,
        blob: Seq<u8>,
        height: BlockNumber,
    ) -> Result<(), Error> {
        match origin.signer() {
            Err(e) => Err(e),
            Ok(sender) => match self.roles.admits_uploader(sender) {
                Err(e) => Err(e),
                Ok(_) => append_outcome(
                    self.blobs,
                    config.max_blobs_per_block,
                    config.max_blob_size,
                    height,
                    blob,
                ),
            },
        }
    }

    /// The state once `blob` has been stored at `height` and observers have
    /// been told.
    pub open spec fn with_blob(self, blob: Seq<u8>, height: BlockNumber) -> State<A> {
        State {
            roles: self.roles,
            blobs: appended(self.blobs, height, blob),
            events: self.events.push(Event::BlobStored),
        }
    }

    /// The state after a call to upload a blob, whatever it answered.
    pub open spec fn upload_blob(
        self,
        config: Config,
        origin: Origin<A>,
        blob: Seq<u8>,
        height: BlockNumber,
    ) -> State<A> {
        if self.upload_blob_outcome(config, origin, blob, height) is Ok {
            self.with_blob(blob, height)
        } else {
            self
        }
    }

    /// What `call` answers when it is dispatched at `height`.
    pub open spec fn dispatch_outcome(
        self,
        config: Config,
        origin: Origin<A>,
        call: Call<A>,
        height: BlockNumber,
    ) -> Result<(), Error> {
        match call {
            Call::SetUploader { uploader } => self.set_uploader_outcome(config, origin),
            Call::UploadBlob { blob } => self.upload_blob_outcome(config, origin, blob@, height),
        }
    }

    /// The state after `call` was dispatched at `height`, whatever it
    /// answered.
    pub open spec fn dispatch(
        self,
        config: Config,
        origin: Origin<A>,
        call: Call<A>,
        height: BlockNumber,
    ) -> State<A> {
        match call {
            Call::SetUploader { uploader } => self.set_uploader(config, origin, uploader),
            Call::UploadBlob { blob } => self.upload_blob(config, origin, blob@, height),
        }
    }
}

} // verus!
