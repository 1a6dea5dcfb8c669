//! The two calls and the state that they act on.

use vstd::prelude::*;
use vstd::laws_eq::obeys_concrete_eq;
use crate::config::{Config, GenesisConfig};
use crate::error::Error;
use crate::ledger::{BlobLedger, BlockNumber};
use crate::model::{Call, Event, State};
use crate::origin::Origin;
use crate::roles::{AuthorizationPolicy, RoleStore};

verus! {

/// The roles, the ledger and the notifications sent, together with the
/// policy that guards the uploader slot. Every call reads the current
/// values, and changes them only if all of its checks pass.
///
/// An identity `A` is opaque to the pallet, which only compares identities.
/// The calls therefore ask that `==` on `A` holds of two identities exactly
/// when they are the same value, as it does for integers and for types that
/// derive their equality.
#[derive(Clone, Debug, PartialEq, Eq)]
pub struct Pallet<A> {
    policy: AuthorizationPolicy,
    roles: RoleStore<A>,
    blobs: BlobLedger,
    events: Vec<Event>,
}

impl<A> View for Pallet<A> {
    type V = State<A>;

    closed spec fn view(&self) -> State<A> {
        State { roles: self.roles, blobs: self.blobs@, events: self.events@ }
    }
}

impl<A> Pallet<A> {
    /// The limits and the policy that this pallet runs under.
    pub closed spec fn spec_config(&self) -> Config {
        Config {
            max_blobs_per_block: self.blobs.spec_max_blobs_per_block(),
            max_blob_size: self.blobs.spec_max_blob_size(),
            policy: self.policy,
        }
    }

    /// The state before the first call: the roles of `genesis`, no blob, no
    /// notification.
    pub fn new(config: Config, genesis: GenesisConfig<A>) -> (pallet: Self)
        ensures
            pallet@ == State::genesis(genesis),
            pallet.spec_config() == config,
            pallet@.within_limits(config),
    {
        Pallet {
            policy: config.policy,
            roles: genesis.build(),
            blobs: BlobLedger::new(config.max_blobs_per_block, config.max_blob_size),
            events: Vec::new(),
        }
    }

    /// A pallet over roles and a ledger that exist already, with no
    /// notification sent yet. The limits are those of the ledger.
    pub fn from_parts(policy: AuthorizationPolicy, roles: RoleStore<A>, blobs: BlobLedger) -> (pallet:
        Self)
        ensures
            pallet@ == (State { roles, blobs: blobs@, events: Seq::empty() }),
            pallet.spec_config() == (Config {
                max_blobs_per_block: blobs.spec_max_blobs_per_block(),
                max_blob_size: blobs.spec_max_blob_size(),
                policy,
            }),
            pallet@.within_limits(pallet.spec_config()),
    {
        proof {
            use_type_invariant(&blobs);
        }
        Pallet { policy, roles, blobs, events: Vec::new() }
    }

    /// Gives up the roles and the ledger, as they stand now.
    pub fn into_parts(self) -> (parts: (RoleStore<A>, BlobLedger))
        ensures
            parts.0 == self@.roles,
            parts.1@ == self@.blobs,
            parts.1.spec_max_blobs_per_block() == self.spec_config().max_blobs_per_block,
            parts.1.spec_max_blob_size() == self.spec_config().max_blob_size,
    {
        (self.roles, self.blobs)
    }

    /// The limits and the policy that this pallet runs under.
    #[verifier::when_used_as_spec(spec_config)]
    pub fn config(&self) -> (config: Config)
        ensures
            config == self.spec_config(),
    {
        Config {
            max_blobs_per_block: self.blobs.max_blobs_per_block(),
            max_blob_size: self.blobs.max_blob_size(),
            policy: self.policy,
        }
    }

    /// The role slots.
    pub fn roles(&self) -> (roles: &RoleStore<A>)
        ensures
            *roles == self@.roles,
    {
        &self.roles
    }

    /// Who may reassign the uploader besides the root, if anyone.
    pub fn admin(&self) -> (admin: Option<&A>)
        ensures
            admin is Some <==> self@.roles.admin is Some,
            admin matches Some(who) ==> self@.roles.admin == Some(*who),
    {
        self.roles.admin.as_ref()
    }

    /// Who may submit blobs, if anyone.
    pub fn uploader(&self) -> (uploader: Option<&A>)
        ensures
            uploader is Some <==> self@.roles.uploader is Some,
            uploader matches Some(who) ==> self@.roles.uploader == Some(*who),
    {
        self.roles.uploader.as_ref()
    }

    /// The ledger of stored blobs.
    pub fn blobs(&self) -> (blobs: &BlobLedger)
        ensures
            blobs@ == self@.blobs,
            blobs.spec_max_blobs_per_block() == self.spec_config().max_blobs_per_block,
            blobs.spec_max_blob_size() == self.spec_config().max_blob_size,
            self@.within_limits(self.spec_config()),
    {
        proof {
            use_type_invariant(&self.blobs);
        }
        &self.blobs
    }

    /// The notifications sent so far, oldest first.
    pub fn events(&self) -> (events: &Vec<Event>)
        ensures
            events@ == self@.events,
    {
        &self.events
    }
}

impl<A: PartialEq> Pallet<A> {
    /// Set new Uploader.
    ///
    /// Callable by the root, and by the admin where the policy admits the
    /// admin. A refused call changes nothing.
    pub fn set_uploader(&mut self, origin: Origin<A>, uploader: A) -> (res: Result<(), Error>)
        requires
            obeys_concrete_eq::<A>(),
        ensures
            res == old(self)@.set_uploader_outcome(old(self).spec_config(), origin),
            final(self)@ == old(self)@.set_uploader(old(self).spec_config(), origin, uploader),
            final(self).spec_config() == old(self).spec_config(),
            res is Err ==> *final(self) == *old(self),
            final(self)@.within_limits(old(self).spec_config()),
    {
        proof {
            use_type_invariant(&self.blobs);
        }
        let sender = match origin.ensure_signed_or_root() {
            Ok(sender) => sender,
            Err(e) => {
                return Err(e);
            },
        };
        match self.policy.authorize(&self.roles.admin, &sender) {
            Ok(_) => {},
            Err(e) => {
                return Err(e);
            },
        }
        self.roles.put_uploader(uploader);
        Ok(())
    }

    /// Upload new Blob at the height `block_number`.
    ///
    /// Only callable by the uploader. The blob is stored at the end of the
    /// log of that height and one `BlobStored` is sent; a refused call
    /// changes nothing and sends nothing.
    pub fn upload_blob(&mut self, origin: Origin<A>, blob: Vec<u8>, block_number: BlockNumber) -> (res:
        Result<(), Error>)
        requires
            obeys_concrete_eq::<A>(),
        ensures
            res == old(self)@.upload_blob_outcome(
                old(self).spec_config(),
                origin,
                blob@,
                block_number,
            ),
            final(self)@ == old(self)@.upload_blob(
                old(self).spec_config(),
                origin,
                blob@,
                block_number,
            ),
            final(self).spec_config() == old(self).spec_config(),
            res is Err ==> *final(self) == *old(self),
            final(self)@.within_limits(old(self).spec_config()),
    {
        proof {
            use_type_invariant(&self.blobs);
        }
        let sender = match origin.ensure_signed() {
            Ok(sender) => sender,
            Err(e) => {
                return Err(e);
            },
        };
        match self.roles.ensure_uploader(&sender) {
            Ok(_) => {},
            Err(e) => {
                return Err(e);
            },
        }
        match self.blobs.try_append(block_number, blob) {
            Ok(_) => {},
            Err(e) => {
                return Err(e);
            },
        }
        self.events.push(Event::BlobStored);
        Ok(())
    }

    /// Routes `call` to the function that handles it. Only an upload reads
    /// `block_number`.
    pub fn dispatch(&mut self, origin: Origin<A>, call: Call<A>, block_number: BlockNumber) -> (res:
        Result<(), Error>)
        requires
            obeys_concrete_eq::<A>(),
        ensures
            res == old(self)@.dispatch_outcome(old(self).spec_config(), origin, call, block_number),
            final(self)@ == old(self)@.dispatch(old(self).spec_config(), origin, call, block_number),
            final(self).spec_config() == old(self).spec_config(),
            res is Err ==> *final(self) == *old(self),
            final(self)@.within_limits(old(self).spec_config()),
    {
        match call {
            Call::SetUploader { uploader } => self.set_uploader(origin, uploader),
            Call::UploadBlob { blob } => self.upload_blob(origin, blob, block_number),
        }
    }
}

} // verus!
