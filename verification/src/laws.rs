//! What holds of the state machine in every state and for every call.

use vstd::prelude::*;
use crate::config::{Config, GenesisConfig};
use crate::error::Error;
use crate::ledger::{append_outcome, log_at, BlockNumber, Logs};
use crate::model::{Event, State};
use crate::origin::Origin;
use crate::roles::AuthorizationPolicy;

verus! {

impl<A> State<A> {
    /// The state after the same origin has uploaded each of `blobs` in turn
    /// at `height`, whatever each call answered.
    pub open spec fn upload_all(
        self,
        config: Config,
        origin: Origin<A>,
        blobs: Seq<Seq<u8>>,
        height: BlockNumber,
    ) -> State<A>
        decreases blobs.len(),
    {
        if blobs.len() == 0 {
            self
        } else {
            self.upload_all(config, origin, blobs.drop_last(), height).upload_blob(
                config,
                origin,
                blobs.last(),
                height,
            )
        }
    }

    /// Every one of the uploads of `blobs` in turn at `height` is accepted.
    pub open spec fn accepts_all(
        self,
        config: Config,
        origin: Origin<A>,
        blobs: Seq<Seq<u8>>,
        height: BlockNumber,
    ) -> bool {
        forall|k: int|
            0 <= k < blobs.len() ==> (#[trigger] self.upload_all(
                config,
                origin,
                blobs.take(k),
                height,
            )).upload_blob_outcome(config, origin, blobs[k], height) is Ok
    }
}

/// `short` is how `long` begins.
pub open spec fn is_prefix_of(short: Seq<Seq<u8>>, long: Seq<Seq<u8>>) -> bool {
    short.len() <= long.len() && long.take(short.len() as int) == short
}

/// Size bound: when the uploader submits a blob at a height whose log has
/// room, the call succeeds if and only if the blob is no longer than the
/// maximum blob size, and a blob that is too long is refused as such and
/// leaves the state unchanged.
pub proof fn lemma_size_bound<A>(
    state: State<A>,
    config: Config,
    uploader: A,
    blob: Seq<u8>,
    height: BlockNumber,
)
    requires
        state.roles.uploader == Some(uploader),
        log_at(state.blobs, height).len() < config.max_blobs_per_block,
    ensures
        state.upload_blob_outcome(config, Origin::Signed(uploader), blob, height) is Ok
            <==> blob.len() <= config.max_blob_size,
        blob.len() > config.max_blob_size ==> {
            &&& state.upload_blob_outcome(config, Origin::Signed(uploader), blob, height) == Err::<
                (),
                Error,
            >(Error::ExceededMaxBlobSize)
            &&& state.upload_blob(config, Origin::Signed(uploader), blob, height) == state
        },
        blob.len() <= config.max_blob_size ==> log_at(
            state.upload_blob(config, Origin::Signed(uploader), blob, height).blobs,
            height,
        ) == log_at(state.blobs, height).push(blob),
{
}

/// A run of accepted uploads at one height adds exactly those blobs, in
/// order, at the end of the log of that height, sends one notification for
/// each, and touches neither the roles nor any other height.
pub proof fn lemma_accepted_uploads<A>(
    state: State<A>,
    config: Config,
    origin: Origin<A>,
    blobs: Seq<Seq<u8>>,
    height: BlockNumber,
)
    requires
        state.accepts_all(config, origin, blobs, height),
    ensures
        ({
            let after = state.upload_all(config, origin, blobs, height);
            &&& log_at(after.blobs, height) == log_at(state.blobs, height) + blobs
            &&& forall|other: BlockNumber|
                other != height ==> #[trigger] log_at(after.blobs, other) == log_at(
                    state.blobs,
                    other,
                )
            &&& after.roles == state.roles
            &&& after.events == state.events + Seq::new(blobs.len(), |i: int| Event::BlobStored)
        }),
    decreases blobs.len(),
{
    let after = state.upload_all(config, origin, blobs, height);
    if blobs.len() == 0 {
        assert(log_at(after.blobs, height) =~= log_at(state.blobs, height) + blobs);
        assert(after.events =~= state.events + Seq::new(blobs.len(), |i: int| Event::BlobStored));
    } else {
        let front = blobs.drop_last();
        let last = blobs.len() - 1;
        assert forall|k: int| 0 <= k < front.len() implies (#[trigger] state.upload_all(
            config,
            origin,
            front.take(k),
            height,
        )).upload_blob_outcome(config, origin, front[k], height) is Ok by {
            assert(front.take(k) == blobs.take(k));
        }
        lemma_accepted_uploads(state, config, origin, front, height);
        let middle = state.upload_all(config, origin, front, height);
        assert(blobs.take(last) == front);
        assert(middle.upload_blob_outcome(config, origin, blobs[last], height) is Ok);
        assert(after == middle.with_blob(blobs.last(), height));
        assert(log_at(after.blobs, height) =~= log_at(state.blobs, height) + blobs);
        assert forall|other: BlockNumber| other != height implies #[trigger] log_at(
            after.blobs,
            other,
        ) == log_at(state.blobs, other) by {
            assert(log_at(after.blobs, other) == log_at(middle.blobs, other));
        }
        assert(after.events =~= state.events + Seq::new(blobs.len(), |i: int| Event::BlobStored));
    }
}

/// A fresh height takes blobs up to the limit: when the uploader submits, at
/// a height without blobs, no more blobs than a height may hold and none
/// longer than a blob may be, every one of them is accepted.
pub proof fn lemma_fresh_height_accepts<A>(
    state: State<A>,
    config: Config,
    uploader: A,
    blobs: Seq<Seq<u8>>,
    height: BlockNumber,
)
    requires
        state.roles.uploader == Some(uploader),
        log_at(state.blobs, height).len() == 0,
        blobs.len() <= config.max_blobs_per_block,
        forall|i: int| 0 <= i < blobs.len() ==> (#[trigger] blobs[i]).len() <= config.max_blob_size,
    ensures
        state.accepts_all(config, Origin::Signed(uploader), blobs, height),
    decreases blobs.len(),
{
    let origin = Origin::Signed(uploader);
    if blobs.len() > 0 {
        let front = blobs.drop_last();
        let last = blobs.len() - 1;
        lemma_fresh_height_accepts(state, config, uploader, front, height);
        lemma_accepted_uploads(state, config, origin, front, height);
        assert forall|k: int| 0 <= k < blobs.len() implies (#[trigger] state.upload_all(
            config,
            origin,
            blobs.take(k),
            height,
        )).upload_blob_outcome(config, origin, blobs[k], height) is Ok by {
            if k < last {
                assert(blobs.take(k) == front.take(k));
                assert(blobs[k] == front[k]);
            } else {
                assert(blobs.take(k) == front);
                let middle = state.upload_all(config, origin, front, height);
                assert(log_at(middle.blobs, height).len() == front.len());
            }
        }
    }
}

/// Count bound, per height: once the uploader has had as many uploads
/// accepted at one height as a height may hold, a further blob of admissible
/// size is refused there because the height is full, while at any other
/// height it is judged exactly as it would have been before those uploads,
/// and so is accepted at a height without blobs.
pub proof fn lemma_count_bound_per_height<A>(
    state: State<A>,
    config: Config,
    uploader: A,
    blobs: Seq<Seq<u8>>,
    height: BlockNumber,
    next: Seq<u8>,
    other: BlockNumber,
)
    requires
        state.roles.uploader == Some(uploader),
        blobs.len() == config.max_blobs_per_block,
        state.accepts_all(config, Origin::Signed(uploader), blobs, height),
        next.len() <= config.max_blob_size,
        other != height,
    ensures
        ({
            let origin = Origin::Signed(uploader);
            let full = state.upload_all(config, origin, blobs, height);
            &&& full.upload_blob_outcome(config, origin, next, height) == Err::<(), Error>(
                Error::ExceededMaxBlobsPerBlock,
            )
            &&& full.upload_blob(config, origin, next, height) == full
            &&& full.upload_blob_outcome(config, origin, next, other) == state.upload_blob_outcome(
                config,
                origin,
                next,
                other,
            )
            &&& config.max_blobs_per_block > 0 && log_at(state.blobs, other).len() == 0
                ==> full.upload_blob_outcome(config, origin, next, other) is Ok
        }),
{
    let origin = Origin::Signed(uploader);
    lemma_accepted_uploads(state, config, origin, blobs, height);
    let full = state.upload_all(config, origin, blobs, height);
    assert(log_at(full.blobs, other) == log_at(state.blobs, other));
}

/// Role gating, uploader: while the uploader slot is empty, every signed
/// upload is refused for want of an uploader.
pub proof fn lemma_upload_needs_uploader<A>(
    state: State<A>,
    config: Config,
    sender: A,
    blob: Seq<u8>,
    height: BlockNumber,
)
    requires
        state.roles.uploader is None,
    ensures
        state.upload_blob_outcome(config, Origin::Signed(sender), blob, height) == Err::<(), Error>(
            Error::UploaderNotSet,
        ),
{
}

/// Role gating, uploader: once a call has set the uploader, uploads signed
/// by anyone else are refused as not coming from the uploader, and uploads
/// signed by the uploader are judged on the blob and the ledger alone.
pub proof fn lemma_upload_gated_by_uploader<A>(
    state: State<A>,
    config: Config,
    origin: Origin<A>,
    uploader: A,
    sender: A,
    blob: Seq<u8>,
    height: BlockNumber,
)
    requires
        state.set_uploader_outcome(config, origin) is Ok,
    ensures
        ({
            let after = state.set_uploader(config, origin, uploader);
            &&& after.roles.uploader == Some(uploader)
            &&& after.roles.admin == state.roles.admin
            &&& after.blobs == state.blobs
            &&& after.events == state.events
            &&& sender != uploader ==> after.upload_blob_outcome(
                config,
                Origin::Signed(sender),
                blob,
                height,
            ) == Err::<(), Error>(Error::CallableByUploaderOnly)
            &&& after.upload_blob_outcome(config, Origin::Signed(uploader), blob, height)
                == append_outcome(
                state.blobs,
                config.max_blobs_per_block,
                config.max_blob_size,
                height,
                blob,
            )
        }),
{
}

/// Role gating, admin: where the policy admits the admin, a signed call to
/// set the uploader is refused for want of an admin while the admin slot is
/// empty, refused as not coming from the admin when it is signed by anyone
/// else, and accepted when it is signed by the admin.
pub proof fn lemma_set_uploader_gated_by_admin<A>(state: State<A>, config: Config, sender: A)
    requires
        config.policy == AuthorizationPolicy::AdminOrRoot,
    ensures
        state.set_uploader_outcome(config, Origin::Signed(sender)) == (match state.roles.admin {
            None => Err::<(), Error>(Error::AdminNotSet),
            Some(admin) => if sender == admin {
                Ok(())
            } else {
                Err(Error::CallableByAdminOnly)
            },
        }),
{
}

/// Role gating, admin: the root may always set the uploader, and a signed
/// caller never may where the policy admits the root alone.
pub proof fn lemma_set_uploader_by_root<A>(state: State<A>, config: Config, sender: A, uploader: A)
    ensures
        state.set_uploader_outcome(config, Origin::Root) is Ok,
        state.set_uploader(config, Origin::Root, uploader).roles.uploader == Some(uploader),
        config.policy == AuthorizationPolicy::RootOnly ==> state.set_uploader_outcome(
            config,
            Origin::Signed(sender),
        ) == Err::<(), Error>(Error::BadOrigin),
{
}

/// Genesis visibility: the roles configured at genesis are in force for the
/// first call. The configured uploader's first blob is judged on its size
/// and the limits alone, and the configured admin may set the uploader
/// where the policy admits the admin.
pub proof fn lemma_genesis_roles_effective<A>(
    genesis: GenesisConfig<A>,
    config: Config,
    blob: Seq<u8>,
    height: BlockNumber,
)
    ensures
        State::genesis(genesis).roles.admin == genesis.admin,
        State::genesis(genesis).roles.uploader == genesis.uploader,
        State::genesis(genesis).within_limits(config),
        genesis.uploader matches Some(uploader) ==> (State::genesis(genesis).upload_blob_outcome(
            config,
            Origin::Signed(uploader),
            blob,
            height,
        ) is Ok <==> blob.len() <= config.max_blob_size && config.max_blobs_per_block > 0),
        genesis.admin matches Some(admin) ==> (config.policy == AuthorizationPolicy::AdminOrRoot
            ==> State::genesis(genesis).set_uploader_outcome(config, Origin::Signed(admin)) is Ok),
{
    assert(log_at(Logs::empty(), height) =~= Seq::<Seq<u8>>::empty());
}

/// Atomicity: a refused call leaves the whole state as it was.
pub proof fn lemma_refused_calls_change_nothing<A>(
    state: State<A>,
    config: Config,
    origin: Origin<A>,
    uploader: A,
    blob: Seq<u8>,
    height: BlockNumber,
)
    ensures
        state.set_uploader_outcome(config, origin) is Err ==> state.set_uploader(
            config,
            origin,
            uploader,
        ) == state,
        state.upload_blob_outcome(config, origin, blob, height) is Err ==> state.upload_blob(
            config,
            origin,
            blob,
            height,
        ) == state,
{
}

/// The ledger only grows: whatever a call answers, every log afterwards
/// begins with what it held before, and setting the uploader leaves the
/// ledger and the notifications alone.
pub proof fn lemma_ledger_append_only<A>(
    state: State<A>,
    config: Config,
    origin: Origin<A>,
    uploader: A,
    blob: Seq<u8>,
    height: BlockNumber,
    at: BlockNumber,
)
    ensures
        is_prefix_of(
            log_at(state.blobs, at),
            log_at(state.upload_blob(config, origin, blob, height).blobs, at),
        ),
        state.set_uploader(config, origin, uploader).blobs == state.blobs,
        state.set_uploader(config, origin, uploader).events == state.events,
        state.upload_blob(config, origin, blob, height).roles == state.roles,
{
    let before = log_at(state.blobs, at);
    let after = log_at(state.upload_blob(config, origin, blob, height).blobs, at);
    assert(after.take(before.len() as int) =~= before);
}

/// The limits are never exceeded: a state within the limits stays within
/// them whatever is called.
pub proof fn lemma_limits_preserved<A>(
    state: State<A>,
    config: Config,
    origin: Origin<A>,
    uploader: A,
    blob: Seq<u8>,
    height: BlockNumber,
)
    requires
        state.within_limits(config),
    ensures
        state.set_uploader(config, origin, uploader).within_limits(config),
        state.upload_blob(config, origin, blob, height).within_limits(config),
{
    let after = state.upload_blob(config, origin, blob, height);
    if state.upload_blob_outcome(config, origin, blob, height) is Ok {
        assert forall|h: BlockNumber| #[trigger] after.blobs.contains_key(h) implies {
            &&& after.blobs[h].len() <= config.max_blobs_per_block
            &&& forall|i: int|
                0 <= i < after.blobs[h].len() ==> (#[trigger] after.blobs[h][i]).len()
                    <= config.max_blob_size
        } by {
            if h != height {
                assert(state.blobs.contains_key(h));
            } else if state.blobs.contains_key(h) {
                assert(after.blobs[h] == state.blobs[h].push(blob));
            }
        }
    }
}

} // verus!
