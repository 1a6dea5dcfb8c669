//! The record of every blob taken in, one bounded log per block height.
//!
//! A height that was never written to reads as an empty log. Logs only grow:
//! nothing stored is ever changed or removed.

use vstd::prelude::*;
use std::collections::HashMap;
use crate::bounded::{BoundedBuffer, BoundedLog};
use crate::error::Error;

verus! {

broadcast use vstd::std_specs::hash::group_hash_axioms;

/// The height of a block, as the host counts it.
pub type BlockNumber = u64;

/// What a ledger holds: for each height that was written to, its blobs in
/// the order in which they came.
pub type Logs = Map<BlockNumber, Seq<Seq<u8>>>;

/// The blobs stored at `height`. A height without an entry has none.
pub open spec fn log_at(logs: Logs, height: BlockNumber) -> Seq<Seq<u8>> {
    if logs.contains_key(height) {
        logs[height]
    } else {
        Seq::empty()
    }
}

/// No height holds more than `max_blobs` blobs and no blob is longer than
/// `max_size` bytes.
pub open spec fn within_limits(logs: Logs, max_blobs: u32, max_size: u32) -> bool {
    forall|height: BlockNumber| #[trigger]
        logs.contains_key(height) ==> {
            &&& logs[height].len() <= max_blobs
            &&& forall|i: int| 0 <= i < logs[height].len() ==> (#[trigger] logs[height][i]).len() <= max_size
        }
}

/// Whether `blob` can be added at `height`, and if not, why. The size of the
/// blob is judged before the room left in the log.
pub open spec fn append_outcome(
    logs: Logs,
    max_blobs: u32,
    max_size: u32,
    height: BlockNumber,
    blob: Seq<u8>,
) -> Result<(), Error> {
    if blob.len() > max_size {
        Err(Error::ExceededMaxBlobSize)
    } else if log_at(logs, height).len() >= max_blobs {
        Err(Error::ExceededMaxBlobsPerBlock)
    } else {
        Ok(())
    }
}

/// The ledger after `blob` was added at the end of the log of `height`.
pub open spec fn appended(logs: Logs, height: BlockNumber, blob: Seq<u8>) -> Logs {
    logs.insert(height, log_at(logs, height).push(blob))
}

/// Maps each height to its log of blobs, under two fixed limits: how many
/// blobs a height may hold, and how long a blob may be.
#[derive(Debug, PartialEq, Eq)]
pub struct BlobLedger {
    logs: HashMap<BlockNumber, BoundedLog>,
    max_blobs_per_block: u32,
    max_blob_size: u32,
}

impl View for BlobLedger {
    type V = Logs;

    closed spec fn view(&self) -> Logs {
        Map::new(|height: BlockNumber| self.logs@.contains_key(height), |height: BlockNumber| self.logs@[height]@)
    }
}

impl Clone for BlobLedger {
    fn clone(&self) -> (copy: Self)
        ensures
            copy@ == self@,
            copy.spec_max_blobs_per_block() == self.spec_max_blobs_per_block(),
            copy.spec_max_blob_size() == self.spec_max_blob_size(),
    {
        proof {
            use_type_invariant(self);
        }
        BlobLedger {
            logs: self.logs.clone(),
            max_blobs_per_block: self.max_blobs_per_block,
            max_blob_size: self.max_blob_size,
        }
    }
}

impl BlobLedger {
    /// What holds of every ledger: it keeps within its limits, and each of
    /// its logs was made with the ledger's limit on blobs per height.
    #[verifier::type_invariant]
    pub open spec fn well_formed(self) -> bool {
        &&& self.limits_hold()
        &&& self.logs_share_bound()
    }

    /// Each log was made with the ledger's limit on blobs per height.
    pub closed spec fn logs_share_bound(&self) -> bool {
        forall|height: BlockNumber| #[trigger]
            self.logs@.contains_key(height) ==> self.logs@[height].spec_bound()
                == self.max_blobs_per_block
    }

    /// The greatest number of blobs that one height may hold.
    pub closed spec fn spec_max_blobs_per_block(&self) -> u32 {
        self.max_blobs_per_block
    }

    /// The greatest length that a blob may have.
    pub closed spec fn spec_max_blob_size(&self) -> u32 {
        self.max_blob_size
    }

    /// The ledger keeps within the limits that it was made with.
    pub open spec fn limits_hold(&self) -> bool {
        within_limits(self@, self.spec_max_blobs_per_block(), self.spec_max_blob_size())
    }

    /// A ledger without any blob, under the two limits given.
    pub fn new(max_blobs_per_block: u32, max_blob_size: u32) -> (ledger: BlobLedger)
        ensures
            ledger@ == Logs::empty(),
            ledger.spec_max_blobs_per_block() == max_blobs_per_block,
            ledger.spec_max_blob_size() == max_blob_size,
            ledger.limits_hold(),
    {
        let logs: HashMap<BlockNumber, BoundedLog> = HashMap::new();
        assert(Map::new(
            |height: BlockNumber| logs@.contains_key(height),
            |height: BlockNumber| logs@[height]@,
        ) =~= Logs::empty());
        BlobLedger { logs, max_blobs_per_block, max_blob_size }
    }

    /// The limit on the number of blobs of one height.
    #[verifier::when_used_as_spec(spec_max_blobs_per_block)]
    pub fn max_blobs_per_block(&self) -> (limit: u32)
        ensures
            limit == self.spec_max_blobs_per_block(),
    {
        self.max_blobs_per_block
    }

    /// The limit on the length of a blob.
    #[verifier::when_used_as_spec(spec_max_blob_size)]
    pub fn max_blob_size(&self) -> (limit: u32)
        ensures
            limit == self.spec_max_blob_size(),
    {
        self.max_blob_size
    }

    /// The log of `height`, if that height was ever written to.
    pub fn log(&self, height: BlockNumber) -> (found: Option<&BoundedLog>)
        ensures
            self@.contains_key(height) <==> found is Some,
            found matches Some(log) ==> log@ == self@[height] && log.spec_bound()
                == self.spec_max_blobs_per_block(),
            self.limits_hold(),
    {
        proof {
            use_type_invariant(self);
        }
        self.logs.get(&height)
    }

    /// The number of blobs stored at `height`.
    pub fn count(&self, height: BlockNumber) -> (n: usize)
        ensures
            n == log_at(self@, height).len(),
            n <= self.spec_max_blobs_per_block(),
            self.limits_hold(),
    {
        match self.log(height) {
            Some(log) => log.len(),
            None => 0,
        }
    }

    /// The blob stored at `height` in place `index`, counting from the
    /// oldest, if there is one.
    pub fn blob(&self, height: BlockNumber, index: usize) -> (found: Option<&BoundedBuffer>)
        ensures
            index < log_at(self@, height).len() <==> found is Some,
            found matches Some(buffer) ==> buffer@ == log_at(self@, height)[index as int]
                && buffer@.len() <= self.spec_max_blob_size(),
            self.limits_hold(),
    {
        match self.log(height) {
            Some(log) => log.get(index),
            None => None,
        }
    }

    /// Adds `blob` at the end of the log of `height`, if it is not too long
    /// and the log is not full. A refused blob leaves the ledger as it was.
    pub fn try_append(&mut self, height: BlockNumber, blob: Vec<u8>) -> (res: Result<(), Error>)
        ensures
            res == append_outcome(
                old(self)@,
                old(self).spec_max_blobs_per_block(),
                old(self).spec_max_blob_size(),
                height,
                blob@,
            ),
            res is Ok ==> final(self)@ == appended(old(self)@, height, blob@),
            res is Err ==> *final(self) == *old(self),
            final(self).spec_max_blobs_per_block() == old(self).spec_max_blobs_per_block(),
            final(self).spec_max_blob_size() == old(self).spec_max_blob_size(),
            final(self).limits_hold(),
    {
        proof {
            use_type_invariant(&*self);
        }
        let ghost before = self@;
        let ghost stored = self.logs@;
        let ghost payload = blob@;
        let buffer = match BoundedBuffer::try_from_vec(blob, self.max_blob_size) {
            Ok(buffer) => buffer,
            Err(_) => {
                return Err(Error::ExceededMaxBlobSize);
            },
        };
        if self.count(height) >= self.max_blobs_per_block as usize {
            return Err(Error::ExceededMaxBlobsPerBlock);
        }
        let mut logs: HashMap<BlockNumber, BoundedLog> = HashMap::new();
        assert(Map::new(
            |h: BlockNumber| logs@.contains_key(h),
            |h: BlockNumber| logs@[h]@,
        ) =~= Logs::empty());
        core::mem::swap(&mut self.logs, &mut logs);
        let mut log = match logs.remove(&height) {
            Some(log) => log,
            None => BoundedLog::new(self.max_blobs_per_block),
        };
        assert(log@ == log_at(before, height));
        let pushed = log.try_push(buffer);
        assert(pushed is Ok);
        logs.insert(height, log);
        proof {
            let after = Map::new(
                |h: BlockNumber| logs@.contains_key(h),
                |h: BlockNumber| logs@[h]@,
            );
            assert(after =~= appended(before, height, payload));
            assert forall|h: BlockNumber| #[trigger] logs@.contains_key(h) implies logs@[h].spec_bound()
                == self.max_blobs_per_block by {
                if h != height {
                    assert(stored.contains_key(h));
                }
            }
            assert forall|h: BlockNumber| #[trigger] after.contains_key(h) implies {
                &&& after[h].len() <= self.max_blobs_per_block
                &&& forall|i: int|
                    0 <= i < after[h].len() ==> (#[trigger] after[h][i]).len() <= self.max_blob_size
            } by {
                if h != height {
                    assert(before.contains_key(h));
                    assert(after[h] == before[h]);
                } else {
                    if before.contains_key(h) {
                        assert(after[h] == before[h].push(payload));
                    }
                }
            }
        }
        self.logs = logs;
        assert(self@ =~= appended(before, height, payload));
        Ok(())
    }
}

} // verus!
