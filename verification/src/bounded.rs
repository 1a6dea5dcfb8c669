//! Size-bounded byte buffers and count-bounded logs of them.
//!
//! Both types fix their limit when they are made and never exceed it: a
//! buffer is built whole from bytes that fit or not at all, and a log grows
//! by one buffer at a time until it is full.

use vstd::prelude::*;

verus! {

/// An immutable run of bytes that is never longer than its limit.
#[derive(Debug, PartialEq, Eq)]
pub struct BoundedBuffer {
    bytes: Vec<u8>,
    limit: u32,
}

impl View for BoundedBuffer {
    type V = Seq<u8>;

    closed spec fn view(&self) -> Seq<u8> {
        self.bytes@
    }
}

impl Clone for BoundedBuffer {
    fn clone(&self) -> (copy: Self)
        ensures
            copy@ == self@,
            copy.spec_bound() == self.spec_bound(),
    {
        proof {
            use_type_invariant(self);
        }
        BoundedBuffer { bytes: self.bytes.clone(), limit: self.limit }
    }
}

impl BoundedBuffer {
    #[verifier::type_invariant]
    spec fn within_limit(self) -> bool {
        self.bytes@.len() <= self.limit
    }

    /// The greatest length that this buffer was allowed to have.
    pub closed spec fn spec_bound(&self) -> u32 {
        self.limit
    }

    /// Wraps `bytes` if they fit within `limit`, and hands them back
    /// untouched if they do not.
    pub fn try_from_vec(bytes: Vec<u8>, limit: u32) -> (res: Result<BoundedBuffer, Vec<u8>>)
        ensures
            bytes@.len() <= limit <==> res is Ok,
            res matches Ok(buffer) ==> buffer@ == bytes@ && buffer.spec_bound() == limit,
            res matches Err(rejected) ==> rejected == bytes,
    {
        if bytes.len() <= limit as usize {
            Ok(BoundedBuffer { bytes, limit })
        } else {
            Err(bytes)
        }
    }

    /// The limit that this buffer was made with.
    #[verifier::when_used_as_spec(spec_bound)]
    pub fn bound(&self) -> (limit: u32)
        ensures
            limit == self.spec_bound(),
    {
        self.limit
    }

    /// The number of bytes held.
    pub fn len(&self) -> (n: usize)
        ensures
            n == self@.len(),
            n <= self.spec_bound(),
    {
        proof {
            use_type_invariant(self);
        }
        self.bytes.len()
    }

    /// Whether no byte is held.
    pub fn is_empty(&self) -> (empty: bool)
        ensures
            empty == (self@.len() == 0),
    {
        self.bytes.len() == 0
    }

    /// The bytes held, in order.
    pub fn as_slice(&self) -> (bytes: &[u8])
        ensures
            bytes@ == self@,
    {
        self.bytes.as_slice()
    }

    /// Gives the bytes back, releasing the limit.
    pub fn into_inner(self) -> (bytes: Vec<u8>)
        ensures
            bytes@ == self@,
            bytes@.len() <= self.spec_bound(),
    {
        proof {
            use_type_invariant(&self);
        }
        self.bytes
    }
}

/// An ordered log of buffers that never holds more entries than its limit.
/// It only grows, one entry at a time, at its end.
#[derive(Debug, PartialEq, Eq)]
pub struct BoundedLog {
    entries: Vec<BoundedBuffer>,
    limit: u32,
}

impl View for BoundedLog {
    type V = Seq<Seq<u8>>;

    closed spec fn view(&self) -> Seq<Seq<u8>> {
        Seq::new(self.entries@.len(), |i: int| self.entries@[i]@)
    }
}

impl Clone for BoundedLog {
    fn clone(&self) -> (copy: Self)
        ensures
            copy@ == self@,
            copy.spec_bound() == self.spec_bound(),
    {
        proof {
            use_type_invariant(self);
        }
        let mut entries: Vec<BoundedBuffer> = Vec::new();
        let mut i: usize = 0;
        while i < self.entries.len()
            invariant
                i <= self.entries@.len(),
                entries@.len() == i,
                forall|j: int| 0 <= j < i ==> entries@[j]@ == self.entries@[j]@,
            decreases self.entries@.len() - i,
        {
            entries.push(self.entries[i].clone());
            i += 1;
        }
        let copy = BoundedLog { entries, limit: self.limit };
        assert(copy@ =~= self@);
        copy
    }
}

impl BoundedLog {
    #[verifier::type_invariant]
    spec fn within_limit(self) -> bool {
        self.entries@.len() <= self.limit
    }

    /// The greatest number of entries that this log may hold.
    pub closed spec fn spec_bound(&self) -> u32 {
        self.limit
    }

    /// An empty log that will accept up to `limit` entries.
    pub fn new(limit: u32) -> (log: BoundedLog)
        ensures
            log@ == Seq::<Seq<u8>>::empty(),
            log.spec_bound() == limit,
    {
        let log = BoundedLog { entries: Vec::new(), limit };
        assert(log@ =~= Seq::<Seq<u8>>::empty());
        log
    }

    /// The limit that this log was made with.
    #[verifier::when_used_as_spec(spec_bound)]
    pub fn bound(&self) -> (limit: u32)
        ensures
            limit == self.spec_bound(),
    {
        self.limit
    }

    /// The number of entries held.
    pub fn len(&self) -> (n: usize)
        ensures
            n == self@.len(),
            n <= self.spec_bound(),
    {
        proof {
            use_type_invariant(self);
        }
        self.entries.len()
    }

    /// Whether no entry is held.
    pub fn is_empty(&self) -> (empty: bool)
        ensures
            empty == (self@.len() == 0),
    {
        self.entries.len() == 0
    }

    /// Whether the log has reached its limit, so that no entry can be added.
    pub fn is_full(&self) -> (full: bool)
        ensures
            full == (self@.len() == self.spec_bound()),
    {
        proof {
            use_type_invariant(self);
        }
        self.entries.len() >= self.limit as usize
    }

    /// The entry at `index`, counting from the oldest, if there is one.
    pub fn get(&self, index: usize) -> (entry: Option<&BoundedBuffer>)
        ensures
            index < self@.len() <==> entry is Some,
            entry matches Some(buffer) ==> buffer@ == self@[index as int],
    {
        if index < self.entries.len() {
            Some(&self.entries[index])
        } else {
            None
        }
    }

    /// The oldest entry, if there is one.
    pub fn first(&self) -> (entry: Option<&BoundedBuffer>)
        ensures
            self@.len() > 0 <==> entry is Some,
            entry matches Some(buffer) ==> buffer@ == self@[0],
    {
        self.get(0)
    }

    /// Appends `entry` if the log is not full. A full log is left as it was
    /// and hands the entry back.
    pub fn try_push(&mut self, entry: BoundedBuffer) -> (res: Result<(), BoundedBuffer>)
        ensures
            old(self)@.len() < old(self).spec_bound() <==> res is Ok,
            final(self).spec_bound() == old(self).spec_bound(),
            res is Ok ==> final(self)@ == old(self)@.push(entry@),
            res matches Err(rejected) ==> rejected == entry && *final(self) == *old(self),
    {
        proof {
            use_type_invariant(&*self);
        }
        if self.entries.len() < self.limit as usize {
            let mut entries: Vec<BoundedBuffer> = Vec::new();
            core::mem::swap(&mut self.entries, &mut entries);
            entries.push(entry);
            self.entries = entries;
            assert(self@ =~= old(self)@.push(entry@));
            Ok(())
        } else {
            Err(entry)
        }
    }
}

} // verus!
