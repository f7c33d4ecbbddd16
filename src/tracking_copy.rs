//! An overlay over one state root that buffers writes and logs every access.

use vstd::prelude::*;
use crate::store::{find_last, lookup, opt_view, Digest, GlobalState};
use crate::types::{Key, ProtocolVersion, StoredValue, ValueModel};

verus! {

/// One access made through a tracking copy.
#[derive(PartialEq, Eq, Structural, Clone, Copy, Debug)]
pub enum Op {
    Read(Key),
    Write(Key),
}

/// The ordered log of the accesses of one run.
#[derive(Debug)]
pub struct ExecutionEffect {
    pub ops: Vec<Op>,
}

/// Reads and writes over the state at `root`, none of them applied to the
/// store before `commit`.
pub struct TrackingCopy {
    pub root: Digest,
    pub writes: Vec<(Key, StoredValue)>,
    pub ops: Vec<Op>,
}

impl TrackingCopy {
    /// What `k` holds as seen through this copy: the last buffered write, else
    /// the state at the root.
    pub open spec fn read_view(&self, store: &GlobalState, k: Key) -> Option<ValueModel> {
        match lookup(self.writes@, k) {
            Some(v) => Some(v),
            None => store.state_read(self.root, k),
        }
    }

    pub fn new(root: Digest) -> (r: TrackingCopy)
        ensures
            r.root == root,
            r.writes@.len() == 0,
            r.ops@.len() == 0,
    {
        TrackingCopy { root, writes: Vec::new(), ops: Vec::new() }
    }

    /// Reads `key`, and logs the read whether or not it found a value.
    pub fn read(&mut self, store: &GlobalState, key: &Key) -> (r: Option<StoredValue>)
        requires
            store.wf(),
        ensures
            opt_view(r) == old(self).read_view(store, *key),
            final(self).root == old(self).root,
            final(self).writes@ == old(self).writes@,
            final(self).ops@ == old(self).ops@.push(Op::Read(*key)),
    {
        self.ops.push(Op::Read(*key));
        match find_last(&self.writes, key) {
            Some(j) => Some(self.writes[j].1.duplicate()),
            None => store.read(self.root, key),
        }
    }

    /// Buffers `value` at `key`, over anything buffered there before.
    pub fn write(&mut self, key: Key, value: StoredValue)
        ensures
            final(self).root == old(self).root,
            final(self).writes@ == old(self).writes@.push((key, value)),
            final(self).ops@ == old(self).ops@.push(Op::Write(key)),
            forall|s: &GlobalState, k: Key| #[trigger] final(self).read_view(s, k) == if k == key {
                Some(value@)
            } else {
                old(self).read_view(s, k)
            },
    {
        let ghost w = self.writes@;
        self.ops.push(Op::Write(key));
        self.writes.push((key, value));
        assert(self.writes@.drop_last() =~= w);
    }

    /// Applies every buffered write to `store` at once, as a new state over the
    /// root, and returns its root with the log of the run.
    pub fn commit(self, store: &mut GlobalState, protocol_version: ProtocolVersion) -> (r: (
        Digest,
        ExecutionEffect,
    ))
        requires
            old(store).wf(),
            old(store).has_root(self.root),
            old(store).layers@.len() < u64::MAX,
        ensures
            final(store).wf(),
            r.0.value == old(store).layers@.len(),
            final(store).layers@.len() == old(store).layers@.len() + 1,
            final(store).layers@[r.0.value as int].protocol_version == protocol_version,
            r.1.ops@ == self.ops@,
            forall|k: Key| #[trigger] final(store).state_read(r.0, k) == self.read_view(old(store), k),
            forall|d: Digest, k: Key|
                old(store).has_root(d) ==> #[trigger] final(store).state_read(d, k) == old(
                    store,
                ).state_read(d, k),
    {
        let root = store.commit(self.root, protocol_version, self.writes);
        (root, ExecutionEffect { ops: self.ops })
    }
}

} // verus!
