//! A versioned global state and the tracking copy that buffers a run over it.

use vstd::prelude::*;
use crate::types::{Key, ProtocolVersion, StoredValue, ValueModel};

verus! {

/// The identifier of one committed state.
#[derive(PartialEq, Eq, Structural, Clone, Copy, Debug)]
pub struct Digest {
    pub value: u64,
}

/// What the last pair for `k` in `w` holds, if any pair is for `k`.
pub open spec fn lookup(w: Seq<(Key, StoredValue)>, k: Key) -> Option<ValueModel>
    decreases w.len(),
{
    if w.len() == 0 {
        None
    } else if w.last().0 == k {
        Some(w.last().1@)
    } else {
        lookup(w.drop_last(), k)
    }
}

pub open spec fn opt_view(o: Option<StoredValue>) -> Option<ValueModel> {
    match o {
        Some(v) => Some(v@),
        None => None,
    }
}

/// One committed state: the writes that lead to it from its parent.
pub struct Layer {
    pub parent: usize,
    pub protocol_version: ProtocolVersion,
    pub writes: Vec<(Key, StoredValue)>,
}

/// What `k` holds in the state of layer `i`.
pub open spec fn read_at(layers: Seq<Layer>, i: int, k: Key) -> Option<ValueModel>
    decreases i,
{
    if !(0 <= i < layers.len()) {
        None
    } else {
        match lookup(layers[i].writes@, k) {
            Some(v) => Some(v),
            None => if i == 0 || !(layers[i].parent < i) {
                None
            } else {
                read_at(layers, layers[i].parent as int, k)
            },
        }
    }
}

/// Reads of the states of a prefix of layers do not see the layers after it.
proof fn lemma_read_at_prefix(a: Seq<Layer>, b: Seq<Layer>, i: int, k: Key)
    requires
        a.len() <= b.len(),
        forall|j: int| 0 <= j < a.len() ==> #[trigger] b[j] == a[j],
        0 <= i < a.len(),
    ensures
        read_at(b, i, k) == read_at(a, i, k),
    decreases i,
{
    if i > 0 && a[i].parent < i {
        lemma_read_at_prefix(a, b, a[i].parent as int, k);
    }
}

/// The position of the last pair for `key` in `w`.
pub fn find_last(w: &Vec<(Key, StoredValue)>, key: &Key) -> (r: Option<usize>)
    ensures
        r is None ==> lookup(w@, *key) is None,
        r matches Some(j) ==> j < w@.len() && w@[j as int].0 == *key && lookup(w@, *key) == Some(
            w@[j as int].1@,
        ),
{
    let mut j: usize = w.len();
    assert(w@.subrange(0, j as int) =~= w@);
    while j > 0
        invariant
            j <= w@.len(),
            lookup(w@, *key) == lookup(w@.subrange(0, j as int), *key),
        decreases j,
    {
        let ghost pre = w@.subrange(0, j as int);
        assert(pre.drop_last() =~= w@.subrange(0, j - 1));
        if w[j - 1].0 == *key {
            return Some(j - 1);
        }
        j = j - 1;
    }
    None
}

/// States committed one after another, each reachable by its root.
pub struct GlobalState {
    pub layers: Vec<Layer>,
}

impl GlobalState {
    pub open spec fn wf(&self) -> bool {
        &&& self.layers@.len() >= 1
        &&& forall|i: int| 0 < i < self.layers@.len() ==> #[trigger] self.layers@[i].parent < i
    }

    pub open spec fn has_root(&self, root: Digest) -> bool {
        root.value < self.layers@.len()
    }

    /// What `k` holds in the state at `root`.
    pub open spec fn state_read(&self, root: Digest, k: Key) -> Option<ValueModel> {
        read_at(self.layers@, root.value as int, k)
    }

    /// A store with one state, at root 0, that holds `values`.
    pub fn new(protocol_version: ProtocolVersion, values: Vec<(Key, StoredValue)>) -> (r: GlobalState)
        ensures
            r.wf(),
            r.layers@.len() == 1,
            r.layers@[0].protocol_version == protocol_version,
            forall|k: Key| #[trigger] r.state_read(Digest { value: 0 }, k) == lookup(values@, k),
    {
        let mut layers: Vec<Layer> = Vec::new();
        layers.push(Layer { parent: 0, protocol_version, writes: values });
        GlobalState { layers }
    }

    /// The root of the state committed first.
    pub fn genesis_root(&self) -> (r: Digest)
        ensures
            r.value == 0,
    {
        Digest { value: 0 }
    }

    /// The protocol version that the state at `root` was committed under.
    pub fn protocol_version_at(&self, root: Digest) -> (r: Option<ProtocolVersion>)
        ensures
            r is Some <==> self.has_root(root),
            r matches Some(v) ==> v == self.layers@[root.value as int].protocol_version,
    {
        if root.value < self.layers.len() as u64 {
            Some(self.layers[root.value as usize].protocol_version)
        } else {
            None
        }
    }

    /// Reads `key` in the state at `root`.
    pub fn read(&self, root: Digest, key: &Key) -> (r: Option<StoredValue>)
        requires
            self.wf(),
        ensures
            opt_view(r) == self.state_read(root, *key),
    {
        if root.value >= self.layers.len() as u64 {
            return None;
        }
        let mut i: usize = root.value as usize;
        loop
            invariant
                self.wf(),
                i < self.layers@.len(),
                self.state_read(root, *key) == read_at(self.layers@, i as int, *key),
            decreases i,
        {
            match find_last(&self.layers[i].writes, key) {
                Some(j) => {
                    return Some(self.layers[i].writes[j].1.duplicate());
                },
                None => {
                    if i == 0 {
                        return None;
                    }
                    i = self.layers[i].parent;
                },
            }
        }
    }

    /// Commits `writes` over the state at `root` as a new state, and returns
    /// the new state's root. The states committed before stay as they were.
    pub fn commit(
        &mut self,
        root: Digest,
        protocol_version: ProtocolVersion,
        writes: Vec<(Key, StoredValue)>,
    ) -> (r: Digest)
        requires
            old(self).wf(),
            old(self).has_root(root),
            old(self).layers@.len() < u64::MAX,
        ensures
            final(self).wf(),
            r.value == old(self).layers@.len(),
            final(self).layers@.len() == old(self).layers@.len() + 1,
            final(self).layers@[r.value as int].protocol_version == protocol_version,
            forall|k: Key| #[trigger]
                final(self).state_read(r, k) == (match lookup(writes@, k) {
                    Some(v) => Some(v),
                    None => old(self).state_read(root, k),
                }),
            forall|d: Digest, k: Key|
                old(self).has_root(d) ==> #[trigger] final(self).state_read(d, k) == old(
                    self,
                ).state_read(d, k),
    {
        let ghost before = self.layers@;
        let n = self.layers.len();
        self.layers.push(Layer { parent: root.value as usize, protocol_version, writes });
        let r = Digest { value: n as u64 };
        assert forall|d: Digest, k: Key| before.len() > d.value implies #[trigger] read_at(
            self.layers@,
            d.value as int,
            k,
        ) == read_at(before, d.value as int, k) by {
            lemma_read_at_prefix(before, self.layers@, d.value as int, k);
        }
        assert forall|k: Key| #[trigger] self.state_read(r, k) == (match lookup(writes@, k) {
            Some(v) => Some(v),
            None => read_at(before, root.value as int, k),
        }) by {
            if root.value > 0 {
                lemma_read_at_prefix(before, self.layers@, root.value as int, k);
            } else {
                lemma_read_at_prefix(before, self.layers@, 0, k);
            }
        }
        r
    }
}

} // verus!
