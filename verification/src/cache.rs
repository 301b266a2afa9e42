//! The in-process identity cache: a cache-aside store from public opaque
//! identifiers to cached projections. Projections are derived data,
//! reconstructible from the store at any time, so last-write-wins on
//! concurrent misses is acceptable. Unlike an unbounded map, this cache is
//! explicitly bounded: when full, the oldest entry (insertion order) is
//! evicted first.

use vstd::prelude::*;
use crate::pid::Pid;

verus! {

/// Bounded cache from identifier bytes to projection values, oldest entry
/// first.
pub struct IdentityCache<V> {
    entries: Vec<(Pid, V)>,
    cap: usize,
}

impl<V> IdentityCache<V> {
    /// The cached key-value pairs, oldest first.
    pub closed spec fn entries(&self) -> Seq<(Seq<u8>, V)> {
        self.entries@.map_values(|e: (Pid, V)| (e.0@, e.1))
    }

    /// How many entries the cache holds at most.
    pub closed spec fn capacity(&self) -> nat {
        self.cap as nat
    }

    /// Whether `k` is cached.
    pub open spec fn contains_key(&self, k: Seq<u8>) -> bool {
        exists|i: int| 0 <= i < self.entries().len() && self.entries()[i].0 == k
    }

    /// Position of `k` among the entries (unique, by well-formedness).
    pub open spec fn index_of(&self, k: Seq<u8>) -> int {
        choose|i: int| 0 <= i < self.entries().len() && self.entries()[i].0 == k
    }

    /// The projection cached under `k`.
    pub open spec fn value_of(&self, k: Seq<u8>) -> V {
        self.entries()[self.index_of(k)].1
    }

    /// Each key at most once, within the bound, and the bound positive.
    pub open spec fn wf(&self) -> bool {
        &&& 1 <= self.capacity()
        &&& self.entries().len() <= self.capacity()
        &&& forall|i: int, j: int|
            0 <= i < j < self.entries().len() ==> self.entries()[i].0 != self.entries()[j].0
    }

    /// An empty cache that will hold at most `capacity` entries.
    pub fn new(capacity: usize) -> (r: Self)
        requires
            1 <= capacity,
        ensures
            r.wf(),
            r.entries() =~= Seq::<(Seq<u8>, V)>::empty(),
            r.capacity() == capacity,
    {
        IdentityCache { entries: Vec::new(), cap: capacity }
    }

    /// How many entries are cached now.
    pub fn len(&self) -> (r: usize)
        ensures
            r == self.entries().len(),
    {
        self.entries.len()
    }

    /// Cache-aside read: the cached projection for `pid`, if one is there.
    pub fn get(&self, pid: &Pid) -> (r: Option<&V>)
        requires
            self.wf(),
        ensures
            match r {
                Some(v) => self.contains_key(pid@) && *v == self.value_of(pid@),
                None => !self.contains_key(pid@),
            },
    {
        let n = self.entries.len();
        let mut i: usize = 0;
        while i < n
            invariant
                self.wf(),
                n == self.entries().len(),
                i <= n,
                forall|j: int| 0 <= j < i ==> self.entries()[j].0 != pid@,
            decreases n - i,
        {
            if self.entries[i].0.matches(pid) {
                proof {
                    assert(self.entries()[i as int].0 == pid@);
                    lemma_index_unique(*self, i as int, pid@);
                }
                return Some(&self.entries[i].1);
            }
            i += 1;
        }
        None
    }

    /// Write a projection for `pid`: replaces an entry with the same key in
    /// place; otherwise appends, evicting the oldest entry when the cache is
    /// full. Every other cached projection is left as it was, except the one
    /// evicted.
    #[verifier::loop_isolation(false)]
    pub fn insert(&mut self, pid: Pid, value: V)
        requires
            old(self).wf(),
            pid.wf(),
        ensures
            final(self).wf(),
            final(self).capacity() == old(self).capacity(),
            final(self).contains_key(pid@),
            final(self).value_of(pid@) == value,
            ({
                let old_es = old(self).entries();
                let new_es = final(self).entries();
                if old(self).contains_key(pid@) {
                    new_es =~= old_es.update(old(self).index_of(pid@), (pid@, value))
                } else if old_es.len() < old(self).capacity() {
                    new_es =~= old_es.push((pid@, value))
                } else {
                    new_es =~= old_es.drop_first().push((pid@, value))
                }
            }),
            forall|k: Seq<u8>|
                k != pid@ && #[trigger] final(self).contains_key(k) ==> old(self).contains_key(k)
                    && final(self).value_of(k) == old(self).value_of(k),
    {
        let ghost old_self = *self;
        let n = self.entries.len();
        let mut i: usize = 0;
        while i < n
            invariant
                self.wf(),
                *self == old_self,
                n == self.entries().len(),
                i <= n,
                forall|j: int| 0 <= j < i ==> self.entries()[j].0 != pid@,
            decreases n - i,
        {
            if self.entries[i].0.matches(&pid) {
                proof {
                    assert(self.entries()[i as int].0 == pid@);
                    lemma_index_unique(old_self, i as int, pid@);
                }
                self.entries[i] = (pid, value);
                proof {
                    lemma_insert_post_replace(old_self, *self, i as int, pid@, value);
                }
                return;
            }
            i += 1;
        }
        assert(!old_self.contains_key(pid@));
        if self.entries.len() == self.cap {
            self.entries.remove(0);
            proof {
                assert(self.entries() =~= old_self.entries().drop_first());
            }
        }
        self.entries.push((pid, value));
        proof {
            lemma_insert_post_append(old_self, *self, pid@, value);
        }
    }
}

/// After an in-place replacement at the position of `k`, the cache holds `v`
/// under `k`, stays well formed, and every other key keeps its projection.
proof fn lemma_insert_post_replace<V>(
    pre: IdentityCache<V>,
    post: IdentityCache<V>,
    i: int,
    k: Seq<u8>,
    v: V,
)
    requires
        pre.wf(),
        0 <= i < pre.entries().len(),
        pre.entries()[i].0 == k,
        post.capacity() == pre.capacity(),
        post.entries() =~= pre.entries().update(i, (k, v)),
    ensures
        post.wf(),
        post.contains_key(k),
        post.value_of(k) == v,
        pre.contains_key(k),
        pre.index_of(k) == i,
        forall|k2: Seq<u8>|
            k2 != k && #[trigger] post.contains_key(k2) ==> pre.contains_key(k2) && post.value_of(
                k2,
            ) == pre.value_of(k2),
{
    assert(pre.contains_key(k));
    lemma_index_unique(pre, i, k);
    assert forall|a: int, b: int|
        0 <= a < b < post.entries().len() implies post.entries()[a].0 != post.entries()[b].0 by {
        assert(post.entries()[a].0 == if a == i {
            k
        } else {
            pre.entries()[a].0
        });
        assert(post.entries()[b].0 == if b == i {
            k
        } else {
            pre.entries()[b].0
        });
        if a != i && b != i {
            assert(pre.entries()[a].0 != pre.entries()[b].0);
        } else if a == i && b != i {
            if pre.entries()[b].0 == k {
                lemma_index_unique(pre, b, k);
            }
        } else if b == i && a != i {
            if pre.entries()[a].0 == k {
                lemma_index_unique(pre, a, k);
            }
        }
    }
    assert(post.entries()[i].0 == k);
    assert(post.contains_key(k));
    lemma_index_unique(post, i, k);
    assert(post.value_of(k) == v);
    assert forall|k2: Seq<u8>| k2 != k && #[trigger] post.contains_key(k2) implies pre.contains_key(
        k2,
    ) && post.value_of(k2) == pre.value_of(k2) by {
        let j = post.index_of(k2);
        assert(0 <= j < post.entries().len() && post.entries()[j].0 == k2);
        assert(j != i);
        assert(pre.entries()[j].0 == k2);
        assert(pre.contains_key(k2));
        lemma_index_unique(pre, j, k2);
        lemma_index_unique(post, j, k2);
    }
}

/// After appending `(k, v)` (with `k` not cached before, and possibly the
/// oldest entry evicted first), the cache holds `v` under `k`, stays well
/// formed, and every other still-cached key keeps its projection.
proof fn lemma_insert_post_append<V>(pre: IdentityCache<V>, post: IdentityCache<V>, k: Seq<u8>, v: V)
    requires
        pre.wf(),
        !pre.contains_key(k),
        post.capacity() == pre.capacity(),
        if pre.entries().len() < pre.capacity() {
            post.entries() =~= pre.entries().push((k, v))
        } else {
            post.entries() =~= pre.entries().drop_first().push((k, v))
        },
    ensures
        post.wf(),
        post.contains_key(k),
        post.value_of(k) == v,
        forall|k2: Seq<u8>|
            k2 != k && #[trigger] post.contains_key(k2) ==> pre.contains_key(k2) && post.value_of(
                k2,
            ) == pre.value_of(k2),
{
    let es = pre.entries();
    let base = if es.len() < pre.capacity() {
        es
    } else {
        es.drop_first()
    };
    let off: int = if es.len() < pre.capacity() {
        0
    } else {
        1
    };
    assert(base.len() == es.len() - off);
    assert(forall|j: int| 0 <= j < base.len() ==> base[j] == es[j + off]);
    let last = post.entries().len() - 1;
    assert(post.entries()[last] == (k, v));
    assert(post.contains_key(k));
    assert forall|a: int, b: int|
        0 <= a < b < post.entries().len() implies post.entries()[a].0 != post.entries()[b].0 by {
        if b < last {
            assert(post.entries()[a] == es[a + off]);
            assert(post.entries()[b] == es[b + off]);
            assert(es[a + off].0 != es[b + off].0);
        } else {
            assert(post.entries()[b].0 == k);
            assert(post.entries()[a] == es[a + off]);
            if es[a + off].0 == k {
                assert(pre.contains_key(k));
            }
        }
    }
    lemma_index_unique(post, last, k);
    assert(post.value_of(k) == v);
    assert forall|k2: Seq<u8>| k2 != k && #[trigger] post.contains_key(k2) implies pre.contains_key(
        k2,
    ) && post.value_of(k2) == pre.value_of(k2) by {
        let j = post.index_of(k2);
        assert(0 <= j < post.entries().len() && post.entries()[j].0 == k2);
        assert(j != last);
        assert(post.entries()[j] == es[j + off]);
        assert(pre.entries()[j + off].0 == k2);
        assert(pre.contains_key(k2));
        lemma_index_unique(pre, j + off, k2);
        lemma_index_unique(post, j, k2);
    }
}

/// In a well-formed cache, the position chosen for a key is the only
/// position holding that key.
proof fn lemma_index_unique<V>(c: IdentityCache<V>, i: int, k: Seq<u8>)
    requires
        c.wf(),
        0 <= i < c.entries().len(),
        c.entries()[i].0 == k,
    ensures
        c.contains_key(k),
        c.index_of(k) == i,
{
    assert(c.contains_key(k));
    let w = c.index_of(k);
    assert(0 <= w < c.entries().len() && c.entries()[w].0 == k);
    if w < i {
        assert(c.entries()[w].0 != c.entries()[i].0);
    }
    if i < w {
        assert(c.entries()[i].0 != c.entries()[w].0);
    }
}

} // verus!
