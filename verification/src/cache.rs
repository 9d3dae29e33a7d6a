//! The line-handle cache: one claimed handle per (chip, pin, direction).
//!
//! The cache is an association list with a `Map` view. Its invariant is
//! that no key occurs twice, so a key resolves to at most one handle,
//! and a handle is only ever inserted after a successful claim — the
//! claim for a key therefore happens at most once for the life of the
//! cache.

use vstd::prelude::*;
use crate::command::Direction;
use crate::key::ResourceKey;

verus! {

/// The mathematical identity of a key: chip name, pin, direction.
pub type KeyV = (Seq<char>, u32, Direction);

/// One cached claim: the key it was claimed under and the handle the
/// environment registered for it.
pub struct Entry {
    pub key: ResourceKey,
    pub handle: u64,
}

/// The mapping an entry sequence denotes; later entries would shadow
/// earlier ones, but the cache invariant keeps keys distinct.
pub closed spec fn entries_map(s: Seq<Entry>) -> Map<KeyV, u64>
    decreases s.len(),
{
    if s.len() == 0 {
        Map::empty()
    } else {
        entries_map(s.drop_last()).insert(s.last().key@, s.last().handle)
    }
}

/// No two entries share a key.
pub closed spec fn distinct_keys(s: Seq<Entry>) -> bool {
    forall|i: int, j: int| 0 <= i < j < s.len() ==> s[i].key@ != s[j].key@
}

proof fn lemma_entries_map_domain(s: Seq<Entry>, k: KeyV)
    ensures
        entries_map(s).contains_key(k) <==> exists|i: int| 0 <= i < s.len() && s[i].key@ == k,
    decreases s.len(),
{
    if s.len() > 0 {
        lemma_entries_map_domain(s.drop_last(), k);
        if entries_map(s).contains_key(k) {
            if s.last().key@ == k {
                assert(s[s.len() - 1].key@ == k);
            } else {
                let i = choose|i: int| 0 <= i < s.drop_last().len() && s.drop_last()[i].key@ == k;
                assert(s[i].key@ == k);
            }
        }
        if exists|i: int| 0 <= i < s.len() && s[i].key@ == k {
            let i = choose|i: int| 0 <= i < s.len() && s[i].key@ == k;
            if i < s.len() - 1 {
                assert(s.drop_last()[i].key@ == k);
            }
        }
    }
}

proof fn lemma_entries_map_at(s: Seq<Entry>, i: int)
    requires
        distinct_keys(s),
        0 <= i < s.len(),
    ensures
        entries_map(s).contains_key(s[i].key@),
        entries_map(s)[s[i].key@] == s[i].handle,
    decreases s.len(),
{
    if i == s.len() - 1 {
    } else {
        assert(distinct_keys(s.drop_last())) by {
            assert(forall|x: int, y: int|
                0 <= x < y < s.drop_last().len() ==> s.drop_last()[x].key@ != s.drop_last()[y].key@)
                by {
                assert forall|x: int, y: int|
                    0 <= x < y < s.drop_last().len() implies s.drop_last()[x].key@
                    != s.drop_last()[y].key@ by {
                    assert(s[x].key@ != s[y].key@);
                }
            }
        }
        assert(s.drop_last()[i] == s[i]);
        lemma_entries_map_at(s.drop_last(), i);
        assert(s[i].key@ != s.last().key@);
    }
}

/// Keyed store of already-claimed line handles, shared (behind one
/// exclusive lock, owned by the caller) by all in-flight requests.
pub struct LineCache {
    entries: Vec<Entry>,
}

impl LineCache {
    /// The mapping currently cached.
    pub closed spec fn view(&self) -> Map<KeyV, u64> {
        entries_map(self.entries@)
    }

    /// Structural invariant: at most one entry per key.
    pub closed spec fn wf(&self) -> bool {
        distinct_keys(self.entries@)
    }

    /// An empty cache, as built once at process start.
    pub fn new() -> (c: LineCache)
        ensures
            c.wf(),
            c@ == Map::<KeyV, u64>::empty(),
    {
        LineCache { entries: Vec::new() }
    }

    /// Look a key up without touching anything: the hit path of
    /// `resolve`.
    pub fn lookup(&self, key: &ResourceKey) -> (r: Option<u64>)
        requires
            self.wf(),
        ensures
            match r {
                Some(h) => self@.contains_key(key@) && self@[key@] == h,
                None => !self@.contains_key(key@),
            },
    {
        let n = self.entries.len();
        let mut i: usize = 0;
        while i < n
            invariant
                n == self.entries.len(),
                i <= n,
                self.wf(),
                forall|j: int| 0 <= j < i ==> self.entries@[j].key@ != key@,
            decreases n - i,
        {
            if self.entries[i].key.key_eq(key) {
                proof {
                    lemma_entries_map_at(self.entries@, i as int);
                }
                return Some(self.entries[i].handle);
            }
            i += 1;
        }
        proof {
            lemma_entries_map_domain(self.entries@, key@);
        }
        None
    }

    /// Record a freshly claimed handle. Only called after a successful
    /// claim for a key that was absent, so the single-claim invariant
    /// is preserved.
    pub fn insert(&mut self, key: ResourceKey, handle: u64)
        requires
            old(self).wf(),
            !old(self)@.contains_key(key@),
        ensures
            final(self).wf(),
            final(self)@ == old(self)@.insert(key@, handle),
    {
        let ghost s_old = self.entries@;
        let ghost kv = key@;
        proof {
            lemma_entries_map_domain(s_old, kv);
        }
        self.entries.push(Entry { key, handle });
        proof {
            let e = self.entries@.last();
            assert(self.entries@.drop_last() =~= s_old);
            assert(e.key@ == kv && e.handle == handle);
            assert(self@ == entries_map(s_old).insert(kv, handle));
            assert forall|x: int, y: int|
                0 <= x < y < self.entries@.len() implies self.entries@[x].key@
                != self.entries@[y].key@ by {
                if y < self.entries@.len() - 1 {
                    assert(s_old[x].key@ != s_old[y].key@);
                } else {
                    assert(self.entries@[x] == s_old[x]);
                }
            }
        }
    }
}

} // verus!
