//! Bounded most-recently-used cache of chosen items, identified by their
//! canonical keys. The front of the cache is the most recently recorded key.
//! Recording a key that is already present moves it to the front instead of
//! duplicating it, and the cache never grows beyond its capacity.

use vstd::prelude::*;

use crate::seq_facts::lemma_filter_identity;
use crate::seq_facts::lemma_filter_keeps_head;
use crate::seq_facts::lemma_filter_no_duplicates;
use crate::seq_facts::lemma_filter_removes_unique;
use crate::seq_facts::lemma_no_duplicates_subrange;

verus! {

broadcast use vstd::seq_lib::group_seq_lib_default;

/// The predicate that keeps every key other than `key`.
pub open spec fn keep_other(key: Seq<char>) -> spec_fn(Seq<char>) -> bool {
    |k: Seq<char>| k != key
}

/// What one `record` call does to the cached key sequence: the key moves to
/// the front, its old occurrence (if any) disappears, and the result is
/// truncated to the capacity.
pub open spec fn record_spec(cache: Seq<Seq<char>>, key: Seq<char>, cap: nat) -> Seq<Seq<char>> {
    let merged = seq![key] + cache.filter(keep_other(key));
    if merged.len() <= cap {
        merged
    } else {
        merged.subrange(0, cap as int)
    }
}

/// Bounded most-recently-used sequence of canonical keys, front first.
pub struct RecencyCache {
    keys: Vec<String>,
    capacity: usize,
}

impl View for RecencyCache {
    type V = Seq<Seq<char>>;

    closed spec fn view(&self) -> Seq<Seq<char>> {
        self.keys@.map_values(|k: String| k@)
    }
}

impl RecencyCache {
    /// The configured capacity.
    pub closed spec fn spec_capacity(self) -> nat {
        self.capacity as nat
    }

    /// The cache invariant: no key appears twice and the length never exceeds
    /// the capacity.
    pub open spec fn wf(self) -> bool {
        self@.no_duplicates() && self@.len() <= self.spec_capacity()
    }

    /// An empty cache with the given capacity.
    pub fn new(capacity: usize) -> (r: RecencyCache)
        ensures
            r.wf(),
            r@ == Seq::<Seq<char>>::empty(),
            r.spec_capacity() == capacity,
    {
        let r = RecencyCache { keys: Vec::new(), capacity };
        proof {
            assert(r@ =~= Seq::<Seq<char>>::empty());
        }
        r
    }

    pub fn capacity(&self) -> (r: usize)
        ensures
            r == self.spec_capacity(),
    {
        self.capacity
    }

    pub fn len(&self) -> (r: usize)
        ensures
            r == self@.len(),
    {
        self.keys.len()
    }

    /// The key at one position, front first.
    pub fn key_at(&self, i: usize) -> (r: &String)
        requires
            i < self@.len(),
        ensures
            r@ == self@[i as int],
    {
        &self.keys[i]
    }

    /// Whether a key is currently cached.
    pub fn contains_key(&self, key: &String) -> (r: bool)
        ensures
            r == self@.contains(key@),
    {
        let found = find_key(&self.keys, key);
        found.is_some()
    }

    /// Empty the cache.
    pub fn clear(&mut self)
        ensures
            final(self).wf(),
            final(self)@ == Seq::<Seq<char>>::empty(),
            final(self).spec_capacity() == old(self).spec_capacity(),
    {
        self.keys.clear();
        proof {
            assert(self@ =~= Seq::<Seq<char>>::empty());
        }
    }

    /// Change the capacity, truncating the cache at once if it now holds too
    /// many keys.
    pub fn set_capacity(&mut self, capacity: usize)
        requires
            old(self).wf(),
        ensures
            final(self).wf(),
            final(self).spec_capacity() == capacity,
            capacity >= old(self)@.len() ==> final(self)@ == old(self)@,
            capacity < old(self)@.len() ==> final(self)@ == old(self)@.subrange(
                0,
                capacity as int,
            ),
    {
        self.capacity = capacity;
        let ghost pre = self@;
        if self.keys.len() > capacity {
            self.keys.truncate(capacity);
            proof {
                assert(self@ =~= pre.subrange(0, capacity as int));
                lemma_no_duplicates_subrange(pre, 0, capacity as int);
            }
        }
    }

    /// Record a key: remove its old occurrence if present, put it at the
    /// front, and truncate to the capacity.
    pub fn record(&mut self, key: String)
        requires
            old(self).wf(),
        ensures
            final(self).wf(),
            final(self).spec_capacity() == old(self).spec_capacity(),
            final(self)@ == record_spec(old(self)@, key@, old(self).spec_capacity()),
    {
        let ghost pre = self@;
        let ghost p = keep_other(key@);
        match find_key(&self.keys, &key) {
            Some(i) => {
                proof {
                    assert forall|j: int| 0 <= j < pre.len() && j != i implies p(pre[j]) by {
                        assert(pre[i as int] == key@);
                    }
                    lemma_filter_removes_unique(pre, p, i as int);
                }
                self.keys.remove(i);
                proof {
                    assert(self@ =~= pre.remove(i as int));
                }
            },
            None => {
                proof {
                    lemma_filter_identity(pre, p);
                }
            },
        }
        let ghost mid = self@;
        proof {
            assert(mid == pre.filter(p));
        }
        self.keys.insert(0, key);
        proof {
            assert(self@ =~= seq![key@] + mid);
        }
        let ghost merged = self@;
        if self.keys.len() > self.capacity {
            self.keys.truncate(self.capacity);
            proof {
                assert(self@ =~= merged.subrange(0, self.capacity as int));
            }
        }
        proof {
            lemma_record_well_formed(pre, key@, self.spec_capacity());
        }
    }
}

/// The index of the first occurrence of a key in a vector of keys.
fn find_key(keys: &Vec<String>, key: &String) -> (r: Option<usize>)
    ensures
        match r {
            Some(i) => i < keys@.len() && keys@[i as int]@ == key@ && forall|j: int|
                0 <= j < i ==> keys@[j]@ != key@,
            None => forall|j: int| 0 <= j < keys@.len() ==> keys@[j]@ != key@,
        },
        r is Some <==> keys@.map_values(|k: String| k@).contains(key@),
{
    let n = keys.len();
    for i in 0..n
        invariant
            n == keys@.len(),
            forall|j: int| 0 <= j < i ==> keys@[j]@ != key@,
    {
        if keys[i].eq(key) {
            proof {
                assert(keys@.map_values(|k: String| k@)[i as int] == key@);
            }
            return Some(i);
        }
    }
    proof {
        let m = keys@.map_values(|k: String| k@);
        assert forall|j: int| 0 <= j < m.len() implies m[j] != key@ by {
            assert(m[j] == keys@[j]@);
        }
    }
    None
}

/// What `record` leaves behind is always well formed: no duplicate keys, and
/// never more keys than the capacity allows.
pub proof fn lemma_record_well_formed(cache: Seq<Seq<char>>, key: Seq<char>, cap: nat)
    requires
        cache.no_duplicates(),
    ensures
        record_spec(cache, key, cap).no_duplicates(),
        record_spec(cache, key, cap).len() <= cap,
{
    let p = keep_other(key);
    let kept = cache.filter(p);
    lemma_filter_no_duplicates(cache, p);
    let merged = seq![key] + kept;
    assert forall|j: int| 0 <= j < kept.len() implies #[trigger] merged[j + 1] != key by {
        Seq::lemma_filter_pred(cache, p, j);
    }
    assert(merged.no_duplicates());
    if merged.len() > cap {
        lemma_no_duplicates_subrange(merged, 0, cap as int);
    }
}

/// Re-recording moves a key to the front without duplicating it: after
/// recording `x`, then `y`, then `x` again into a cache of capacity at least
/// two, the front is `x` and the second entry is `y`.
pub proof fn lemma_recency_mru(cache: Seq<Seq<char>>, x: Seq<char>, y: Seq<char>, cap: nat)
    requires
        cap >= 2,
        x != y,
    ensures
        ({
            let r = record_spec(record_spec(record_spec(cache, x, cap), y, cap), x, cap);
            r.len() >= 2 && r[0] == x && r[1] == y
        }),
{
    let c1 = record_spec(cache, x, cap);
    assert(c1[0] == x);
    let c2 = record_spec(c1, y, cap);
    lemma_filter_keeps_head(c1, keep_other(y));
    assert(c2[0] == y && c2[1] == x);
    let c3 = record_spec(c2, x, cap);
    lemma_filter_keeps_head(c2, keep_other(x));
    assert(c3[0] == x && c3[1] == y);
}

} // verus!
