//! A verified association store: the mapping both state modules keep from
//! account identities to numeric values. Its abstract view is a `Map` from
//! identity views to stored values; absence of a key is visible to callers,
//! who layer their own lazy default on top.

use crate::identity::Identity;
use vstd::prelude::*;

verus! {

/// A mapping from account identities to copyable values, backed by a list
/// of entries with pairwise-distinct identity views.
pub struct Store<K: Identity, T> {
    entries: Vec<(K, T)>,
}

impl<K: Identity, T: Copy> View for Store<K, T> {
    type V = Map<<K as View>::V, T>;

    closed spec fn view(&self) -> Map<<K as View>::V, T> {
        Store::<K, T>::seq_to_map(self.entries@)
    }
}

impl<K: Identity, T: Copy> Store<K, T> {
    /// The map an entry sequence denotes: later entries override earlier
    /// ones, though a well-formed store never holds a key twice.
    spec fn seq_to_map(s: Seq<(K, T)>) -> Map<<K as View>::V, T>
        decreases s.len(),
    {
        if s.len() == 0 {
            Map::empty()
        } else {
            Self::seq_to_map(s.drop_last()).insert(s.last().0@, s.last().1)
        }
    }

    spec fn distinct_keys(s: Seq<(K, T)>) -> bool {
        forall|i: int, j: int| 0 <= i < j < s.len() ==> s[i].0@ != s[j].0@
    }

    /// Each identity view occurs at most once among the entries.
    pub closed spec fn wf(self) -> bool {
        Self::distinct_keys(self.entries@)
    }

    /// A key carried by no entry is outside the map's domain.
    proof fn lemma_absent(s: Seq<(K, T)>, k: <K as View>::V)
        requires
            forall|i: int| 0 <= i < s.len() ==> s[i].0@ != k,
        ensures
            !Self::seq_to_map(s).dom().contains(k),
        decreases s.len(),
    {
        if s.len() > 0 {
            assert forall|i: int| 0 <= i < s.drop_last().len() implies s.drop_last()[i].0@
                != k by {
                assert(s[i].0@ != k);
            }
            Self::lemma_absent(s.drop_last(), k);
            assert(s[s.len() - 1].0@ != k);
        }
    }

    /// Under distinct keys, the map sends an entry's key to its value.
    proof fn lemma_lookup(s: Seq<(K, T)>, i: int)
        requires
            Self::distinct_keys(s),
            0 <= i < s.len(),
        ensures
            Self::seq_to_map(s).dom().contains(s[i].0@),
            Self::seq_to_map(s)[s[i].0@] == s[i].1,
        decreases s.len(),
    {
        if i < s.len() - 1 {
            assert(s.drop_last()[i] == s[i]);
            Self::lemma_lookup(s.drop_last(), i);
        }
    }

    /// Replacing the entry at `i` by one with the same identity view acts
    /// on the map as an insert of the new value at that key.
    proof fn lemma_update(s: Seq<(K, T)>, i: int, e: (K, T))
        requires
            Self::distinct_keys(s),
            0 <= i < s.len(),
            e.0@ == s[i].0@,
        ensures
            Self::seq_to_map(s.update(i, e)) == Self::seq_to_map(s).insert(e.0@, e.1),
        decreases s.len(),
    {
        let t = s.update(i, e);
        if i == s.len() - 1 {
            assert(t.drop_last() =~= s.drop_last());
            assert(t.last() == e);
            assert(Self::seq_to_map(s.drop_last()).insert(s.last().0@, s.last().1).insert(
                e.0@,
                e.1,
            ) =~= Self::seq_to_map(s.drop_last()).insert(e.0@, e.1));
        } else {
            assert(t.drop_last() =~= s.drop_last().update(i, e));
            assert(t.last() == s.last());
            assert(s.drop_last()[i] == s[i]);
            Self::lemma_update(s.drop_last(), i, e);
            assert(s.last().0@ != s[i].0@);
            assert(Self::seq_to_map(s.drop_last()).insert(e.0@, e.1).insert(
                s.last().0@,
                s.last().1,
            ) =~= Self::seq_to_map(s.drop_last()).insert(s.last().0@, s.last().1).insert(
                e.0@,
                e.1,
            ));
        }
    }

    /// Creates an empty store.
    pub fn new() -> (s: Self)
        ensures
            s.wf(),
            s@ == Map::<<K as View>::V, T>::empty(),
    {
        Store { entries: Vec::new() }
    }

    /// Looks up the value stored under `key`, if any.
    pub fn get(&self, key: &K) -> (r: Option<T>)
        requires
            self.wf(),
        ensures
            match r {
                Some(v) => self@.dom().contains(key@) && self@[key@] == v,
                None => !self@.dom().contains(key@),
            },
    {
        let n = self.entries.len();
        let mut i: usize = 0;
        while i < n
            invariant
                n == self.entries@.len(),
                i <= n,
                self.wf(),
                forall|j: int| 0 <= j < i ==> self.entries@[j].0@ != key@,
            decreases n - i,
        {
            if self.entries[i].0.eq_id(key) {
                proof {
                    Self::lemma_lookup(self.entries@, i as int);
                }
                return Some(self.entries[i].1);
            }
            i += 1;
        }
        proof {
            Self::lemma_absent(self.entries@, key@);
        }
        None
    }

    /// Stores `value` under `key`, overwriting any earlier value.
    pub fn insert(&mut self, key: &K, value: T)
        requires
            old(self).wf(),
        ensures
            final(self).wf(),
            final(self)@ == old(self)@.insert(key@, value),
    {
        let ghost s0 = self.entries@;
        let n = self.entries.len();
        let mut i: usize = 0;
        while i < n
            invariant
                n == self.entries@.len(),
                i <= n,
                self.wf(),
                self.entries@ == s0,
                s0 == old(self).entries@,
                forall|j: int| 0 <= j < i ==> self.entries@[j].0@ != key@,
            decreases n - i,
        {
            if self.entries[i].0.eq_id(key) {
                let e = (key.clone_id(), value);
                proof {
                    Self::lemma_update(s0, i as int, e);
                }
                self.entries[i] = e;
                return;
            }
            i += 1;
        }
        let e = (key.clone_id(), value);
        proof {
            assert(s0.push(e).drop_last() =~= s0);
            assert forall|p: int, q: int| 0 <= p < q < s0.push(e).len() implies s0.push(e)[p].0@
                != s0.push(e)[q].0@ by {
                if q == s0.len() {
                    assert(s0[p].0@ != key@);
                }
            }
        }
        self.entries.push(e);
    }
}

} // verus!
