//! A small association table from string keys to values, each key held
//! at most once.  It backs the model file store and the plugin cache.

use vstd::prelude::*;

verus! {

/// An association table from string keys to values.
pub struct Table<V> {
    entries: Vec<(String, V)>,
}

impl<V> Table<V> {
    /// Every key occurs at most once.
    pub closed spec fn wf(self) -> bool {
        forall|i: int, j: int|
            0 <= i < j < self.entries@.len() ==> self.entries@[i].0@ != self.entries@[j].0@
    }

    /// The table holds an entry for `k`.
    pub closed spec fn spec_has(self, k: Seq<char>) -> bool {
        exists|i: int| 0 <= i < self.entries@.len() && self.entries@[i].0@ == k
    }

    /// The value stored under `k`; meaningful only when `spec_has(k)`.
    pub closed spec fn spec_at(self, k: Seq<char>) -> V {
        self.entries@[choose|i: int|
            0 <= i < self.entries@.len() && self.entries@[i].0@ == k].1
    }

    /// The entry at a well-formed index is the one `spec_at` returns for
    /// its key.
    proof fn lemma_entry_at(self, i: int)
        requires
            self.wf(),
            0 <= i < self.entries@.len(),
        ensures
            self.spec_has(self.entries@[i].0@),
            self.spec_at(self.entries@[i].0@) == self.entries@[i].1,
    {
        let k = self.entries@[i].0@;
        assert(self.spec_has(k));
        let c = choose|j: int| 0 <= j < self.entries@.len() && self.entries@[j].0@ == k;
        if c < i {
            assert(self.entries@[c].0@ != self.entries@[i].0@);
        } else if i < c {
            assert(self.entries@[i].0@ != self.entries@[c].0@);
        }
    }

    /// An empty table.
    pub fn new() -> (r: Self)
        ensures
            r.wf(),
            forall|k: Seq<char>| !r.spec_has(k),
    {
        Table { entries: Vec::new() }
    }

    /// Index of the entry for `key`, when there is one.
    fn index_of(&self, key: &String) -> (r: Option<usize>)
        ensures
            match r {
                Some(i) => i < self.entries@.len() && self.entries@[i as int].0@ == key@,
                None => !self.spec_has(key@),
            },
    {
        let n = self.entries.len();
        let mut i: usize = 0;
        while i < n
            invariant
                i <= n,
                n == self.entries@.len(),
                forall|k: int| 0 <= k < i ==> self.entries@[k].0@ != key@,
            decreases n - i,
        {
            if self.entries[i].0 == *key {
                return Some(i);
            }
            i = i + 1;
        }
        None
    }

    /// Looks the value for `key` up.
    pub fn get(&self, key: &String) -> (r: Option<&V>)
        requires
            self.wf(),
        ensures
            match r {
                Some(v) => self.spec_has(key@) && *v == self.spec_at(key@),
                None => !self.spec_has(key@),
            },
    {
        match self.index_of(key) {
            Some(i) => {
                proof {
                    self.lemma_entry_at(i as int);
                }
                Some(&self.entries[i].1)
            }
            None => None,
        }
    }

    /// Removes the entry for `key`; removing an absent key changes nothing.
    pub fn take_out(&mut self, key: &String)
        requires
            old(self).wf(),
        ensures
            final(self).wf(),
            !final(self).spec_has(key@),
            forall|k: Seq<char>|
                k != key@ ==> (final(self).spec_has(k) <==> old(self).spec_has(k)),
            forall|k: Seq<char>|
                k != key@ && old(self).spec_has(k) ==> final(self).spec_at(k)
                    == old(self).spec_at(k),
            !old(self).spec_has(key@) ==> *final(self) == *old(self),
    {
        match self.index_of(key) {
            Some(i) => {
                let ghost pre = *self;
                self.entries.remove(i);
                proof {
                    let removed = pre.entries@.remove(i as int);
                    assert(self.entries@ =~= removed);
                    assert forall|p: int, q: int|
                        0 <= p < q < self.entries@.len() implies self.entries@[p].0@
                        != self.entries@[q].0@ by {
                        let p0: int = if p < i { p } else { p + 1 };
                        let q0: int = if q < i { q } else { q + 1 };
                        assert(self.entries@[p] == pre.entries@[p0]);
                        assert(self.entries@[q] == pre.entries@[q0]);
                    }
                    assert forall|k: Seq<char>| self.spec_has(k) implies k != key@
                        && pre.spec_has(k) by {
                        let j = choose|j: int|
                            0 <= j < self.entries@.len() && self.entries@[j].0@ == k;
                        let j0: int = if j < i { j } else { j + 1 };
                        assert(self.entries@[j] == pre.entries@[j0]);
                        if self.entries@[j].0@ == key@ {
                            if j0 < i {
                                assert(pre.entries@[j0].0@ != pre.entries@[i as int].0@);
                            } else {
                                assert(pre.entries@[i as int].0@ != pre.entries@[j0].0@);
                            }
                        }
                    }
                    assert forall|k: Seq<char>| k != key@ && pre.spec_has(k) implies
                        final(self).spec_has(k) && final(self).spec_at(k)
                        == pre.spec_at(k) by {
                        let j0 = choose|j0: int|
                            0 <= j0 < pre.entries@.len() && pre.entries@[j0].0@ == k;
                        pre.lemma_entry_at(j0);
                        let j: int = if j0 < i { j0 } else { j0 - 1 };
                        assert(self.entries@[j] == pre.entries@[j0]);
                        self.lemma_entry_at(j);
                    }
                }
            }
            None => {}
        }
    }

    /// Binds `key` to `value`, replacing any earlier entry.
    pub fn put(&mut self, key: &String, value: V)
        requires
            old(self).wf(),
        ensures
            final(self).wf(),
            final(self).spec_has(key@),
            final(self).spec_at(key@) == value,
            forall|k: Seq<char>|
                k != key@ ==> (final(self).spec_has(k) <==> old(self).spec_has(k)),
            forall|k: Seq<char>|
                k != key@ && old(self).spec_has(k) ==> final(self).spec_at(k)
                    == old(self).spec_at(k),
    {
        self.take_out(key);
        let ghost pre = *self;
        self.entries.push((key.clone(), value));
        proof {
            let n = pre.entries@.len() as int;
            assert(self.entries@ =~= pre.entries@.push((*key, value)));
            assert(self.entries@[n] == ((*key, value)));
            assert forall|p: int, q: int|
                0 <= p < q < self.entries@.len() implies self.entries@[p].0@
                != self.entries@[q].0@ by {
                if q < n {
                    assert(self.entries@[p] == pre.entries@[p]);
                    assert(self.entries@[q] == pre.entries@[q]);
                } else {
                    assert(self.entries@[p] == pre.entries@[p]);
                    assert(!pre.spec_has(key@));
                }
            }
            self.lemma_entry_at(n);
            assert forall|k: Seq<char>| k != key@ && self.spec_has(k) implies
                pre.spec_has(k) && self.spec_at(k) == pre.spec_at(k) by {
                let j = choose|j: int|
                    0 <= j < self.entries@.len() && self.entries@[j].0@ == k;
                assert(self.entries@[j] == pre.entries@[j]);
                pre.lemma_entry_at(j);
                self.lemma_entry_at(j);
            }
            assert forall|k: Seq<char>| k != key@ && pre.spec_has(k) implies
                self.spec_has(k) by {
                let j = choose|j: int|
                    0 <= j < pre.entries@.len() && pre.entries@[j].0@ == k;
                assert(self.entries@[j] == pre.entries@[j]);
            }
        }
    }
}

} // verus!
