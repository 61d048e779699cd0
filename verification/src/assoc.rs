use crate::types::{Address, W256};
use vstd::prelude::*;

verus! {

/// A key whose mathematical view decides equality, with an executable
/// comparison that agrees with it.
pub trait AssocKey: View + Sized {
    fn key_eq(&self, other: &Self) -> (r: bool)
        ensures
            r == (self@ == other@);
}

/// What an entry list associates with the view `key`: the value of the
/// first entry whose key has that view.
pub open spec fn spec_lookup<K: AssocKey, V>(
    entries: Seq<(K, V)>,
    key: <K as View>::V,
) -> Option<V>
    decreases entries.len(),
{
    if entries.len() == 0 {
        None
    } else if entries[0].0@ == key {
        Some(entries[0].1)
    } else {
        spec_lookup(entries.drop_first(), key)
    }
}

/// Updating the first entry whose key matches leaves every other
/// association unchanged and rebinds the matched key.
proof fn lemma_lookup_update<K: AssocKey, V>(
    entries: Seq<(K, V)>,
    i: int,
    k: K,
    v: V,
    x: <K as View>::V,
)
    requires
        0 <= i < entries.len(),
        forall|j: int| 0 <= j < i ==> entries[j].0@ != k@,
        entries[i].0@ == k@,
    ensures
        spec_lookup(entries.update(i, (k, v)), x) == (if x == k@ {
            Some(v)
        } else {
            spec_lookup(entries, x)
        }),
    decreases i,
{
    let updated = entries.update(i, (k, v));
    if i == 0 {
        if x != k@ {
            assert(updated.drop_first() =~= entries.drop_first());
        }
    } else {
        assert(updated.drop_first() =~= entries.drop_first().update(i - 1, (k, v)));
        lemma_lookup_update(entries.drop_first(), i - 1, k, v, x);
    }
}

/// Appending an entry whose key occurs nowhere in the list adds exactly
/// one association and keeps the rest.
proof fn lemma_lookup_push<K: AssocKey, V>(entries: Seq<(K, V)>, k: K, v: V, x: <K as View>::V)
    requires
        forall|j: int| 0 <= j < entries.len() ==> entries[j].0@ != k@,
    ensures
        spec_lookup(entries.push((k, v)), x) == (if x == k@ {
            Some(v)
        } else {
            spec_lookup(entries, x)
        }),
    decreases entries.len(),
{
    if entries.len() == 0 {
        assert(entries.push((k, v)).drop_first() =~= entries);
        if x != k@ {
            assert(spec_lookup(entries.push((k, v)), x) is None);
        }
    } else {
        assert(entries.push((k, v)).drop_first() =~= entries.drop_first().push((k, v)));
        lemma_lookup_push(entries.drop_first(), k, v, x);
    }
}

/// An association list looked up by key view, first match winning.
pub struct AssocVec<K: AssocKey, V> {
    pub entries: Vec<(K, V)>,
}

impl<K: AssocKey, V> AssocVec<K, V> {
    /// The association this list holds for the view `x`.
    pub open spec fn spec_get(self, x: <K as View>::V) -> Option<V> {
        spec_lookup(self.entries@, x)
    }

    /// No two entries bind keys with the same view. Lists built through
    /// `new`, `upsert` and `remove` alone always satisfy this.
    pub open spec fn nodup(self) -> bool {
        forall|i: int, j: int|
            0 <= i < j < self.entries@.len() ==> self.entries@[i].0@ != self.entries@[j].0@
    }

    pub fn new() -> (m: AssocVec<K, V>)
        ensures
            forall|x: <K as View>::V| m.spec_get(x) is None,
            m.entries@.len() == 0,
            m.nodup(),
    {
        AssocVec { entries: Vec::new() }
    }

    /// A reference to the value associated with `k`, if any.
    pub fn get(&self, k: &K) -> (r: Option<&V>)
        ensures
            match r {
                Some(v) => self.spec_get(k@) == Some(*v),
                None => self.spec_get(k@) is None,
            },
    {
        let mut i: usize = 0;
        proof {
            assert(self.entries@.skip(0) =~= self.entries@);
        }
        while i < self.entries.len()
            invariant
                0 <= i <= self.entries@.len(),
                spec_lookup(self.entries@, k@) == spec_lookup(
                    self.entries@.skip(i as int),
                    k@,
                ),
            decreases self.entries@.len() - i,
        {
            if self.entries[i].0.key_eq(k) {
                return Some(&self.entries[i].1);
            }
            proof {
                assert(self.entries@.skip(i as int).drop_first() =~= self.entries@.skip(
                    i + 1 as int,
                ));
            }
            i += 1;
        }
        None
    }

    /// Binds `k` to `v`: overwrites the association if one exists, adds
    /// it otherwise. Every other association is untouched.
    pub fn upsert(&mut self, k: K, v: V)
        ensures
            forall|x: <K as View>::V| #[trigger] final(self).spec_get(x) == (if x == k@ {
                Some(v)
            } else {
                old(self).spec_get(x)
            }),
            old(self).nodup() ==> final(self).nodup(),
    {
        let ghost entries0 = old(self).entries@;
        let mut i: usize = 0;
        while i < self.entries.len()
            invariant
                0 <= i <= self.entries@.len(),
                entries0 == old(self).entries@,
                self.entries@ == entries0,
                forall|j: int| 0 <= j < i ==> entries0[j].0@ != k@,
            decreases self.entries@.len() - i,
        {
            if self.entries[i].0.key_eq(&k) {
                let ghost ii = i as int;
                self.entries.remove(i);
                self.entries.insert(i, (k, v));
                proof {
                    assert(self.entries@ =~= entries0.update(ii, (k, v)));
                    assert(old(self).entries@ == entries0);
                    assert(forall|a: int, b: int|
                        0 <= a < b < entries0.len() && entries0[a].0@ != entries0[b].0@
                            ==> self.entries@[a].0@ != self.entries@[b].0@);
                    assert forall|x: <K as View>::V| #[trigger] self.spec_get(x) == (if x == k@ {
                        Some(v)
                    } else {
                        old(self).spec_get(x)
                    }) by {
                        lemma_lookup_update(entries0, ii, k, v, x);
                    }
                }
                return ;
            }
            i += 1;
        }
        self.entries.push((k, v));
        proof {
            assert forall|x: <K as View>::V| #[trigger] self.spec_get(x) == (if x == k@ {
                Some(v)
            } else {
                spec_lookup(entries0, x)
            }) by {
                lemma_lookup_push(entries0, k, v, x);
            }
        }
    }

    /// Takes the association for `k` out of the list, if any. Every
    /// other association is untouched; afterwards `k` is unbound.
    pub fn remove(&mut self, k: &K) -> (r: Option<V>)
        requires
            old(self).nodup(),
        ensures
            final(self).nodup(),
            r == old(self).spec_get(k@),
            forall|x: <K as View>::V| #[trigger] final(self).spec_get(x) == (if x == k@ {
                None::<V>
            } else {
                old(self).spec_get(x)
            }),
    {
        let ghost entries0 = old(self).entries@;
        let mut i: usize = 0;
        while i < self.entries.len()
            invariant
                0 <= i <= self.entries@.len(),
                entries0 == old(self).entries@,
                old(self).nodup(),
                self.entries@ == entries0,
                forall|j: int| 0 <= j < i ==> entries0[j].0@ != k@,
            decreases self.entries@.len() - i,
        {
            if self.entries[i].0.key_eq(k) {
                let ghost ii = i as int;
                let removed = self.entries.remove(i);
                proof {
                    assert(self.entries@ =~= entries0.remove(ii));
                    assert(entries0[ii].0@ == k@);
                    assert forall|j: int|
                        0 <= j < self.entries@.len() implies self.entries@[j].0@ != k@ by {
                        if j >= ii {
                            assert(self.entries@[j] == entries0[j + 1]);
                        }
                    }
                    assert forall|a: int, b: int|
                        0 <= a < b < self.entries@.len() implies self.entries@[a].0@
                        != self.entries@[b].0@ by {
                        assert(self.entries@[a] == (if a < ii {
                            entries0[a]
                        } else {
                            entries0[a + 1]
                        }));
                        assert(self.entries@[b] == (if b < ii {
                            entries0[b]
                        } else {
                            entries0[b + 1]
                        }));
                    }
                    assert forall|x: <K as View>::V| #[trigger] self.spec_get(x) == (if x == k@ {
                        None::<V>
                    } else {
                        spec_lookup(entries0, x)
                    }) by {
                        if x == k@ {
                            lemma_lookup_no_match(self.entries@, x);
                        } else {
                            lemma_lookup_remove(entries0, ii, x);
                        }
                    }
                    assert(spec_lookup(entries0, k@) == Some(removed.1)) by {
                        lemma_lookup_found(entries0, ii);
                    }
                }
                return Some(removed.1);
            }
            i += 1;
        }
        proof {
            assert forall|x: <K as View>::V| #[trigger] self.spec_get(x) == (if x == k@ {
                None::<V>
            } else {
                spec_lookup(entries0, x)
            }) by {
                if x == k@ {
                    lemma_lookup_no_match(entries0, k@);
                }
            }
            assert(spec_lookup(entries0, k@) is None) by {
                lemma_lookup_no_match(entries0, k@);
            }
        }
        None
    }
}

/// Removing the first entry whose key matches keeps every other
/// association.
proof fn lemma_lookup_remove<K: AssocKey, V>(entries: Seq<(K, V)>, i: int, x: <K as View>::V)
    requires
        0 <= i < entries.len(),
        forall|j: int| 0 <= j < i ==> entries[j].0@ != entries[i].0@,
        x != entries[i].0@,
    ensures
        spec_lookup(entries.remove(i), x) == spec_lookup(entries, x),
    decreases i,
{
    if i == 0 {
        assert(entries.remove(0) =~= entries.drop_first());
    } else {
        assert(entries.remove(i).drop_first() =~= entries.drop_first().remove(i - 1));
        lemma_lookup_remove(entries.drop_first(), i - 1, x);
    }
}

/// The first matching entry is what lookup returns.
proof fn lemma_lookup_found<K: AssocKey, V>(entries: Seq<(K, V)>, i: int)
    requires
        0 <= i < entries.len(),
        forall|j: int| 0 <= j < i ==> entries[j].0@ != entries[i].0@,
    ensures
        spec_lookup(entries, entries[i].0@) == Some(entries[i].1),
    decreases i,
{
    if i > 0 {
        lemma_lookup_found(entries.drop_first(), i - 1);
    }
}

/// A key that matches no entry is unbound.
proof fn lemma_lookup_no_match<K: AssocKey, V>(entries: Seq<(K, V)>, x: <K as View>::V)
    requires
        forall|j: int| 0 <= j < entries.len() ==> entries[j].0@ != x,
    ensures
        spec_lookup(entries, x) is None,
    decreases entries.len(),
{
    if entries.len() > 0 {
        lemma_lookup_no_match(entries.drop_first(), x);
    }
}

impl AssocKey for Address {
    fn key_eq(&self, other: &Self) -> (r: bool) {
        self.equals(other)
    }
}

impl AssocKey for W256 {
    fn key_eq(&self, other: &Self) -> (r: bool) {
        self.equals(other)
    }
}

} // verus!
