//! A small byte-string-keyed association map with insertion order.
//!
//! Destination paths, template names, template variables and the asset
//! manifest are all keyed by short byte strings. A dense vector of pairs
//! keeps the reasoning simple and the iteration order deterministic
//! (insertion order, which also fixes the order of emitted files).

use vstd::prelude::*;

verus! {

/// First value paired with `k` in `s`, if any.
pub open spec fn assoc<V>(s: Seq<(Seq<u8>, V)>, k: Seq<u8>) -> Option<V>
    decreases s.len(),
{
    if s.len() == 0 {
        None
    } else if s[0].0 == k {
        Some(s[0].1)
    } else {
        assoc(s.drop_first(), k)
    }
}

proof fn lemma_assoc_skip_one<V>(s: Seq<(Seq<u8>, V)>, k: Seq<u8>, i: int)
    requires
        0 <= i < s.len(),
        s[i].0 != k,
    ensures
        assoc(s.skip(i), k) == assoc(s.skip(i + 1), k),
{
    assert(s.skip(i).drop_first() =~= s.skip(i + 1));
}

/// Map from byte-string keys to values, keeping insertion order.
pub struct Dict<V> {
    entries: Vec<(Vec<u8>, V)>,
}

impl<V> Dict<V> {
    /// The entries in insertion order.
    pub closed spec fn entries(&self) -> Seq<(Seq<u8>, V)> {
        self.entries@.map(|i: int, e: (Vec<u8>, V)| (e.0@, e.1))
    }

    /// No key occurs twice.
    pub open spec fn wf(&self) -> bool {
        forall|i: int, j: int|
            0 <= i < j < self.entries().len() ==> self.entries()[i].0 != self.entries()[j].0
    }

    /// The value stored under `k`.
    pub open spec fn spec_get(&self, k: Seq<u8>) -> Option<V> {
        assoc(self.entries(), k)
    }

    /// Whether some entry has key `k`.
    pub open spec fn contains_key(&self, k: Seq<u8>) -> bool {
        self.spec_get(k) is Some
    }

    /// An empty map.
    pub fn new() -> (r: Self)
        ensures
            r.entries() == Seq::<(Seq<u8>, V)>::empty(),
            r.wf(),
    {
        let r = Dict { entries: Vec::new() };
        proof {
            assert(r.entries() =~= Seq::<(Seq<u8>, V)>::empty());
        }
        r
    }

    /// Number of entries.
    pub fn len(&self) -> (r: usize)
        ensures
            r == self.entries().len(),
    {
        self.entries.len()
    }

    /// The entry at position `i`, in insertion order.
    pub fn entry_at(&self, i: usize) -> (r: (&Vec<u8>, &V))
        requires
            i < self.entries().len(),
        ensures
            (r.0@, *r.1) == self.entries()[i as int],
    {
        let e = &self.entries[i];
        (&e.0, &e.1)
    }

    /// Looks `k` up.
    pub fn get(&self, k: &[u8]) -> (r: Option<&V>)
        ensures
            match r {
                Some(v) => self.spec_get(k@) == Some(*v),
                None => self.spec_get(k@) is None,
            },
    {
        proof {
            assert(self.entries().skip(0) =~= self.entries());
        }
        let mut i: usize = 0;
        while i < self.entries.len()
            invariant
                i <= self.entries().len(),
                assoc(self.entries().skip(i as int), k@) == self.spec_get(k@),
            decreases self.entries().len() - i,
        {
            if crate::bytes::slices_eq(self.entries[i].0.as_slice(), k) {
                assert(self.entries().skip(i as int)[0] == self.entries()[i as int]);
                return Some(&self.entries[i].1);
            }
            proof {
                lemma_assoc_skip_one(self.entries(), k@, i as int);
                assert(self.entries().skip(i as int).drop_first() =~= self.entries().skip(
                    i + 1 as int,
                ));
            }
            i += 1;
        }
        assert(self.entries().skip(i as int) =~= Seq::<(Seq<u8>, V)>::empty());
        None
    }

    /// Inserts `v` under `k`; an existing entry for `k` is overwritten in
    /// place, a new key is appended at the end.
    pub fn insert(&mut self, k: Vec<u8>, v: V)
        requires
            old(self).wf(),
        ensures
            final(self).wf(),
            final(self).spec_get(k@) == Some::<V>(v),
            forall|k2: Seq<u8>|
                k2 != k@ ==> final(self).spec_get(k2) == old(self).spec_get(k2),
            old(self).contains_key(k@) ==> exists|i: int|
                0 <= i < old(self).entries().len() && old(self).entries()[i].0 == k@
                    && final(self).entries() == old(self).entries().update(i, (k@, v)),
            !old(self).contains_key(k@) ==> final(self).entries() == old(self).entries().push(
                (k@, v),
            ),
    {
        let ghost orig = self.entries();
        proof {
            assert(orig == old(self).entries());
            assert(orig.skip(0) =~= orig);
        }
        let mut i: usize = 0;
        while i < self.entries.len()
            invariant
                self.entries() == orig,
                orig == old(self).entries(),
                old(self).wf(),
                i <= orig.len(),
                forall|j: int| 0 <= j < i ==> orig[j].0 != k@,
                assoc(orig.skip(i as int), k@) == assoc(orig, k@),
            decreases orig.len() - i,
        {
            if crate::bytes::slices_eq(self.entries[i].0.as_slice(), k.as_slice()) {
                assert(orig.skip(i as int)[0] == orig[i as int]);
                assert(orig[i as int].0 == k@);
                self.entries[i] = (k, v);
                proof {
                    assert(self.entries() =~= orig.update(i as int, (k@, v)));
                    assert(old(self).entries() == orig);
                    assert forall|a: int, b: int|
                        0 <= a < b < self.entries().len() implies self.entries()[a].0
                        != self.entries()[b].0 by {
                        assert(old(self).entries()[a].0 != old(self).entries()[b].0);
                        assert(self.entries()[a].0 == orig[a].0);
                        assert(self.entries()[b].0 == orig[b].0);
                    }
                    lemma_assoc_update(orig, k@, v, i as int);
                    assert forall|k2: Seq<u8>| k2 != k@ implies self.spec_get(k2) == old(
                        self,
                    ).spec_get(k2) by {
                        lemma_assoc_update_other(orig, k@, v, i as int, k2);
                        assert(self.entries() == orig.update(i as int, (k@, v)));
                    }
                }
                return;
            }
            proof {
                lemma_assoc_skip_one(orig, k@, i as int);
            }
            i += 1;
        }
        proof {
            assert(orig.skip(i as int) =~= Seq::<(Seq<u8>, V)>::empty());
        }
        self.entries.push((k, v));
        proof {
            assert(self.entries() =~= orig.push((k@, v)));
            assert(old(self).entries() == orig);
            lemma_assoc_push(orig, k@, v);
            assert forall|k2: Seq<u8>| k2 != k@ implies self.spec_get(k2) == old(self).spec_get(
                k2,
            ) by {
                lemma_assoc_push_other(orig, k@, v, k2);
                assert(self.entries() == orig.push((k@, v)));
            }
        }
    }
}

/// The association lookup returns the entry at the first index holding
/// the key.
pub proof fn lemma_assoc_at<V>(s: Seq<(Seq<u8>, V)>, k: Seq<u8>, i: int)
    requires
        0 <= i < s.len(),
        s[i].0 == k,
        forall|j: int| 0 <= j < i ==> s[j].0 != k,
    ensures
        assoc(s, k) == Some(s[i].1),
    decreases i,
{
    if i > 0 {
        assert(s.drop_first()[i - 1] == s[i]);
        assert(forall|j: int| 0 <= j < i - 1 ==> s.drop_first()[j] == s[j + 1]);
        lemma_assoc_at(s.drop_first(), k, i - 1);
    }
}

proof fn lemma_assoc_update<V>(s: Seq<(Seq<u8>, V)>, k: Seq<u8>, v: V, i: int)
    requires
        0 <= i < s.len(),
        s[i].0 == k,
        forall|j: int| 0 <= j < i ==> s[j].0 != k,
    ensures
        assoc(s.update(i, (k, v)), k) == Some(v),
    decreases i,
{
    let t = s.update(i, (k, v));
    if i == 0 {
        assert(t[0] == (k, v));
    } else {
        assert(t[0] == s[0]);
        assert(t.drop_first() =~= s.drop_first().update(i - 1, (k, v)));
        lemma_assoc_update(s.drop_first(), k, v, i - 1);
    }
}

proof fn lemma_assoc_update_other<V>(s: Seq<(Seq<u8>, V)>, k: Seq<u8>, v: V, i: int, k2: Seq<u8>)
    requires
        0 <= i < s.len(),
        s[i].0 == k,
        k2 != k,
    ensures
        assoc(s.update(i, (k, v)), k2) == assoc(s, k2),
    decreases i,
{
    let t = s.update(i, (k, v));
    if i == 0 {
        assert(t[0] == (k, v));
        assert(t.drop_first() =~= s.drop_first());
    } else {
        assert(t[0] == s[0]);
        if s[0].0 != k2 {
            assert(t.drop_first() =~= s.drop_first().update(i - 1, (k, v)));
            lemma_assoc_update_other(s.drop_first(), k, v, i - 1, k2);
        }
    }
}

proof fn lemma_assoc_push<V>(s: Seq<(Seq<u8>, V)>, k: Seq<u8>, v: V)
    requires
        forall|j: int| 0 <= j < s.len() ==> s[j].0 != k,
    ensures
        assoc(s.push((k, v)), k) == Some(v),
    decreases s.len(),
{
    if s.len() == 0 {
        assert(s.push((k, v))[0] == (k, v));
    } else {
        assert(s.push((k, v))[0] == s[0]);
        assert(s.push((k, v)).drop_first() =~= s.drop_first().push((k, v)));
        lemma_assoc_push(s.drop_first(), k, v);
    }
}

proof fn lemma_assoc_push_other<V>(s: Seq<(Seq<u8>, V)>, k: Seq<u8>, v: V, k2: Seq<u8>)
    requires
        k2 != k,
    ensures
        assoc(s.push((k, v)), k2) == assoc(s, k2),
    decreases s.len(),
{
    if s.len() == 0 {
        assert(s.push((k, v))[0] == (k, v));
        assert(s.push((k, v)).drop_first() =~= Seq::<(Seq<u8>, V)>::empty());
    } else {
        assert(s.push((k, v))[0] == s[0]);
        assert(s.push((k, v)).drop_first() =~= s.drop_first().push((k, v)));
        lemma_assoc_push_other(s.drop_first(), k, v, k2);
    }
}

} // verus!
