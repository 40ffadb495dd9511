//! A small association map with mathematical `Map` semantics.
//!
//! Keys are compared through [`MapKey::key_eq`], whose contract ties the
//! executable comparison to view equality, so every operation's contract can
//! be stated over `Map<K::V, V>`.

use vstd::prelude::*;

verus! {

/// A key type whose executable equality decides view equality.
pub trait MapKey: View + Sized {
    fn key_eq(&self, other: &Self) -> (r: bool)
        ensures
            r == (self@ == other@),
    ;
}

/// An association list with unique keys, viewed as a `Map`.
pub struct AssocMap<K: MapKey, V> {
    pub entries: Vec<(K, V)>,
}

impl<K: MapKey, V> View for AssocMap<K, V> {
    type V = Map<<K as View>::V, V>;

    open spec fn view(&self) -> Map<<K as View>::V, V> {
        seq_to_map(self.entries@)
    }
}

/// The map denoted by an association list; later entries win.
pub open spec fn seq_to_map<K: MapKey, V>(s: Seq<(K, V)>) -> Map<<K as View>::V, V>
    decreases s.len(),
{
    if s.len() == 0 {
        Map::empty()
    } else {
        seq_to_map(s.drop_last()).insert(s.last().0@, s.last().1)
    }
}

/// No two entries share a key view.
pub open spec fn keys_unique<K: MapKey, V>(s: Seq<(K, V)>) -> bool {
    forall|i: int, j: int| 0 <= i < j < s.len() ==> s[i].0@ != s[j].0@
}

proof fn lemma_seq_to_map_dom<K: MapKey, V>(s: Seq<(K, V)>, k: <K as View>::V)
    ensures
        seq_to_map(s).contains_key(k) <==> exists|i: int| 0 <= i < s.len() && s[i].0@ == k,
    decreases s.len(),
{
    if s.len() > 0 {
        lemma_seq_to_map_dom(s.drop_last(), k);
        if s.last().0@ == k {
            assert(s[s.len() - 1].0@ == k);
        } else if seq_to_map(s).contains_key(k) {
            let i = choose|i: int| 0 <= i < s.drop_last().len() && s.drop_last()[i].0@ == k;
            assert(s[i].0@ == k);
        } else if exists|i: int| 0 <= i < s.len() && s[i].0@ == k {
            let i = choose|i: int| 0 <= i < s.len() && s[i].0@ == k;
            assert(s.drop_last()[i].0@ == k);
        }
    }
}

proof fn lemma_seq_to_map_get<K: MapKey, V>(s: Seq<(K, V)>, i: int)
    requires
        keys_unique(s),
        0 <= i < s.len(),
    ensures
        seq_to_map(s).contains_key(s[i].0@),
        seq_to_map(s)[s[i].0@] == s[i].1,
    decreases s.len(),
{
    if i == s.len() - 1 {
        assert(s.last() == s[i]);
    } else {
        assert(keys_unique(s.drop_last()));
        assert(s.drop_last()[i] == s[i]);
        lemma_seq_to_map_get(s.drop_last(), i);
        assert(s[s.len() - 1].0@ != s[i].0@);
    }
}

proof fn lemma_seq_to_map_push<K: MapKey, V>(s: Seq<(K, V)>, k: K, v: V)
    ensures
        seq_to_map(s.push((k, v))) == seq_to_map(s).insert(k@, v),
{
    assert(s.push((k, v)).drop_last() =~= s);
    assert(s.push((k, v)).last() == (k, v));
}

proof fn lemma_seq_to_map_update<K: MapKey, V>(s: Seq<(K, V)>, i: int, k: K, v: V)
    requires
        keys_unique(s),
        0 <= i < s.len(),
        s[i].0@ == k@,
    ensures
        seq_to_map(s.update(i, (k, v))) == seq_to_map(s).insert(k@, v),
        keys_unique(s.update(i, (k, v))),
    decreases s.len(),
{
    let t = s.update(i, (k, v));
    assert(keys_unique(t));
    if i == s.len() - 1 {
        assert(t.drop_last() =~= s.drop_last());
        assert(t.last() == (k, v));
        assert(seq_to_map(t) == seq_to_map(s.drop_last()).insert(k@, v));
        lemma_seq_to_map_dom(s.drop_last(), k@);
        assert(seq_to_map(s).insert(k@, v) =~= seq_to_map(s.drop_last()).insert(k@, v));
    } else {
        assert(t.drop_last() =~= s.drop_last().update(i, (k, v)));
        assert(t.last() == s.last());
        assert(keys_unique(s.drop_last()));
        assert(s.drop_last()[i] == s[i]);
        lemma_seq_to_map_update(s.drop_last(), i, k, v);
        assert(s.last().0@ != k@);
        assert(seq_to_map(s).insert(k@, v) =~= seq_to_map(s.drop_last()).insert(k@, v).insert(
            s.last().0@,
            s.last().1,
        ));
    }
}

proof fn lemma_seq_to_map_remove<K: MapKey, V>(s: Seq<(K, V)>, i: int)
    requires
        keys_unique(s),
        0 <= i < s.len(),
    ensures
        seq_to_map(s.remove(i)) == seq_to_map(s).remove(s[i].0@),
        keys_unique(s.remove(i)),
    decreases s.len(),
{
    let t = s.remove(i);
    assert(keys_unique(t)) by {
        assert(forall|a: int, b: int| 0 <= a < b < t.len() ==> t[a].0@ != t[b].0@) by {
            assert(forall|a: int| 0 <= a < i ==> t[a] == s[a]);
            assert(forall|a: int| i <= a < t.len() ==> t[a] == s[a + 1]);
        }
    }
    if i == s.len() - 1 {
        assert(t =~= s.drop_last());
        lemma_seq_to_map_dom(s.drop_last(), s[i].0@);
        assert(seq_to_map(s.drop_last()) =~= seq_to_map(s.drop_last()).insert(
            s.last().0@,
            s.last().1,
        ).remove(s[i].0@));
    } else {
        assert(t.drop_last() =~= s.drop_last().remove(i));
        assert(t.last() == s.last());
        assert(keys_unique(s.drop_last()));
        assert(s.drop_last()[i] == s[i]);
        lemma_seq_to_map_remove(s.drop_last(), i);
        assert(s.last().0@ != s[i].0@);
        assert(seq_to_map(s).remove(s[i].0@) =~= seq_to_map(s.drop_last()).remove(
            s[i].0@,
        ).insert(s.last().0@, s.last().1));
    }
}

impl<K: MapKey, V> AssocMap<K, V> {
    /// The unique-keys representation invariant.
    pub open spec fn wf(&self) -> bool {
        keys_unique(self.entries@)
    }

    /// The number of keys in the map.
    pub open spec fn spec_len(&self) -> nat {
        self.entries@.len()
    }

    pub fn new() -> (m: Self)
        ensures
            m.wf(),
            m@ == Map::<<K as View>::V, V>::empty(),
            m.spec_len() == 0,
    {
        AssocMap { entries: Vec::new() }
    }

    /// The number of entries, which under `wf` is the cardinality of the domain.
    pub fn len(&self) -> (n: usize)
        ensures
            n == self.spec_len(),
    {
        self.entries.len()
    }

    fn find(&self, k: &K) -> (r: Option<usize>)
        ensures
            match r {
                Some(i) => i < self.entries@.len() && self.entries@[i as int].0@ == k@,
                None => forall|i: int| 0 <= i < self.entries@.len()
                    ==> self.entries@[i].0@ != k@,
            },
    {
        let n = self.entries.len();
        let mut i: usize = 0;
        while i < n
            invariant
                n == self.entries@.len(),
                i <= n,
                forall|j: int| 0 <= j < i ==> self.entries@[j].0@ != k@,
            decreases n - i,
        {
            if self.entries[i].0.key_eq(k) {
                return Some(i);
            }
            i = i + 1;
        }
        None
    }

    pub fn contains_key(&self, k: &K) -> (r: bool)
        requires
            self.wf(),
        ensures
            r == self@.contains_key(k@),
    {
        let r = self.find(k);
        proof {
            lemma_seq_to_map_dom(self.entries@, k@);
        }
        r.is_some()
    }

    pub fn get(&self, k: &K) -> (r: Option<&V>)
        requires
            self.wf(),
        ensures
            match r {
                Some(v) => self@.contains_key(k@) && *v == self@[k@],
                None => !self@.contains_key(k@),
            },
    {
        proof {
            lemma_seq_to_map_dom(self.entries@, k@);
        }
        match self.find(k) {
            Some(i) => {
                proof {
                    lemma_seq_to_map_get(self.entries@, i as int);
                }
                Some(&self.entries[i].1)
            },
            None => None,
        }
    }

    /// Inserts or replaces; the entry count grows only for a fresh key.
    pub fn insert(&mut self, k: K, v: V)
        requires
            old(self).wf(),
        ensures
            final(self).wf(),
            final(self)@ == old(self)@.insert(k@, v),
            old(self)@.contains_key(k@) ==> final(self).spec_len() == old(self).spec_len(),
            !old(self)@.contains_key(k@) ==> final(self).spec_len() == old(self).spec_len()
                + 1,
    {
        proof {
            lemma_seq_to_map_dom(self.entries@, k@);
        }
        match self.find(&k) {
            Some(i) => {
                proof {
                    lemma_seq_to_map_update(self.entries@, i as int, k, v);
                }
                self.entries[i] = (k, v);
            },
            None => {
                proof {
                    lemma_seq_to_map_push(self.entries@, k, v);
                }
                self.entries.push((k, v));
            },
        }
    }

    pub fn remove(&mut self, k: &K) -> (r: Option<V>)
        requires
            old(self).wf(),
        ensures
            final(self).wf(),
            final(self)@ == old(self)@.remove(k@),
            old(self)@.contains_key(k@) ==> final(self).spec_len() == old(self).spec_len() - 1,
            !old(self)@.contains_key(k@) ==> final(self).spec_len() == old(self).spec_len(),
            match r {
                Some(v) => old(self)@.contains_key(k@) && v == old(self)@[k@],
                None => !old(self)@.contains_key(k@),
            },
    {
        proof {
            lemma_seq_to_map_dom(self.entries@, k@);
        }
        match self.find(k) {
            Some(i) => {
                proof {
                    lemma_seq_to_map_get(self.entries@, i as int);
                    lemma_seq_to_map_remove(self.entries@, i as int);
                }
                let (_, v) = self.entries.remove(i);
                Some(v)
            },
            None => {
                proof {
                    assert(self@ =~= self@.remove(k@));
                }
                None
            },
        }
    }

    pub fn clear(&mut self)
        ensures
            final(self).wf(),
            final(self)@ == Map::<<K as View>::V, V>::empty(),
            final(self).spec_len() == 0,
    {
        self.entries.clear();
    }

    /// Under `wf`, a map with a single entry has exactly that key in its domain.
    pub proof fn lemma_len_dom(&self)
        requires
            self.wf(),
        ensures
            self.spec_len() == 0 ==> self@.dom() =~= Set::<<K as View>::V>::empty(),
            forall|k: <K as View>::V| self@.contains_key(k)
                ==> exists|i: int| 0 <= i < self.entries@.len() && self.entries@[i].0@ == k,
            forall|i: int| 0 <= i < self.entries@.len()
                ==> self@.contains_key(#[trigger] self.entries@[i].0@),
    {
        assert forall|k: <K as View>::V| self@.contains_key(k) implies exists|i: int|
            0 <= i < self.entries@.len() && self.entries@[i].0@ == k by {
            lemma_seq_to_map_dom(self.entries@, k);
        }
        assert forall|i: int| 0 <= i < self.entries@.len() implies self@.contains_key(
            #[trigger] self.entries@[i].0@,
        ) by {
            lemma_seq_to_map_dom(self.entries@, self.entries@[i].0@);
        }
    }
}

} // verus!
