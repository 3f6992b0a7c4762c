//! A verified association map keyed by strings.
//!
//! Entries are held in insertion order, which gives the crate a stable
//! iteration order wherever a hash is computed over a map's values. The
//! view is the abstract `Map` from key characters to values.

use vstd::prelude::*;

use crate::strutil::str_eq;

verus! {

/// The abstract map described by an entry sequence: later entries win.
pub open spec fn sp_map_of<V>(s: Seq<(String, V)>) -> Map<Seq<char>, V>
    decreases s.len(),
{
    if s.len() == 0 {
        Map::empty()
    } else {
        sp_map_of(s.drop_last()).insert(s.last().0@, s.last().1)
    }
}

/// No two entries share a key.
pub open spec fn sp_distinct_keys<V>(s: Seq<(String, V)>) -> bool {
    forall|p: int, q: int| 0 <= p < q < s.len() ==> s[p].0@ != s[q].0@
}

/// A key occurs in the map exactly when an entry holds it.
pub proof fn lemma_map_contains<V>(s: Seq<(String, V)>, k: Seq<char>)
    ensures
        sp_map_of(s).contains_key(k) <==> (exists|i: int| 0 <= i < s.len() && s[i].0@ == k),
    decreases s.len(),
{
    if s.len() > 0 {
        lemma_map_contains(s.drop_last(), k);
        if s.last().0@ == k {
            assert(s[s.len() - 1].0@ == k);
        } else {
            if exists|i: int| 0 <= i < s.drop_last().len() && s.drop_last()[i].0@ == k {
                let i = choose|i: int|
                    0 <= i < s.drop_last().len() && s.drop_last()[i].0@ == k;
                assert(s[i].0@ == k);
            }
            if exists|i: int| 0 <= i < s.len() && s[i].0@ == k {
                let i = choose|i: int| 0 <= i < s.len() && s[i].0@ == k;
                assert(s.drop_last()[i].0@ == k);
            }
        }
    }
}

/// With distinct keys, the entry at `i` is what the map holds for its key.
pub proof fn lemma_map_index<V>(s: Seq<(String, V)>, i: int)
    requires
        sp_distinct_keys(s),
        0 <= i < s.len(),
    ensures
        sp_map_of(s).contains_key(s[i].0@),
        sp_map_of(s)[s[i].0@] == s[i].1,
    decreases s.len(),
{
    if i == s.len() - 1 {
    } else {
        assert(sp_distinct_keys(s.drop_last()));
        lemma_map_index(s.drop_last(), i);
        assert(s[i].0@ != s.last().0@);
    }
}

/// Replacing the value at `i` is insertion for that key.
pub proof fn lemma_map_update<V>(s: Seq<(String, V)>, i: int, v: V)
    requires
        sp_distinct_keys(s),
        0 <= i < s.len(),
    ensures
        sp_distinct_keys(s.update(i, (s[i].0, v))),
        sp_map_of(s.update(i, (s[i].0, v))) == sp_map_of(s).insert(s[i].0@, v),
    decreases s.len(),
{
    let t = s.update(i, (s[i].0, v));
    assert(sp_distinct_keys(t)) by {
        assert(forall|p: int| 0 <= p < t.len() ==> t[p].0@ == s[p].0@);
    }
    if i == s.len() - 1 {
        assert(t.drop_last() =~= s.drop_last());
        assert(sp_map_of(t) =~= sp_map_of(s).insert(s[i].0@, v));
    } else {
        assert(sp_distinct_keys(s.drop_last()));
        lemma_map_update(s.drop_last(), i, v);
        assert(t.drop_last() =~= s.drop_last().update(i, (s[i].0, v)));
        assert(t.last() == s.last());
        assert(s[i].0@ != s.last().0@);
        assert(sp_map_of(t) =~= sp_map_of(s).insert(s[i].0@, v));
    }
}

/// Removing the entry at `i` removes its key from the map.
pub proof fn lemma_map_remove<V>(s: Seq<(String, V)>, i: int)
    requires
        sp_distinct_keys(s),
        0 <= i < s.len(),
    ensures
        sp_distinct_keys(s.remove(i)),
        sp_map_of(s.remove(i)) == sp_map_of(s).remove(s[i].0@),
    decreases s.len(),
{
    let t = s.remove(i);
    assert(sp_distinct_keys(t)) by {
        assert(forall|p: int| 0 <= p < i ==> t[p] == s[p]);
        assert(forall|p: int| i <= p < t.len() ==> t[p] == s[p + 1]);
    }
    lemma_map_contains(s.drop_last(), s[i].0@);
    if i == s.len() - 1 {
        assert(t =~= s.drop_last());
        assert(!sp_map_of(s.drop_last()).contains_key(s[i].0@));
        assert(sp_map_of(t) =~= sp_map_of(s).remove(s[i].0@));
    } else {
        assert(sp_distinct_keys(s.drop_last()));
        lemma_map_remove(s.drop_last(), i);
        assert(t.drop_last() =~= s.drop_last().remove(i));
        assert(t.last() == s.last());
        assert(s[i].0@ != s.last().0@);
        assert(sp_map_of(t) =~= sp_map_of(s).remove(s[i].0@));
    }
}

/// An association map keyed by strings, in insertion order.
#[derive(Clone, Debug)]
pub struct StringMap<V> {
    pairs: Vec<(String, V)>,
}

impl<V> View for StringMap<V> {
    type V = Map<Seq<char>, V>;

    closed spec fn view(&self) -> Map<Seq<char>, V> {
        sp_map_of(self.pairs@)
    }
}

impl<V> StringMap<V> {
    /// The entries, in insertion order.
    pub closed spec fn entries(&self) -> Seq<(String, V)> {
        self.pairs@
    }

    /// The entry keys are pairwise distinct.
    pub open spec fn wf(&self) -> bool {
        sp_distinct_keys(self.entries())
    }

    /// The abstract map is the one the entries describe.
    pub proof fn view_is_entries(&self)
        ensures
            self@ == sp_map_of(self.entries()),
    {
    }

    /// An empty map.
    pub fn new() -> (r: Self)
        ensures
            r@ == Map::<Seq<char>, V>::empty(),
            r.entries() == Seq::<(String, V)>::empty(),
            r.wf(),
    {
        StringMap { pairs: Vec::new() }
    }

    /// How many entries are held.
    pub fn len(&self) -> (r: usize)
        ensures
            r == self.entries().len(),
    {
        self.pairs.len()
    }

    /// The entry at a position.
    pub fn pair_at(&self, i: usize) -> (r: &(String, V))
        requires
            i < self.entries().len(),
        ensures
            *r == self.entries()[i as int],
    {
        &self.pairs[i]
    }

    /// Looks a key up.
    pub fn get(&self, k: &str) -> (r: Option<&V>)
        requires
            self.wf(),
        ensures
            match r {
                Some(v) => self@.contains_key(k@) && *v == self@[k@],
                None => !self@.contains_key(k@),
            },
    {
        let n = self.pairs.len();
        let mut i: usize = 0;
        while i < n
            invariant
                n == self.entries().len(),
                i <= n,
                self.wf(),
                forall|j: int| 0 <= j < i ==> self.entries()[j].0@ != k@,
            decreases n - i,
        {
            if str_eq(self.pairs[i].0.as_str(), k) {
                proof {
                    lemma_map_index(self.entries(), i as int);
                }
                return Some(&self.pairs[i].1);
            }
            i = i + 1;
        }
        proof {
            lemma_map_contains(self.entries(), k@);
        }
        None
    }

    /// Whether a key is present.
    pub fn contains_key(&self, k: &str) -> (r: bool)
        requires
            self.wf(),
        ensures
            r == self@.contains_key(k@),
    {
        match self.get(k) {
            Some(_) => true,
            None => false,
        }
    }

    /// Inserts or overwrites; an existing entry keeps its position.
    pub fn upsert(&mut self, k: String, v: V)
        requires
            old(self).wf(),
        ensures
            final(self).wf(),
            final(self)@ == old(self)@.insert(k@, v),
            final(self)@.contains_key(k@),
            old(self)@.contains_key(k@) ==> {
                exists|i: int|
                    0 <= i < old(self).entries().len() && old(self).entries()[i].0@ == k@
                        && final(self).entries() == old(self).entries().update(
                        i,
                        (old(self).entries()[i].0, v),
                    )
            },
            !old(self)@.contains_key(k@) ==> final(self).entries() == old(self).entries().push(
                (k, v),
            ),
    {
        let n = self.pairs.len();
        let mut i: usize = 0;
        while i < n
            invariant
                n == self.entries().len(),
                i <= n,
                self.wf(),
                self.entries() == old(self).entries(),
                forall|j: int| 0 <= j < i ==> self.entries()[j].0@ != k@,
            decreases n - i,
        {
            if str_eq(self.pairs[i].0.as_str(), k.as_str()) {
                proof {
                    lemma_map_index(self.entries(), i as int);
                    lemma_map_update(self.entries(), i as int, v);
                }
                self.pairs[i].1 = v;
                assert(self.entries() =~= old(self).entries().update(
                    i as int,
                    (old(self).entries()[i as int].0, v),
                ));
                return ;
            }
            i = i + 1;
        }
        proof {
            lemma_map_contains(self.entries(), k@);
        }
        self.pairs.push((k, v));
        assert(self.entries().drop_last() =~= old(self).entries());
        assert(forall|p: int, q: int|
            0 <= p < q < self.entries().len() ==> self.entries()[p].0@ != self.entries()[q].0@);
    }

    /// Removes a key if it is present.
    pub fn remove(&mut self, k: &str)
        requires
            old(self).wf(),
        ensures
            final(self).wf(),
            final(self)@ == old(self)@.remove(k@),
            !final(self)@.contains_key(k@),
    {
        let n = self.pairs.len();
        let mut i: usize = 0;
        while i < n
            invariant
                n == self.entries().len(),
                i <= n,
                self.wf(),
                self.entries() == old(self).entries(),
                forall|j: int| 0 <= j < i ==> self.entries()[j].0@ != k@,
            decreases n - i,
        {
            if str_eq(self.pairs[i].0.as_str(), k) {
                proof {
                    lemma_map_remove(self.entries(), i as int);
                    lemma_map_contains(self.entries().remove(i as int), k@);
                }
                self.pairs.remove(i);
                return ;
            }
            i = i + 1;
        }
        proof {
            lemma_map_contains(self.entries(), k@);
            assert(old(self)@.remove(k@) =~= old(self)@);
        }
    }
}

} // verus!
