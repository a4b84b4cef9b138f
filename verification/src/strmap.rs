//! An insertion-ordered map from strings to strings.
//!
//! Headers and tunnel labels are keyed by name; a later insert under the same
//! name replaces the earlier value. Entries keep the order in which their keys
//! were first inserted, so that conversions to the wire format are
//! deterministic.

use vstd::prelude::*;

verus! {

/// The map denoted by a list of key/value pairs (later pairs win).
pub open spec fn map_of(s: Seq<(String, String)>) -> Map<Seq<char>, Seq<char>>
    decreases s.len(),
{
    if s.len() == 0 {
        Map::empty()
    } else {
        map_of(s.drop_last()).insert(s.last().0@, s.last().1@)
    }
}

/// No key occurs twice.
pub open spec fn keys_unique(s: Seq<(String, String)>) -> bool {
    forall|i: int, j: int| 0 <= i < j < s.len() ==> #[trigger] s[i].0@ != #[trigger] s[j].0@
}

/// The pairs of a list, each taken by its character sequences.
pub open spec fn pairs_view(s: Seq<(String, String)>) -> Seq<(Seq<char>, Seq<char>)> {
    s.map_values(|p: (String, String)| (p.0@, p.1@))
}

/// The position of the first entry with key `k`, or -1 when there is none.
pub open spec fn key_index(o: Seq<(Seq<char>, Seq<char>)>, k: Seq<char>) -> int
    decreases o.len(),
{
    if o.len() == 0 {
        -1
    } else if o[0].0 == k {
        0
    } else {
        let j = key_index(o.drop_first(), k);
        if j < 0 {
            -1
        } else {
            j + 1
        }
    }
}

/// Entries after inserting `v` under `k`: an existing key keeps its place
/// and takes the new value; a new key goes last.
pub open spec fn ordered_insert(o: Seq<(Seq<char>, Seq<char>)>, k: Seq<char>, v: Seq<char>) -> Seq<
    (Seq<char>, Seq<char>),
> {
    let i = key_index(o, k);
    if i >= 0 {
        o.update(i, (k, v))
    } else {
        o.push((k, v))
    }
}

proof fn lemma_key_index_at(o: Seq<(Seq<char>, Seq<char>)>, k: Seq<char>, i: int)
    requires
        0 <= i < o.len(),
        o[i].0 == k,
        forall|j: int| 0 <= j < i ==> #[trigger] o[j].0 != k,
    ensures
        key_index(o, k) == i,
    decreases i,
{
    if i > 0 {
        assert(o[0].0 != k);
        let t = o.drop_first();
        assert forall|j: int| 0 <= j < i - 1 implies #[trigger] t[j].0 != k by {
            assert(t[j] == o[j + 1]);
        }
        lemma_key_index_at(t, k, i - 1);
    }
}

proof fn lemma_key_index_absent(o: Seq<(Seq<char>, Seq<char>)>, k: Seq<char>)
    requires
        forall|j: int| 0 <= j < o.len() ==> #[trigger] o[j].0 != k,
    ensures
        key_index(o, k) == -1,
    decreases o.len(),
{
    if o.len() > 0 {
        assert(o[0].0 != k);
        let t = o.drop_first();
        assert forall|j: int| 0 <= j < t.len() implies #[trigger] t[j].0 != k by {
            assert(t[j] == o[j + 1]);
        }
        lemma_key_index_absent(t, k);
    }
}

proof fn lemma_map_of_dom(s: Seq<(String, String)>, k: Seq<char>)
    ensures
        map_of(s).dom().contains(k) <==> exists|i: int| 0 <= i < s.len() && #[trigger] s[i].0@ == k,
    decreases s.len(),
{
    if s.len() > 0 {
        lemma_map_of_dom(s.drop_last(), k);
        if map_of(s).dom().contains(k) && s.last().0@ != k {
            let i = choose|i: int| 0 <= i < s.drop_last().len() && #[trigger] s.drop_last()[i].0@ == k;
            assert(s[i].0@ == k);
        }
        if exists|i: int| 0 <= i < s.len() && #[trigger] s[i].0@ == k {
            let i = choose|i: int| 0 <= i < s.len() && #[trigger] s[i].0@ == k;
            if i < s.len() - 1 {
                assert(s.drop_last()[i].0@ == k);
            }
        }
    }
}

proof fn lemma_map_of_value(s: Seq<(String, String)>, i: int)
    requires
        keys_unique(s),
        0 <= i < s.len(),
    ensures
        map_of(s).dom().contains(s[i].0@),
        map_of(s)[s[i].0@] == s[i].1@,
    decreases s.len(),
{
    if i < s.len() - 1 {
        assert(s.drop_last()[i] == s[i]);
        assert(keys_unique(s.drop_last()));
        lemma_map_of_value(s.drop_last(), i);
        assert(s[i].0@ != s[s.len() - 1].0@);
    }
}

proof fn lemma_map_of_update(s: Seq<(String, String)>, i: int, v: String)
    requires
        keys_unique(s),
        0 <= i < s.len(),
    ensures
        keys_unique(s.update(i, (s[i].0, v))),
        map_of(s.update(i, (s[i].0, v))) == map_of(s).insert(s[i].0@, v@),
{
    let t = s.update(i, (s[i].0, v));
    assert(keys_unique(t)) by {
        assert forall|a: int, b: int| 0 <= a < b < t.len() implies #[trigger] t[a].0@ != #[trigger] t[b].0@ by {
            assert(t[a].0@ == s[a].0@);
            assert(t[b].0@ == s[b].0@);
        }
    }
    let m = map_of(s).insert(s[i].0@, v@);
    assert forall|k: Seq<char>| #[trigger] map_of(t).dom().contains(k) <==> m.dom().contains(k) by {
        lemma_map_of_dom(t, k);
        lemma_map_of_dom(s, k);
        if exists|j: int| 0 <= j < s.len() && #[trigger] s[j].0@ == k {
            let j = choose|j: int| 0 <= j < s.len() && #[trigger] s[j].0@ == k;
            assert(t[j].0@ == k);
        }
        if exists|j: int| 0 <= j < t.len() && #[trigger] t[j].0@ == k {
            let j = choose|j: int| 0 <= j < t.len() && #[trigger] t[j].0@ == k;
            assert(s[j].0@ == k);
        }
    }
    assert forall|k: Seq<char>| #[trigger] map_of(t).dom().contains(k) implies map_of(t)[k] == m[k] by {
        lemma_map_of_dom(t, k);
        let j = choose|j: int| 0 <= j < t.len() && #[trigger] t[j].0@ == k;
        lemma_map_of_value(t, j);
        if j != i {
            assert(t[j] == s[j]);
            lemma_map_of_value(s, j);
        }
    }
    assert(map_of(t) =~= m);
}

/// A map from names to values that remembers the order in which names were
/// first inserted.
#[derive(Debug)]
pub struct StringMap {
    entries: Vec<(String, String)>,
}

impl StringMap {
    /// The map's contents.
    pub closed spec fn view(&self) -> Map<Seq<char>, Seq<char>> {
        map_of(self.entries@)
    }

    /// The map's entries in insertion order, as character sequences.
    pub closed spec fn ordered(&self) -> Seq<(Seq<char>, Seq<char>)> {
        pairs_view(self.entries@)
    }

    /// Well-formedness: no key occurs twice.
    pub closed spec fn wf(&self) -> bool {
        keys_unique(self.entries@)
    }

    #[verifier::type_invariant]
    spec fn inv(&self) -> bool {
        keys_unique(self.entries@)
    }

    /// The ordered entries and the map agree.
    pub proof fn lemma_ordered(&self)
        requires
            self.wf(),
        ensures
            self.ordered().len() == self.view().dom().len(),
            forall|i: int|
                0 <= i < self.ordered().len() ==> self.view().dom().contains(
                    #[trigger] self.ordered()[i].0,
                ) && self.view()[self.ordered()[i].0] == self.ordered()[i].1,
            forall|k: Seq<char>|
                #[trigger] self.view().dom().contains(k) ==> exists|i: int|
                    0 <= i < self.ordered().len() && #[trigger] self.ordered()[i].0 == k,
            forall|i: int, j: int|
                0 <= i < j < self.ordered().len() ==> #[trigger] self.ordered()[i].0
                    != #[trigger] self.ordered()[j].0,
    {
        let s = self.entries@;
        assert forall|i: int| 0 <= i < self.ordered().len() implies self.view().dom().contains(
            #[trigger] self.ordered()[i].0,
        ) && self.view()[self.ordered()[i].0] == self.ordered()[i].1 by {
            lemma_map_of_value(s, i);
        }
        assert forall|k: Seq<char>| #[trigger] self.view().dom().contains(k) implies exists|i: int|
            0 <= i < self.ordered().len() && #[trigger] self.ordered()[i].0 == k by {
            lemma_map_of_dom(s, k);
            let i = choose|i: int| 0 <= i < s.len() && #[trigger] s[i].0@ == k;
            assert(self.ordered()[i].0 == k);
        }
        assert forall|i: int, j: int| 0 <= i < j < self.ordered().len() implies #[trigger] self.ordered()[i].0
            != #[trigger] self.ordered()[j].0 by {
            assert(s[i].0@ != s[j].0@);
        }
        lemma_map_of_finite_len(s);
    }

    /// An empty map.
    pub fn new() -> (m: Self)
        ensures
            m.wf(),
            m.view() == Map::<Seq<char>, Seq<char>>::empty(),
            m.ordered() == Seq::<(Seq<char>, Seq<char>)>::empty(),
    {
        let m = StringMap { entries: Vec::new() };
        assert(m.ordered() =~= Seq::<(Seq<char>, Seq<char>)>::empty());
        m
    }

    /// Number of entries.
    pub fn len(&self) -> (n: usize)
        ensures
            n == self.view().dom().len(),
            n == self.ordered().len(),
    {
        proof {
            use_type_invariant(self);
            lemma_map_of_finite_len(self.entries@);
        }
        self.entries.len()
    }

    /// Whether the map has no entries.
    pub fn is_empty(&self) -> (b: bool)
        ensures
            b <==> self.view().dom().len() == 0,
            b <==> self.view() == Map::<Seq<char>, Seq<char>>::empty(),
    {
        proof {
            use_type_invariant(self);
            lemma_map_of_finite_len(self.entries@);
            if self.entries@.len() > 0 {
                lemma_map_of_value(self.entries@, 0);
                assert(self.view().dom().contains(self.ordered()[0].0));
            } else {
                assert(self.view() =~= Map::<Seq<char>, Seq<char>>::empty());
            }
        }
        self.entries.len() == 0
    }

    /// Inserts `value` under `key`, replacing any earlier value for that key.
    /// A new key goes last; an existing key keeps its place.
    pub fn insert(&mut self, key: String, value: String)
        ensures
            final(self).view() == old(self).view().insert(key@, value@),
            old(self).view().dom().contains(key@) ==> final(self).ordered().len() == old(
                self,
            ).ordered().len(),
            !old(self).view().dom().contains(key@) ==> final(self).ordered() == old(
                self,
            ).ordered().push((key@, value@)),
            final(self).ordered() == ordered_insert(old(self).ordered(), key@, value@),
    {
        proof {
            use_type_invariant(&*self);
        }
        let mut e: Vec<(String, String)> = Vec::new();
        std::mem::swap(&mut e, &mut self.entries);
        let ghost s = e@;
        let mut i: usize = 0;
        let n = e.len();
        while i < n
            invariant
                n == e.len(),
                i <= n,
                e@ == s,
                s == old(self).entries@,
                keys_unique(s),
                forall|j: int| 0 <= j < i ==> #[trigger] s[j].0@ != key@,
            decreases n - i,
        {
            if e[i].0 == key {
                let k = e[i].0.clone();
                e.set(i, (k, value));
                proof {
                    assert(e@ =~= s.update(i as int, (s[i as int].0, e@[i as int].1)));
                    lemma_map_of_update(s, i as int, e@[i as int].1);
                    lemma_map_of_value(s, i as int);
                    let o = pairs_view(s);
                    assert forall|j: int| 0 <= j < i implies #[trigger] o[j].0 != key@ by {
                        assert(o[j].0 == s[j].0@);
                    }
                    lemma_key_index_at(o, key@, i as int);
                    assert(pairs_view(e@) =~= o.update(i as int, (key@, value@)));
                }
                self.entries = e;
                return;
            }
            i = i + 1;
        }
        proof {
            lemma_map_of_dom(s, key@);
            let o = pairs_view(s);
            assert forall|j: int| 0 <= j < o.len() implies #[trigger] o[j].0 != key@ by {
                assert(o[j].0 == s[j].0@);
            }
            lemma_key_index_absent(o, key@);
        }
        e.push((key, value));
        proof {
            let t = e@;
            assert(t.drop_last() =~= s);
            assert(map_of(t) == map_of(t.drop_last()).insert(t.last().0@, t.last().1@));
            assert(keys_unique(t)) by {
                assert forall|a: int, b: int| 0 <= a < b < t.len() implies #[trigger] t[a].0@ != #[trigger] t[b].0@ by {
                    if b == t.len() - 1 {
                        assert(t[a] == s[a]);
                        assert(s[a].0@ != key@);
                    } else {
                        assert(t[a] == s[a] && t[b] == s[b]);
                    }
                }
            }
            assert(pairs_view(t) =~= pairs_view(s).push((key@, value@)));
        }
        self.entries = e;
    }

    /// The value stored under `key`, if any.
    pub fn get(&self, key: &String) -> (r: Option<String>)
        ensures
            match r {
                Some(v) => self.view().dom().contains(key@) && self.view()[key@] == v@,
                None => !self.view().dom().contains(key@),
            },
    {
        proof {
            use_type_invariant(self);
        }
        let mut i: usize = 0;
        let n = self.entries.len();
        while i < n
            invariant
                n == self.entries.len(),
                i <= n,
                keys_unique(self.entries@),
                forall|j: int| 0 <= j < i ==> #[trigger] self.entries@[j].0@ != key@,
            decreases n - i,
        {
            if self.entries[i].0 == *key {
                proof {
                    lemma_map_of_value(self.entries@, i as int);
                }
                return Some(self.entries[i].1.clone());
            }
            i = i + 1;
        }
        proof {
            lemma_map_of_dom(self.entries@, key@);
        }
        None
    }

    /// A copy of this map, with the same entries in the same order.
    pub fn copy(&self) -> (r: Self)
        ensures
            r.view() == self.view(),
            r.ordered() == self.ordered(),
    {
        proof {
            use_type_invariant(self);
        }
        let mut e: Vec<(String, String)> = Vec::new();
        let mut i: usize = 0;
        while i < self.entries.len()
            invariant
                i <= self.entries.len(),
                e@.len() == i,
                forall|j: int| 0 <= j < i ==> #[trigger] e@[j] == self.entries@[j],
            decreases self.entries.len() - i,
        {
            let k = self.entries[i].0.clone();
            let v = self.entries[i].1.clone();
            e.push((k, v));
            i = i + 1;
        }
        assert(e@ =~= self.entries@);
        StringMap { entries: e }
    }

    /// The entries in insertion order.
    pub fn entries(&self) -> (r: Vec<(String, String)>)
        ensures
            pairs_view(r@) == self.ordered(),
    {
        let mut r: Vec<(String, String)> = Vec::new();
        let mut i: usize = 0;
        while i < self.entries.len()
            invariant
                i <= self.entries.len(),
                r@.len() == i,
                forall|j: int|
                    0 <= j < i ==> (#[trigger] r@[j]).0@ == self.entries@[j].0@ && r@[j].1@
                        == self.entries@[j].1@,
            decreases self.entries.len() - i,
        {
            let k = self.entries[i].0.clone();
            let v = self.entries[i].1.clone();
            r.push((k, v));
            i = i + 1;
        }
        assert(pairs_view(r@) =~= pairs_view(self.entries@));
        r
    }
}

impl Clone for StringMap {
    fn clone(&self) -> (r: Self)
        ensures
            r.view() == self.view(),
            r.ordered() == self.ordered(),
    {
        self.copy()
    }
}

proof fn lemma_map_of_finite_len(s: Seq<(String, String)>)
    requires
        keys_unique(s),
    ensures
        map_of(s).dom().finite(),
        map_of(s).dom().len() == s.len(),
    decreases s.len(),
{
    if s.len() > 0 {
        let t = s.drop_last();
        assert(keys_unique(t));
        lemma_map_of_finite_len(t);
        lemma_map_of_dom(t, s.last().0@);
        if map_of(t).dom().contains(s.last().0@) {
            let i = choose|i: int| 0 <= i < t.len() && #[trigger] t[i].0@ == s.last().0@;
            assert(s[i].0@ != s[s.len() - 1].0@);
        }
    }
}

} // verus!
