//! A map keyed by strings, kept as a list of entries with pairwise distinct
//! keys.
use crate::text::str_eq;
use vstd::prelude::*;
use vstd::set_lib::lemma_subset_equality;
use vstd::std_specs::cmp::{PartialEqSpec, PartialEqSpecImpl};

verus! {

/// The map that a list of entries stands for. Where a key occurs twice, the
/// later entry counts.
pub open spec fn pairs_map<V>(s: Seq<(String, V)>) -> Map<Seq<char>, V>
    decreases s.len(),
{
    if s.len() == 0 {
        Map::empty()
    } else {
        pairs_map(s.drop_last()).insert(s.last().0@, s.last().1)
    }
}

/// No key occurs at two places of the list.
pub open spec fn distinct_keys<V>(s: Seq<(String, V)>) -> bool {
    forall|i: int, j: int| 0 <= i < j < s.len() ==> (#[trigger] s[i]).0@ != (#[trigger] s[j]).0@
}

/// Some entry of the list has this key.
pub open spec fn has_key<V>(s: Seq<(String, V)>, key: Seq<char>) -> bool {
    exists|i: int| 0 <= i < s.len() && (#[trigger] s[i]).0@ == key
}

/// The keys of the map are the keys of the list, and there are finitely many.
pub proof fn lemma_pairs_map_dom<V>(s: Seq<(String, V)>, key: Seq<char>)
    ensures
        pairs_map(s).contains_key(key) <==> has_key(s, key),
        pairs_map(s).dom().finite(),
    decreases s.len(),
{
    if s.len() > 0 {
        let t = s.drop_last();
        lemma_pairs_map_dom(t, key);
        if has_key(s, key) {
            let i = choose|i: int| 0 <= i < s.len() && (#[trigger] s[i]).0@ == key;
            if i < s.len() - 1 {
                assert(t[i] == s[i]);
            }
        }
        if has_key(t, key) {
            let i = choose|i: int| 0 <= i < t.len() && (#[trigger] t[i]).0@ == key;
            assert(s[i] == t[i]);
        }
    }
}

/// With distinct keys, every entry of the list is an entry of the map.
pub proof fn lemma_pairs_map_at<V>(s: Seq<(String, V)>, i: int)
    requires
        distinct_keys(s),
        0 <= i < s.len(),
    ensures
        pairs_map(s).contains_key(s[i].0@),
        pairs_map(s)[s[i].0@] == s[i].1,
    decreases s.len(),
{
    if i < s.len() - 1 {
        let t = s.drop_last();
        assert forall|a: int, b: int| 0 <= a < b < t.len() implies (#[trigger] t[a]).0@ != (
        #[trigger] t[b]).0@ by {
            assert(t[a] == s[a] && t[b] == s[b]);
        }
        lemma_pairs_map_at(t, i);
        assert(t[i] == s[i]);
        assert(s[i].0@ != s[s.len() - 1].0@);
    }
}

/// With distinct keys, the map has as many entries as the list.
pub proof fn lemma_pairs_map_len<V>(s: Seq<(String, V)>)
    requires
        distinct_keys(s),
    ensures
        pairs_map(s).dom().finite(),
        pairs_map(s).len() == s.len(),
    decreases s.len(),
{
    if s.len() > 0 {
        let t = s.drop_last();
        let k = s.last().0@;
        assert forall|a: int, b: int| 0 <= a < b < t.len() implies (#[trigger] t[a]).0@ != (
        #[trigger] t[b]).0@ by {
            assert(t[a] == s[a] && t[b] == s[b]);
        }
        lemma_pairs_map_len(t);
        lemma_pairs_map_dom(t, k);
        if has_key(t, k) {
            let i = choose|i: int| 0 <= i < t.len() && (#[trigger] t[i]).0@ == k;
            assert(t[i] == s[i]);
            assert(s[i].0@ != s[s.len() - 1].0@);
        }
        assert(pairs_map(s).dom() =~= pairs_map(t).dom().insert(k));
    } else {
        assert(pairs_map(s).dom() =~= Set::<Seq<char>>::empty());
    }
}

/// A map from strings to values of `V`. Its view is the mathematical map;
/// the order in which entries were inserted has no part in it.
#[derive(Debug)]
pub struct StringMap<V> {
    entries: Vec<(String, V)>,
}

impl<V> View for StringMap<V> {
    type V = Map<Seq<char>, V>;

    closed spec fn view(&self) -> Map<Seq<char>, V> {
        pairs_map(self.entries@)
    }
}

impl<V> StringMap<V> {
    #[verifier::type_invariant]
    spec fn keys_are_distinct(self) -> bool {
        distinct_keys(self.entries@)
    }

    /// The empty map.
    pub fn new() -> (r: Self)
        ensures
            r@ == Map::<Seq<char>, V>::empty(),
    {
        StringMap { entries: Vec::new() }
    }

    /// The number of entries.
    pub fn len(&self) -> (n: usize)
        ensures
            self@.dom().finite(),
            n == self@.len(),
    {
        proof {
            use_type_invariant(self);
            lemma_pairs_map_len(self.entries@);
        }
        self.entries.len()
    }

    /// Whether the map has no entry.
    pub fn is_empty(&self) -> (b: bool)
        ensures
            b == (self@ == Map::<Seq<char>, V>::empty()),
    {
        proof {
            if self.entries@.len() > 0 {
                assert(self@.contains_key(self.entries@.last().0@));
            }
        }
        self.entries.len() == 0
    }

    /// The entries in the order in which they are kept; the map is what
    /// [`pairs_map`] makes of them.
    pub fn entries(&self) -> (r: &Vec<(String, V)>)
        ensures
            distinct_keys(r@),
            pairs_map(r@) == self@,
    {
        proof {
            use_type_invariant(self);
        }
        &self.entries
    }

    fn position(&self, key: &str) -> (r: Option<usize>)
        ensures
            match r {
                Some(i) => i < self.entries@.len() && self.entries@[i as int].0@ == key@,
                None => !has_key(self.entries@, key@),
            },
    {
        let mut i: usize = 0;
        while i < self.entries.len()
            invariant
                i <= self.entries@.len(),
                forall|j: int| 0 <= j < i ==> (#[trigger] self.entries@[j]).0@ != key@,
            decreases self.entries@.len() - i,
        {
            if str_eq(self.entries[i].0.as_str(), key) {
                return Some(i);
            }
            i = i + 1;
        }
        None
    }

    /// Whether the map has an entry under `key`.
    pub fn contains_key(&self, key: &str) -> (b: bool)
        ensures
            b == self@.contains_key(key@),
    {
        proof {
            lemma_pairs_map_dom(self.entries@, key@);
        }
        self.position(key).is_some()
    }

    /// The value kept under `key`, if there is one.
    pub fn get(&self, key: &str) -> (r: Option<&V>)
        ensures
            match r {
                Some(v) => self@.contains_key(key@) && *v == self@[key@],
                None => !self@.contains_key(key@),
            },
    {
        proof {
            use_type_invariant(self);
            lemma_pairs_map_dom(self.entries@, key@);
        }
        match self.position(key) {
            Some(i) => {
                proof {
                    lemma_pairs_map_at(self.entries@, i as int);
                }
                Some(&self.entries[i].1)
            },
            None => None,
        }
    }

    /// Puts `value` under `key` and returns what was there before.
    pub fn insert(&mut self, key: String, value: V) -> (prev: Option<V>)
        ensures
            final(self)@ == old(self)@.insert(key@, value),
            prev == if old(self)@.contains_key(key@) {
                Some(old(self)@[key@])
            } else {
                None
            },
    {
        proof {
            use_type_invariant(&*self);
            lemma_pairs_map_dom(self.entries@, key@);
        }
        let ghost before = self.entries@;
        match self.position(key.as_str()) {
            Some(i) => {
                proof {
                    lemma_pairs_map_at(before, i as int);
                }
                let mut entry = (key, value);
                let mut entries: Vec<(String, V)> = Vec::new();
                core::mem::swap(&mut self.entries, &mut entries);
                entries.set_and_swap(i, &mut entry);
                let ghost after = entries@;
                proof {
                    assert forall|a: int, b: int| 0 <= a < b < after.len() implies (
                    #[trigger] after[a]).0@ != (#[trigger] after[b]).0@ by {
                        assert(after[a].0@ == before[a].0@);
                        assert(after[b].0@ == before[b].0@);
                    }
                    assert forall|k: Seq<char>|
                        pairs_map(after).contains_key(k) <==> #[trigger] pairs_map(
                            before,
                        ).contains_key(k) by {
                        lemma_pairs_map_dom(after, k);
                        lemma_pairs_map_dom(before, k);
                        if has_key(after, k) {
                            let j = choose|j: int|
                                0 <= j < after.len() && (#[trigger] after[j]).0@ == k;
                            assert(before[j].0@ == k);
                        }
                        if has_key(before, k) {
                            let j = choose|j: int|
                                0 <= j < before.len() && (#[trigger] before[j]).0@ == k;
                            assert(after[j].0@ == k);
                        }
                    }
                    assert forall|k: Seq<char>| #[trigger]
                        pairs_map(after).contains_key(k) implies pairs_map(after)[k] == pairs_map(
                        before,
                    ).insert(key@, value)[k] by {
                        lemma_pairs_map_dom(after, k);
                        let j = choose|j: int|
                            0 <= j < after.len() && (#[trigger] after[j]).0@ == k;
                        lemma_pairs_map_at(after, j);
                        lemma_pairs_map_at(before, j);
                        if j != i {
                            assert(after[j] == before[j]);
                            assert(before[j].0@ != before[i as int].0@);
                        }
                    }
                    assert(pairs_map(after) =~= pairs_map(before).insert(key@, value));
                }
                core::mem::swap(&mut self.entries, &mut entries);
                Some(entry.1)
            },
            None => {
                let mut entries: Vec<(String, V)> = Vec::new();
                core::mem::swap(&mut self.entries, &mut entries);
                entries.push((key, value));
                proof {
                    let after = entries@;
                    assert(after.drop_last() =~= before);
                    assert forall|a: int, b: int| 0 <= a < b < after.len() implies (
                    #[trigger] after[a]).0@ != (#[trigger] after[b]).0@ by {
                        assert(after[a] == before[a]);
                        if b < before.len() {
                            assert(after[b] == before[b]);
                        }
                    }
                }
                core::mem::swap(&mut self.entries, &mut entries);
                None
            },
        }
    }

    /// Takes the entry under `key` out and returns its value.
    pub fn remove(&mut self, key: &str) -> (prev: Option<V>)
        ensures
            final(self)@ == old(self)@.remove(key@),
            prev == if old(self)@.contains_key(key@) {
                Some(old(self)@[key@])
            } else {
                None
            },
    {
        proof {
            use_type_invariant(&*self);
            lemma_pairs_map_dom(self.entries@, key@);
        }
        let ghost before = self.entries@;
        match self.position(key) {
            Some(i) => {
                proof {
                    lemma_pairs_map_at(before, i as int);
                }
                let mut entries: Vec<(String, V)> = Vec::new();
                core::mem::swap(&mut self.entries, &mut entries);
                let entry = entries.remove(i);
                let ghost after = entries@;
                proof {
                    assert forall|a: int| 0 <= a < after.len() implies #[trigger] after[a] == before[if a
                        < i {
                        a
                    } else {
                        a + 1
                    }] by {}
                    assert forall|a: int, b: int| 0 <= a < b < after.len() implies (
                    #[trigger] after[a]).0@ != (#[trigger] after[b]).0@ by {
                        let a0 = if a < i { a } else { a + 1 };
                        let b0 = if b < i { b } else { b + 1 };
                        assert(after[a] == before[a0] && after[b] == before[b0]);
                    }
                    assert forall|k: Seq<char>|
                        pairs_map(after).contains_key(k) <==> (#[trigger] pairs_map(
                            before,
                        ).contains_key(k)) && k != key@ by {
                        lemma_pairs_map_dom(after, k);
                        lemma_pairs_map_dom(before, k);
                        if has_key(after, k) {
                            let j = choose|j: int|
                                0 <= j < after.len() && (#[trigger] after[j]).0@ == k;
                            let j0 = if j < i { j } else { j + 1 };
                            assert(after[j] == before[j0]);
                            assert(before[j0].0@ != before[i as int].0@);
                        }
                        if has_key(before, k) && k != key@ {
                            let j = choose|j: int|
                                0 <= j < before.len() && (#[trigger] before[j]).0@ == k;
                            let j1 = if j < i { j } else { j - 1 };
                            assert(after[j1] == before[j]);
                        }
                    }
                    assert forall|k: Seq<char>| #[trigger]
                        pairs_map(after).contains_key(k) implies pairs_map(after)[k] == pairs_map(
                        before,
                    )[k] by {
                        lemma_pairs_map_dom(after, k);
                        let j = choose|j: int|
                            0 <= j < after.len() && (#[trigger] after[j]).0@ == k;
                        let j0 = if j < i { j } else { j + 1 };
                        assert(after[j] == before[j0]);
                        lemma_pairs_map_at(after, j);
                        lemma_pairs_map_at(before, j0);
                    }
                    assert(pairs_map(after) =~= pairs_map(before).remove(key@));
                }
                core::mem::swap(&mut self.entries, &mut entries);
                Some(entry.1)
            },
            None => {
                proof {
                    assert(pairs_map(before) =~= pairs_map(before).remove(key@));
                }
                None
            },
        }
    }
}

impl<V: PartialEq> PartialEq for StringMap<V> {
    /// Two maps are equal when they have the same keys and, under each key,
    /// equal values. The order of the entries has no part in it.
    fn eq(&self, other: &StringMap<V>) -> (r: bool) {
        proof {
            use_type_invariant(self);
            use_type_invariant(other);
            lemma_pairs_map_len(self.entries@);
            lemma_pairs_map_len(other.entries@);
        }
        if self.entries.len() != other.entries.len() {
            return false;
        }
        let mut i: usize = 0;
        while i < self.entries.len()
            invariant
                i <= self.entries@.len(),
                distinct_keys(self.entries@),
                forall|j: int|
                    0 <= j < i ==> other@.contains_key((#[trigger] self.entries@[j]).0@),
                forall|j: int|
                    0 <= j < i && V::obeys_eq_spec() ==> (#[trigger] self.entries@[j]).1.eq_spec(
                        &other@[self.entries@[j].0@],
                    ),
            decreases self.entries@.len() - i,
        {
            proof {
                lemma_pairs_map_at(self.entries@, i as int);
            }
            match other.get(self.entries[i].0.as_str()) {
                Some(value) => {
                    if !(self.entries[i].1 == *value) {
                        return false;
                    }
                },
                None => {
                    return false;
                },
            }
            i = i + 1;
        }
        proof {
            let a = self.entries@;
            assert forall|k: Seq<char>| self@.contains_key(k) implies other@.contains_key(k) by {
                lemma_pairs_map_dom(a, k);
                let j = choose|j: int| 0 <= j < a.len() && (#[trigger] a[j]).0@ == k;
                assert(other@.contains_key(a[j].0@));
            }
            assert(self@.dom().subset_of(other@.dom()));
            lemma_subset_equality(self@.dom(), other@.dom());
            assert forall|k: Seq<char>|
                self@.contains_key(k) && V::obeys_eq_spec() implies self@[k].eq_spec(
                &other@[k],
            ) by {
                lemma_pairs_map_dom(a, k);
                let j = choose|j: int| 0 <= j < a.len() && (#[trigger] a[j]).0@ == k;
                lemma_pairs_map_at(a, j);
                assert(a[j].1.eq_spec(&other@[a[j].0@]));
            }
        }
        true
    }
}

impl<V: PartialEq> PartialEqSpecImpl for StringMap<V> {
    open spec fn obeys_eq_spec() -> bool {
        V::obeys_eq_spec()
    }

    open spec fn eq_spec(&self, other: &StringMap<V>) -> bool {
        &&& self@.dom() == other@.dom()
        &&& forall|k: Seq<char>| self@.contains_key(k) ==> self@[k].eq_spec(&other@[k])
    }
}

impl<V: Eq> Eq for StringMap<V> {

}

impl<V: Clone> Clone for StringMap<V> {
    /// A map with the same keys, each value a clone of the one it stands for.
    fn clone(&self) -> (r: Self)
        ensures
            r@.dom() == self@.dom(),
            forall|k: Seq<char>| #[trigger]
                r@.contains_key(k) ==> cloned::<V>(self@[k], r@[k]),
    {
        proof {
            use_type_invariant(self);
        }
        let mut entries: Vec<(String, V)> = Vec::new();
        let mut i: usize = 0;
        while i < self.entries.len()
            invariant
                i <= self.entries@.len(),
                entries@.len() == i,
                distinct_keys(self.entries@),
                forall|j: int| 0 <= j < i ==> (#[trigger] entries@[j]).0@ == self.entries@[j].0@,
                forall|j: int|
                    0 <= j < i ==> cloned::<V>(self.entries@[j].1, (#[trigger] entries@[j]).1),
            decreases self.entries@.len() - i,
        {
            let key = self.entries[i].0.clone();
            let value = self.entries[i].1.clone();
            entries.push((key, value));
            i = i + 1;
        }
        proof {
            let a = self.entries@;
            let b = entries@;
            assert forall|x: int, y: int| 0 <= x < y < b.len() implies (#[trigger] b[x]).0@ != (
            #[trigger] b[y]).0@ by {
                assert(a[x].0@ != a[y].0@);
            }
            assert forall|k: Seq<char>| pairs_map(b).contains_key(k) <==> #[trigger] pairs_map(
                a,
            ).contains_key(k) by {
                lemma_pairs_map_dom(a, k);
                lemma_pairs_map_dom(b, k);
                if has_key(a, k) {
                    let j = choose|j: int| 0 <= j < a.len() && (#[trigger] a[j]).0@ == k;
                    assert(b[j].0@ == k);
                }
                if has_key(b, k) {
                    let j = choose|j: int| 0 <= j < b.len() && (#[trigger] b[j]).0@ == k;
                    assert(a[j].0@ == k);
                }
            }
            assert(pairs_map(b).dom() =~= pairs_map(a).dom());
            assert forall|k: Seq<char>| #[trigger] pairs_map(b).contains_key(k) implies cloned::<V>(
                pairs_map(a)[k],
                pairs_map(b)[k],
            ) by {
                lemma_pairs_map_dom(b, k);
                let j = choose|j: int| 0 <= j < b.len() && (#[trigger] b[j]).0@ == k;
                lemma_pairs_map_at(a, j);
                lemma_pairs_map_at(b, j);
            }
        }
        StringMap { entries }
    }
}

impl<V> Default for StringMap<V> {
    fn default() -> (r: Self)
        ensures
            r@ == Map::<Seq<char>, V>::empty(),
    {
        StringMap::new()
    }
}

} // verus!
