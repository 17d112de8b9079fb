//! A small keyed table: the accounts of one kind, each under its own key.

use vstd::prelude::*;
use crate::account::HoldingId;
use crate::identity::Identity;

verus! {

/// A key that compiled code can compare, with `==` as its meaning.
pub trait Key: Copy {
    /// Whether two keys are the same key.
    fn key_eq(&self, other: &Self) -> (r: bool)
        ensures
            r == (*self == *other),
    ;
}

impl Key for Identity {
    fn key_eq(&self, other: &Self) -> (r: bool) {
        self.same(other)
    }
}

impl Key for HoldingId {
    fn key_eq(&self, other: &Self) -> (r: bool) {
        self.owner.same(&other.owner) && self.mint.same(&other.mint)
    }
}

/// No key occurs twice among the entries.
pub open spec fn distinct_keys<K, V>(s: Seq<(K, V)>) -> bool {
    forall|i: int, j: int| 0 <= i < j < s.len() ==> s[i].0 != s[j].0
}

/// The map that a list of entries stands for; of two entries with one key the
/// later one counts.
pub open spec fn to_map<K, V>(s: Seq<(K, V)>) -> Map<K, V>
    decreases s.len(),
{
    if s.len() == 0 {
        Map::empty()
    } else {
        to_map(s.drop_last()).insert(s.last().0, s.last().1)
    }
}

/// The keys of the map are the keys of the entries, and with distinct keys each
/// entry's value is the one the map holds.
pub proof fn lemma_to_map<K, V>(s: Seq<(K, V)>)
    ensures
        forall|k: K| #[trigger]
            to_map(s).contains_key(k) <==> exists|i: int| 0 <= i < s.len() && (#[trigger] s[i]).0 == k,
        distinct_keys(s) ==> forall|i: int|
            0 <= i < s.len() ==> to_map(s)[(#[trigger] s[i]).0] == s[i].1,
    decreases s.len(),
{
    if s.len() > 0 {
        let t = s.drop_last();
        lemma_to_map(t);
        let last = s.len() - 1;
        assert(to_map(s) == to_map(t).insert(s[last].0, s[last].1));
        assert forall|k: K| #[trigger]
            to_map(s).contains_key(k) <==> exists|i: int|
                0 <= i < s.len() && (#[trigger] s[i]).0 == k by {
            if to_map(s).contains_key(k) {
                if k == s[last].0 {
                    assert(0 <= last < s.len() && s[last].0 == k);
                } else {
                    assert(to_map(t).contains_key(k));
                    let i = choose|i: int| 0 <= i < t.len() && (#[trigger] t[i]).0 == k;
                    assert(t[i] == s[i]);
                    assert(0 <= i < s.len() && s[i].0 == k);
                }
            }
            if exists|i: int| 0 <= i < s.len() && (#[trigger] s[i]).0 == k {
                let i = choose|i: int| 0 <= i < s.len() && (#[trigger] s[i]).0 == k;
                if i < t.len() {
                    assert(t[i] == s[i]);
                    assert(0 <= i < t.len() && t[i].0 == k);
                    assert(to_map(t).contains_key(k));
                }
                assert(to_map(s).contains_key(k));
            }
        }
        if distinct_keys(s) {
            assert(distinct_keys(t)) by {
                assert forall|i: int, j: int| 0 <= i < j < t.len() implies t[i].0 != t[j].0 by {
                    assert(s[i].0 != s[j].0);
                }
            }
            assert forall|i: int| 0 <= i < s.len() implies to_map(s)[(#[trigger] s[i]).0]
                == s[i].1 by {
                if i < t.len() {
                    assert(t[i] == s[i]);
                    assert(s[i].0 != s[s.len() - 1].0);
                }
            }
        }
    }
}

/// Replacing the value of one entry replaces it in the map.
pub proof fn lemma_to_map_update<K, V>(s: Seq<(K, V)>, i: int, v: V)
    requires
        distinct_keys(s),
        0 <= i < s.len(),
    ensures
        distinct_keys(s.update(i, (s[i].0, v))),
        to_map(s.update(i, (s[i].0, v))) == to_map(s).insert(s[i].0, v),
{
    let t = s.update(i, (s[i].0, v));
    assert(distinct_keys(t)) by {
        assert forall|a: int, b: int| 0 <= a < b < t.len() implies t[a].0 != t[b].0 by {
            assert(s[a].0 != s[b].0);
        }
    }
    lemma_to_map(s);
    lemma_to_map(t);
    let m = to_map(s).insert(s[i].0, v);
    assert forall|k: K| to_map(t).contains_key(k) <==> m.contains_key(k) by {
        if to_map(t).contains_key(k) {
            let j = choose|j: int| 0 <= j < t.len() && (#[trigger] t[j]).0 == k;
            assert(s[j].0 == k);
        }
        if m.contains_key(k) {
            if k == s[i].0 {
                assert(t[i].0 == k);
            } else {
                let j = choose|j: int| 0 <= j < s.len() && (#[trigger] s[j]).0 == k;
                assert(t[j].0 == k);
            }
        }
    }
    assert forall|k: K| to_map(t).contains_key(k) implies to_map(t)[k] == m[k] by {
        let j = choose|j: int| 0 <= j < t.len() && (#[trigger] t[j]).0 == k;
        assert(to_map(t)[t[j].0] == t[j].1);
        if j != i {
            assert(s[j].0 != s[i].0);
            assert(to_map(s)[s[j].0] == s[j].1);
        }
    }
    assert(to_map(t) =~= m);
}

/// Dropping one entry drops its key from the map.
pub proof fn lemma_to_map_remove<K, V>(s: Seq<(K, V)>, i: int)
    requires
        distinct_keys(s),
        0 <= i < s.len(),
    ensures
        distinct_keys(s.remove(i)),
        to_map(s.remove(i)) == to_map(s).remove(s[i].0),
{
    let t = s.remove(i);
    assert(distinct_keys(t)) by {
        assert forall|a: int, b: int| 0 <= a < b < t.len() implies t[a].0 != t[b].0 by {
            let a2 = if a < i { a } else { a + 1 };
            let b2 = if b < i { b } else { b + 1 };
            assert(s[a2].0 != s[b2].0);
        }
    }
    lemma_to_map(s);
    lemma_to_map(t);
    let m = to_map(s).remove(s[i].0);
    assert forall|k: K| to_map(t).contains_key(k) <==> m.contains_key(k) by {
        if to_map(t).contains_key(k) {
            let j = choose|j: int| 0 <= j < t.len() && (#[trigger] t[j]).0 == k;
            let j2 = if j < i { j } else { j + 1 };
            assert(s[j2].0 == k);
            assert(s[j2].0 != s[i].0);
        }
        if m.contains_key(k) {
            let j = choose|j: int| 0 <= j < s.len() && (#[trigger] s[j]).0 == k;
            let j2 = if j < i { j } else { j - 1 };
            assert(t[j2].0 == k);
        }
    }
    assert forall|k: K| to_map(t).contains_key(k) implies to_map(t)[k] == m[k] by {
        let j = choose|j: int| 0 <= j < t.len() && (#[trigger] t[j]).0 == k;
        let j2 = if j < i { j } else { j + 1 };
        assert(to_map(t)[t[j].0] == t[j].1);
        assert(to_map(s)[s[j2].0] == s[j2].1);
    }
    assert(to_map(t) =~= m);
}

/// Accounts of one kind, at most one under each key.
pub struct Table<K, V> {
    entries: Vec<(K, V)>,
}

impl<K, V> View for Table<K, V> {
    type V = Map<K, V>;

    closed spec fn view(&self) -> Map<K, V> {
        to_map(self.entries@)
    }
}

impl<K, V> Table<K, V> {
    /// No key is held twice.
    #[verifier::type_invariant]
    spec fn distinct(&self) -> bool {
        distinct_keys(self.entries@)
    }
}

impl<K: Key, V: Copy> Table<K, V> {
    /// The table with no entry.
    pub fn new() -> (t: Self)
        ensures
            t@ == Map::<K, V>::empty(),
    {
        Table { entries: Vec::new() }
    }

    /// Where `key` stands among the entries, if it does.
    fn index_of(&self, key: &K) -> (r: Option<usize>)
        ensures
            match r {
                Some(i) => i < self.entries@.len() && self.entries@[i as int].0 == *key,
                None => forall|i: int| 0 <= i < self.entries@.len() ==> self.entries@[i].0 != *key,
            },
    {
        let mut i: usize = 0;
        while i < self.entries.len()
            invariant
                i <= self.entries@.len(),
                forall|j: int| 0 <= j < i ==> self.entries@[j].0 != *key,
            decreases self.entries@.len() - i,
        {
            if self.entries[i].0.key_eq(key) {
                return Some(i);
            }
            i += 1;
        }
        None
    }

    /// The value under `key`, if the table holds one.
    pub fn get(&self, key: &K) -> (r: Option<V>)
        ensures
            r == (if self@.contains_key(*key) {
                Some(self@[*key])
            } else {
                None
            }),
    {
        proof {
            use_type_invariant(self);
            lemma_to_map(self.entries@);
        }
        match self.index_of(key) {
            Some(i) => {
                assert(self.entries@[i as int].0 == *key);
                Some(self.entries[i].1)
            },
            None => None,
        }
    }

    /// Whether the table holds a value under `key`.
    pub fn contains(&self, key: &K) -> (r: bool)
        ensures
            r == self@.contains_key(*key),
    {
        self.get(key).is_some()
    }

    /// Puts `value` under `key`, in place of a value already there.
    pub fn put(&mut self, key: K, value: V)
        ensures
            final(self)@ == old(self)@.insert(key, value),
    {
        proof {
            use_type_invariant(&*self);
        }
        let found = self.index_of(&key);
        let mut entries: Vec<(K, V)> = Vec::new();
        core::mem::swap(&mut self.entries, &mut entries);
        match found {
            Some(i) => {
                proof {
                    lemma_to_map_update(entries@, i as int, value);
                }
                entries.set(i, (key, value));
            },
            None => {
                let ghost before = entries@;
                entries.push((key, value));
                assert(entries@.drop_last() =~= before);
            },
        }
        core::mem::swap(&mut self.entries, &mut entries);
    }

    /// Removes `key` and its value, if the table holds it.
    pub fn remove(&mut self, key: &K)
        ensures
            final(self)@ == old(self)@.remove(*key),
    {
        proof {
            use_type_invariant(&*self);
        }
        match self.index_of(key) {
            Some(i) => {
                let mut entries: Vec<(K, V)> = Vec::new();
                core::mem::swap(&mut self.entries, &mut entries);
                proof {
                    lemma_to_map_remove(entries@, i as int);
                }
                entries.remove(i);
                core::mem::swap(&mut self.entries, &mut entries);
            },
            None => {
                proof {
                    lemma_to_map(self.entries@);
                    assert(self@.remove(*key) =~= self@);
                }
            },
        }
    }

    /// A second table with the same entries.
    pub fn duplicate(&self) -> (t: Self)
        ensures
            t@ == self@,
    {
        proof {
            use_type_invariant(self);
        }
        let mut entries: Vec<(K, V)> = Vec::new();
        let mut i: usize = 0;
        while i < self.entries.len()
            invariant
                i <= self.entries@.len(),
                entries@ == self.entries@.subrange(0, i as int),
            decreases self.entries@.len() - i,
        {
            entries.push(self.entries[i]);
            assert(entries@ =~= self.entries@.subrange(0, i as int + 1));
            i += 1;
        }
        assert(entries@ =~= self.entries@);
        Table { entries }
    }
}

} // verus!
