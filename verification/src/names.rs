//! `NameMap`: entries keyed by a name, each name at most once, in insertion order.
use vstd::prelude::*;

verus! {

/// Entries keyed by name; no name occurs twice.
///
/// Its view is the sequence of `(name, value)` pairs in the order in which the names were
/// first inserted.
#[derive(Debug)]
pub struct NameMap<V: View> {
    entries: Vec<(String, V)>,
}

/// The view of an optional value.
pub open spec fn opt_view<T: View>(o: Option<T>) -> Option<T::V> {
    match o {
        Some(t) => Some(t@),
        None => None,
    }
}

/// The first name, if any.
pub open spec fn first_name<V>(s: Seq<(Seq<char>, V)>) -> Option<Seq<char>> {
    if s.len() > 0 {
        Some(s[0].0)
    } else {
        None
    }
}

/// The names of the entries, in order.
pub open spec fn keys_of<V>(s: Seq<(Seq<char>, V)>) -> Seq<Seq<char>> {
    s.map_values(|e: (Seq<char>, V)| e.0)
}

/// No name occurs twice.
pub open spec fn distinct_keys<V>(s: Seq<(Seq<char>, V)>) -> bool {
    forall|i: int, j: int| 0 <= i < s.len() && 0 <= j < s.len() && i != j ==> s[i].0 != s[j].0
}

/// Some entry has the name `k`.
pub open spec fn has_key<V>(s: Seq<(Seq<char>, V)>, k: Seq<char>) -> bool {
    exists|i: int| 0 <= i < s.len() && #[trigger] s[i].0 == k
}

/// The position of the entry named `k` (meaningful when `has_key(s, k)`).
pub open spec fn index_of_key<V>(s: Seq<(Seq<char>, V)>, k: Seq<char>) -> int {
    choose|i: int| 0 <= i < s.len() && #[trigger] s[i].0 == k
}

/// The value stored under `k`, if any.
pub open spec fn lookup<V>(s: Seq<(Seq<char>, V)>, k: Seq<char>) -> Option<V> {
    if has_key(s, k) {
        Some(s[index_of_key(s, k)].1)
    } else {
        None
    }
}

/// `s` with `k` mapped to `v`: an existing entry named `k` keeps its place and gets the
/// new value; otherwise the entry is added at the end.
pub open spec fn assoc_insert<V>(s: Seq<(Seq<char>, V)>, k: Seq<char>, v: V) -> Seq<(Seq<char>, V)> {
    if has_key(s, k) {
        s.update(index_of_key(s, k), (k, v))
    } else {
        s.push((k, v))
    }
}

/// `s` without the entry named `k`; the others keep their order.
pub open spec fn assoc_remove<V>(s: Seq<(Seq<char>, V)>, k: Seq<char>) -> Seq<(Seq<char>, V)> {
    if has_key(s, k) {
        s.remove(index_of_key(s, k))
    } else {
        s
    }
}

/// With distinct names, the entry at `i` is the one that `index_of_key` finds.
pub proof fn lemma_index_of_key<V>(s: Seq<(Seq<char>, V)>, i: int)
    requires
        distinct_keys(s),
        0 <= i < s.len(),
    ensures
        has_key(s, s[i].0),
        index_of_key(s, s[i].0) == i,
        lookup(s, s[i].0) == Some(s[i].1),
{
    assert(has_key(s, s[i].0));
}

/// Inserting keeps the names distinct.
pub proof fn lemma_insert_distinct<V>(s: Seq<(Seq<char>, V)>, k: Seq<char>, v: V)
    requires
        distinct_keys(s),
    ensures
        distinct_keys(assoc_insert(s, k, v)),
        has_key(assoc_insert(s, k, v), k),
{
    let r = assoc_insert(s, k, v);
    if has_key(s, k) {
        let i = index_of_key(s, k);
        assert(r[i].0 == k);
    } else {
        assert(r[s.len() as int].0 == k);
    }
}

/// Removing keeps the names distinct and drops `k`.
pub proof fn lemma_remove_distinct<V>(s: Seq<(Seq<char>, V)>, k: Seq<char>)
    requires
        distinct_keys(s),
    ensures
        distinct_keys(assoc_remove(s, k)),
        !has_key(assoc_remove(s, k), k),
{
    let r = assoc_remove(s, k);
    if has_key(s, k) {
        let i = index_of_key(s, k);
        assert forall|a: int, b: int|
            0 <= a < r.len() && 0 <= b < r.len() && a != b implies r[a].0 != r[b].0 by {
            let sa = if a < i {
                a
            } else {
                a + 1
            };
            let sb = if b < i {
                b
            } else {
                b + 1
            };
            assert(r[a] == s[sa]);
            assert(r[b] == s[sb]);
        }
        assert forall|j: int| 0 <= j < r.len() implies r[j].0 != k by {
            let sj = if j < i {
                j
            } else {
                j + 1
            };
            assert(r[j] == s[sj]);
        }
    }
}

/// A lookup of the name just stored gives back the stored value.
pub proof fn law_lookup_after_insert<V>(s: Seq<(Seq<char>, V)>, k: Seq<char>, v: V)
    requires
        distinct_keys(s),
    ensures
        lookup(assoc_insert(s, k, v), k) == Some(v),
{
    lemma_insert_distinct(s, k, v);
    let r = assoc_insert(s, k, v);
    if has_key(s, k) {
        lemma_index_of_key(r, index_of_key(s, k));
    } else {
        lemma_index_of_key(r, s.len() as int);
    }
}

/// Storing under one name leaves the lookup of every other name unchanged.
pub proof fn law_lookup_other_after_insert<V>(s: Seq<(Seq<char>, V)>, k: Seq<char>, other: Seq<char>, v: V)
    requires
        distinct_keys(s),
        other != k,
    ensures
        lookup(assoc_insert(s, k, v), other) == lookup(s, other),
{
    lemma_insert_distinct(s, k, v);
    let r = assoc_insert(s, k, v);
    if has_key(s, other) {
        let j = index_of_key(s, other);
        assert(r[j] == s[j]);
        lemma_index_of_key(r, j);
    } else {
        assert forall|i: int| 0 <= i < r.len() implies #[trigger] r[i].0 != other by {
            if i < s.len() {
                if has_key(s, k) && i == index_of_key(s, k) {
                } else {
                    assert(r[i] == s[i]);
                }
            }
        }
    }
}

/// After a removal the name is no longer found.
pub proof fn law_lookup_after_remove<V>(s: Seq<(Seq<char>, V)>, k: Seq<char>)
    requires
        distinct_keys(s),
    ensures
        lookup(assoc_remove(s, k), k) is None,
{
    lemma_remove_distinct(s, k);
}

/// Removing one name leaves the lookup of every other name unchanged.
pub proof fn law_lookup_other_after_remove<V>(s: Seq<(Seq<char>, V)>, k: Seq<char>, other: Seq<char>)
    requires
        distinct_keys(s),
        other != k,
    ensures
        lookup(assoc_remove(s, k), other) == lookup(s, other),
{
    lemma_remove_distinct(s, k);
    let r = assoc_remove(s, k);
    if has_key(s, k) {
        let i = index_of_key(s, k);
        if has_key(s, other) {
            let j = index_of_key(s, other);
            let rj = if j < i {
                j
            } else {
                j - 1
            };
            assert(r[rj] == s[j]);
            lemma_index_of_key(r, rj);
        } else {
            assert forall|a: int| 0 <= a < r.len() implies #[trigger] r[a].0 != other by {
                let sa = if a < i {
                    a
                } else {
                    a + 1
                };
                assert(r[a] == s[sa]);
            }
        }
    }
}

/// Removing a name that was just added, where it was not present before, restores the entries.
pub proof fn law_remove_undoes_insert<V>(s: Seq<(Seq<char>, V)>, k: Seq<char>, v: V)
    requires
        distinct_keys(s),
        !has_key(s, k),
    ensures
        assoc_remove(assoc_insert(s, k, v), k) == s,
{
    let r = assoc_insert(s, k, v);
    lemma_insert_distinct(s, k, v);
    lemma_index_of_key(r, s.len() as int);
    assert(r.remove(s.len() as int) =~= s);
}

/// Storing under a name keeps the names in order, adding a new name at the end.
pub proof fn law_keys_after_insert<V>(s: Seq<(Seq<char>, V)>, k: Seq<char>, v: V)
    requires
        distinct_keys(s),
    ensures
        keys_of(assoc_insert(s, k, v)) == (if has_key(s, k) {
            keys_of(s)
        } else {
            keys_of(s).push(k)
        }),
{
    let r = assoc_insert(s, k, v);
    if has_key(s, k) {
        let i = index_of_key(s, k);
        assert(keys_of(r) =~= keys_of(s));
    } else {
        assert(keys_of(r) =~= keys_of(s).push(k));
    }
}

impl<V: View> View for NameMap<V> {
    type V = Seq<(Seq<char>, V::V)>;

    closed spec fn view(&self) -> Seq<(Seq<char>, V::V)> {
        self.entries@.map_values(|e: (String, V)| (e.0@, e.1@))
    }
}

impl<V: View> NameMap<V> {
    /// The names are distinct: every `NameMap` keeps this.
    #[verifier::type_invariant]
    pub open spec fn inv(&self) -> bool {
        distinct_keys(self@)
    }

    /// An empty map.
    pub fn new() -> (m: Self)
        ensures
            m@ == Seq::<(Seq<char>, V::V)>::empty(),
    {
        let m = NameMap { entries: Vec::new() };
        assert(m@ =~= Seq::<(Seq<char>, V::V)>::empty());
        m
    }

    /// The number of entries.
    pub fn len(&self) -> (n: usize)
        ensures
            n == self@.len(),
    {
        self.entries.len()
    }

    /// Whether the map has no entry.
    pub fn is_empty(&self) -> (b: bool)
        ensures
            b == (self@.len() == 0),
    {
        self.entries.len() == 0
    }

    /// The position of the entry named `key`.
    fn find_index(&self, key: &str) -> (r: Option<usize>)
        ensures
            match r {
                Some(i) => i < self@.len() && self@[i as int].0 == key@ && index_of_key(self@, key@)
                    == i && has_key(self@, key@),
                None => !has_key(self@, key@),
            },
    {
        proof {
            use_type_invariant(self);
        }
        let k = key.to_owned();
        let mut i: usize = 0;
        while i < self.entries.len()
            invariant
                i <= self.entries.len(),
                k@ == key@,
                distinct_keys(self@),
                forall|j: int| 0 <= j < i ==> self@[j].0 != key@,
            decreases self.entries.len() - i,
        {
            if self.entries[i].0 == k {
                proof {
                    lemma_index_of_key(self@, i as int);
                }
                return Some(i);
            }
            i = i + 1;
        }
        None
    }

    /// Whether some entry is named `key`.
    pub fn contains_key(&self, key: &str) -> (b: bool)
        ensures
            b == has_key(self@, key@),
    {
        self.find_index(key).is_some()
    }

    /// The value stored under `key`.
    pub fn get(&self, key: &str) -> (r: Option<&V>)
        ensures
            match r {
                Some(v) => lookup(self@, key@) == Some(v@),
                None => lookup(self@, key@) is None,
            },
    {
        match self.find_index(key) {
            Some(i) => Some(&self.entries[i].1),
            None => None,
        }
    }

    /// Maps `key` to `value`.
    pub fn insert(&mut self, key: String, value: V)
        ensures
            final(self)@ == assoc_insert(old(self)@, key@, value@),
    {
        proof {
            use_type_invariant(&*self);
            lemma_insert_distinct(self@, key@, value@);
        }
        let idx = self.find_index(key.as_str());
        let mut entries: Vec<(String, V)> = Vec::new();
        std::mem::swap(&mut entries, &mut self.entries);
        let ghost before = entries@.map_values(|e: (String, V)| (e.0@, e.1@));
        let ghost k = key@;
        let ghost vv = value@;
        match idx {
            Some(i) => {
                entries.set(i, (key, value));
                assert(entries@.map_values(|e: (String, V)| (e.0@, e.1@)) =~= before.update(
                    i as int,
                    (k, vv),
                ));
            },
            None => {
                entries.push((key, value));
                assert(entries@.map_values(|e: (String, V)| (e.0@, e.1@)) =~= before.push(
                    (k, vv),
                ));
            },
        }
        self.entries = entries;
    }

    /// Removes the entry named `key`, if any.
    pub fn remove(&mut self, key: &str)
        ensures
            final(self)@ == assoc_remove(old(self)@, key@),
    {
        proof {
            use_type_invariant(&*self);
            lemma_remove_distinct(self@, key@);
        }
        let idx = self.find_index(key);
        match idx {
            Some(i) => {
                let mut entries: Vec<(String, V)> = Vec::new();
                std::mem::swap(&mut entries, &mut self.entries);
                let ghost before = entries@.map_values(|e: (String, V)| (e.0@, e.1@));
                let _removed = entries.remove(i);
                assert(entries@.map_values(|e: (String, V)| (e.0@, e.1@)) =~= before.remove(
                    i as int,
                ));
                self.entries = entries;
            },
            None => {},
        }
    }

    /// The names, in order.
    pub fn keys(&self) -> (r: Vec<String>)
        ensures
            r@.map_values(|s: String| s@) == keys_of(self@),
    {
        let mut r: Vec<String> = Vec::new();
        let mut i: usize = 0;
        while i < self.entries.len()
            invariant
                i <= self.entries.len(),
                r@.map_values(|s: String| s@) == keys_of(self@).take(i as int),
            decreases self.entries.len() - i,
        {
            let name = self.entries[i].0.clone();
            assert(name@ == self@[i as int].0);
            let ghost prev = r@;
            r.push(name);
            assert(r@ == prev.push(name));
            assert(r@.map_values(|s: String| s@) =~= prev.map_values(|s: String| s@).push(name@));
            assert(keys_of(self@).take(i + 1) =~= keys_of(self@).take(i as int).push(self@[i as int].0));
            assert(r@.map_values(|s: String| s@) =~= keys_of(self@).take(i + 1));
            i = i + 1;
        }
        assert(keys_of(self@).take(i as int) =~= keys_of(self@));
        r
    }

    /// The first name, if any.
    pub fn first_key(&self) -> (r: Option<String>)
        ensures
            match r {
                Some(s) => self@.len() > 0 && s@ == self@[0].0,
                None => self@.len() == 0,
            },
    {
        if self.entries.len() == 0 {
            None
        } else {
            Some(self.entries[0].0.clone())
        }
    }

    /// The value at position `i` (with its name).
    pub fn entry_at(&self, i: usize) -> (r: (&String, &V))
        requires
            i < self@.len(),
        ensures
            r.0@ == self@[i as int].0,
            r.1@ == self@[i as int].1,
    {
        (&self.entries[i].0, &self.entries[i].1)
    }
}

impl Clone for NameMap<String> {
    /// A copy with the same entries.
    fn clone(&self) -> (r: Self)
        ensures
            r@ == self@,
    {
        proof {
            use_type_invariant(self);
        }
        let mut entries: Vec<(String, String)> = Vec::new();
        let mut i: usize = 0;
        while i < self.entries.len()
            invariant
                i <= self.entries.len(),
                entries@ == self.entries@.take(i as int),
            decreases self.entries.len() - i,
        {
            let k = self.entries[i].0.clone();
            let v = self.entries[i].1.clone();
            entries.push((k, v));
            assert(entries@ =~= self.entries@.take(i + 1));
            i = i + 1;
        }
        assert(entries@ =~= self.entries@);
        let r = NameMap { entries };
        assert(r@ =~= self@);
        r
    }
}

} // verus!
