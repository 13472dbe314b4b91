//! An ordered map with string keys.
//!
//! Entries are kept sorted by key in `String` order (code point order), the
//! order in which a `BTreeMap<String, V>` walks its entries. Keys are unique.

use vstd::prelude::*;

use crate::text::{views, lemma_lex_asymmetric, lemma_lex_irreflexive, lemma_lex_total, lemma_lex_transitive, lex_lt, str_eq, str_lt};

verus! {

/// Keys in strictly increasing order.
pub open spec fn sorted_keys(k: Seq<Seq<char>>) -> bool {
    forall|i: int, j: int| 0 <= i < j < k.len() ==> lex_lt(k[i], k[j])
}

/// Keys in strictly increasing order are distinct.
pub proof fn lemma_sorted_no_dup(k: Seq<Seq<char>>)
    requires
        sorted_keys(k),
    ensures
        k.no_duplicates(),
{
    assert forall|i: int, j: int| 0 <= i < k.len() && 0 <= j < k.len() && i != j implies k[i] != k[j] by {
        if i < j {
            lemma_lex_irreflexive(k[i]);
        } else {
            lemma_lex_irreflexive(k[j]);
        }
    }
}

/// Two sorted key sequences with the same keys are the same sequence.
pub proof fn lemma_sorted_unique(a: Seq<Seq<char>>, b: Seq<Seq<char>>)
    requires
        sorted_keys(a),
        sorted_keys(b),
        a.to_set() == b.to_set(),
    ensures
        a == b,
    decreases a.len(),
{
    if a.len() == 0 {
        if b.len() > 0 {
            assert(b.to_set().contains(b[0]));
        }
        assert(a =~= b);
    } else {
        assert(a.to_set().contains(a[0]));
        assert(b.len() > 0);
        assert(b.to_set().contains(b[0]));
        let j = choose|j: int| 0 <= j < b.len() && b[j] == a[0];
        let k = choose|k: int| 0 <= k < a.len() && a[k] == b[0];
        if j > 0 {
            if k > 0 {
                lemma_lex_transitive(a[0], a[k], a[0]);
            }
            lemma_lex_irreflexive(a[0]);
        }
        let a1 = a.drop_first();
        let b1 = b.drop_first();
        assert forall|x: Seq<char>| a1.to_set().contains(x) <==> b1.to_set().contains(x) by {
            if a1.to_set().contains(x) {
                let p = choose|p: int| 0 <= p < a1.len() && a1[p] == x;
                assert(a[p + 1] == x);
                assert(b.to_set().contains(x));
                let q = choose|q: int| 0 <= q < b.len() && b[q] == x;
                if q == 0 {
                    lemma_lex_irreflexive(a[0]);
                }
                assert(b1[q - 1] == x);
            }
            if b1.to_set().contains(x) {
                let p = choose|p: int| 0 <= p < b1.len() && b1[p] == x;
                assert(b[p + 1] == x);
                assert(a.to_set().contains(x));
                let q = choose|q: int| 0 <= q < a.len() && a[q] == x;
                if q == 0 {
                    lemma_lex_irreflexive(b[0]);
                }
                assert(a1[q - 1] == x);
            }
        }
        assert(a1.to_set() =~= b1.to_set());
        lemma_sorted_unique(a1, b1);
        assert(j == 0);
        assert(b[0] == a[0]);
        assert(a.len() == b.len());
        assert forall|i: int| 0 <= i < a.len() implies a[i] == b[i] by {
            if i > 0 {
                assert(a[i] == a1[i - 1]);
                assert(b[i] == b1[i - 1]);
            }
        }
        assert(a =~= b);
    }
}

/// An ordered map from strings to values.
#[derive(Debug)]
pub struct StrMap<V> {
    entries: Vec<(String, V)>,
}

impl<V> StrMap<V> {
    /// The keys, in order.
    pub closed spec fn keys(&self) -> Seq<Seq<char>> {
        self.entries@.map_values(|e: (String, V)| e.0@)
    }

    /// The values, in key order.
    pub closed spec fn vals(&self) -> Seq<V> {
        self.entries@.map_values(|e: (String, V)| e.1)
    }

    /// The value stored under `k`, if any.
    pub open spec fn lookup(&self, k: Seq<char>) -> Option<V> {
        if self.keys().contains(k) {
            Some(self.vals()[self.keys().index_of(k)])
        } else {
            None
        }
    }

    #[verifier::type_invariant]
    closed spec fn inv(&self) -> bool {
        sorted_keys(self.keys())
    }

    /// An empty map.
    pub fn new() -> (m: Self)
        ensures
            m.keys() == Seq::<Seq<char>>::empty(),
            m.vals() == Seq::<V>::empty(),
    {
        let m = StrMap { entries: Vec::new() };
        assert(m.keys() =~= Seq::<Seq<char>>::empty());
        assert(m.vals() =~= Seq::<V>::empty());
        m
    }

    /// The number of entries.
    pub fn len(&self) -> (n: usize)
        ensures
            n == self.keys().len(),
            n == self.vals().len(),
            sorted_keys(self.keys()),
    {
        proof {
            use_type_invariant(self);
        }
        self.entries.len()
    }

    /// Whether the map is empty.
    pub fn is_empty(&self) -> (b: bool)
        ensures
            b == (self.keys().len() == 0),
    {
        self.entries.len() == 0
    }

    /// The key of the `i`-th entry.
    pub fn key_at(&self, i: usize) -> (k: &String)
        requires
            i < self.keys().len(),
        ensures
            k@ == self.keys()[i as int],
    {
        &self.entries[i].0
    }

    /// The keys, in order, as strings.
    pub fn key_list(&self) -> (r: Vec<String>)
        ensures
            views(r@) == self.keys(),
            sorted_keys(self.keys()),
    {
        proof {
            use_type_invariant(self);
        }
        let mut out: Vec<String> = Vec::new();
        let mut i: usize = 0;
        while i < self.entries.len()
            invariant
                i <= self.entries@.len(),
                views(out@) == self.keys().take(i as int),
            decreases self.entries.len() - i,
        {
            let ghost prev = out@;
            out.push(self.entries[i].0.clone());
            proof {
                assert(views(out@) =~= views(prev).push(self.keys()[i as int]));
                assert(self.keys().take(i + 1) =~= self.keys().take(i as int).push(self.keys()[i as int]));
            }
            i = i + 1;
        }
        assert(self.keys().take(self.entries@.len() as int) =~= self.keys());
        out
    }

    /// The value of the `i`-th entry.
    pub fn val_at(&self, i: usize) -> (v: &V)
        requires
            i < self.vals().len(),
        ensures
            *v == self.vals()[i as int],
    {
        &self.entries[i].1
    }

    /// The position of `key`, if it is present.
    pub fn find(&self, key: &str) -> (r: Option<usize>)
        ensures
            match r {
                Some(i) => i < self.keys().len() && self.keys()[i as int] == key@,
                None => !self.keys().contains(key@),
            },
    {
        let mut i: usize = 0;
        while i < self.entries.len()
            invariant
                i <= self.entries@.len(),
                forall|j: int| 0 <= j < i ==> self.keys()[j] != key@,
            decreases self.entries.len() - i,
        {
            if str_eq(self.entries[i].0.as_str(), key) {
                return Some(i);
            }
            i = i + 1;
        }
        None
    }

    /// The value stored under `key`.
    pub fn get(&self, key: &str) -> (r: Option<&V>)
        ensures
            match r {
                Some(v) => self.lookup(key@) == Some(*v),
                None => self.lookup(key@) is None,
            },
    {
        proof {
            use_type_invariant(self);
        }
        match self.find(key) {
            Some(i) => {
                proof {
                    self.lemma_index_of(i as int);
                }
                Some(&self.entries[i].1)
            },
            None => None,
        }
    }

    /// Whether `key` is present.
    pub fn contains_key(&self, key: &str) -> (b: bool)
        ensures
            b == self.keys().contains(key@),
    {
        self.find(key).is_some()
    }

    /// With sorted keys, `index_of` finds the one position of a key.
    pub proof fn lemma_index_of(&self, i: int)
        requires
            0 <= i < self.keys().len(),
            sorted_keys(self.keys()),
            self.keys().len() == self.vals().len(),
        ensures
            self.keys().index_of(self.keys()[i]) == i,
            self.lookup(self.keys()[i]) == Some(self.vals()[i]),
    {
        let k = self.keys();
        let j = k.index_of(k[i]);
        if j != i {
            if j < i {
                lemma_lex_irreflexive(k[i]);
            } else {
                lemma_lex_irreflexive(k[i]);
            }
        }
    }

    /// Inserts `value` under `key`, replacing the value of an equal key
    /// (whose stored key is kept, as `BTreeMap::insert` does).
    pub fn insert(&mut self, key: String, value: V)
        ensures
            forall|k: Seq<char>| #[trigger] final(self).lookup(k) == if k == key@ {
                Some(value)
            } else {
                old(self).lookup(k)
            },
            old(self).keys().contains(key@) ==> final(self).keys() == old(self).keys(),
            !old(self).keys().contains(key@) ==> final(self).keys().len() == old(self).keys().len() + 1,
            final(self).keys().to_set() == old(self).keys().to_set().insert(key@),
    {
        proof {
            use_type_invariant(&*self);
        }
        let ghost ok = self.keys();
        let ghost ov = self.vals();
        let mut entries: Vec<(String, V)> = Vec::new();
        std::mem::swap(&mut entries, &mut self.entries);
        assert(entries@.map_values(|e: (String, V)| e.0@) == ok);
        assert(entries@.map_values(|e: (String, V)| e.1) == ov);
        let mut i: usize = 0;
        while i < entries.len() && str_lt(entries[i].0.as_str(), key.as_str())
            invariant
                i <= entries@.len(),
                ok == entries@.map_values(|e: (String, V)| e.0@),
                ov == entries@.map_values(|e: (String, V)| e.1),
                sorted_keys(ok),
                forall|j: int| 0 <= j < i ==> lex_lt(ok[j], key@),
            decreases entries.len() - i,
        {
            i = i + 1;
        }
        // every key at or after `i` is not below `key`
        proof {
            assert forall|j: int| i <= j < ok.len() implies !lex_lt(ok[j], key@) by {
                if j > i && lex_lt(ok[j], key@) {
                    assert(lex_lt(ok[i as int], ok[j]));
                    lemma_lex_transitive(ok[i as int], ok[j], key@);
                }
            }
        }
        if i < entries.len() && str_eq(entries[i].0.as_str(), key.as_str()) {
            let old_key = entries[i].0.clone();
            entries.set(i, (old_key, value));
            assert(entries@.map_values(|e: (String, V)| e.0@) =~= ok);
            self.entries = entries;
            proof {
                assert(self.keys() =~= ok);
                assert(self.vals() =~= ov.update(i as int, value));
                assert(ok[i as int] == key@);
                assert(ok.contains(key@));
                assert forall|k: Seq<char>| #[trigger] self.lookup(k) == if k == key@ {
                    Some(value)
                } else {
                    old(self).lookup(k)
                } by {
                    if ok.contains(k) {
                        let j = ok.index_of(k);
                        assert(ok[j] == k);
                        old(self).lemma_index_of(j);
                        self.lemma_index_of(j);
                    }
                }
                assert(self.keys().to_set() =~= ok.to_set().insert(key@));
            }
        } else {
            proof {
                if ok.contains(key@) {
                    let j = ok.index_of(key@);
                    if j < i {
                        lemma_lex_irreflexive(key@);
                    } else if j > i {
                        lemma_lex_total(ok[i as int], key@);
                        lemma_lex_transitive(key@, ok[i as int], ok[j]);
                        lemma_lex_irreflexive(key@);
                    }
                }
                assert forall|j: int| i <= j < ok.len() implies lex_lt(key@, ok[j]) by {
                    lemma_lex_total(ok[j], key@);
                    if ok[j] == key@ {
                        assert(ok.contains(key@));
                    }
                }
            }
            entries.insert(i, (key, value));
            proof {
                let nk = entries@.map_values(|e: (String, V)| e.0@);
                assert(nk =~= ok.insert(i as int, key@));
                assert forall|a: int, b: int| 0 <= a < b < nk.len() implies lex_lt(nk[a], nk[b]) by {
                    if b < i {
                    } else if b == i {
                    } else if a < i {
                        assert(lex_lt(ok[a], key@));
                        assert(lex_lt(key@, ok[b - 1]));
                        lemma_lex_transitive(ok[a], key@, ok[b - 1]);
                    } else if a == i {
                        assert(lex_lt(key@, ok[b - 1]));
                    } else {
                    }
                }
            }
            self.entries = entries;
            proof {
                let nk = self.keys();
                assert(nk =~= ok.insert(i as int, key@));
                assert(self.vals() =~= ov.insert(i as int, value));
                assert forall|a: int, b: int| 0 <= a < b < nk.len() implies lex_lt(nk[a], nk[b]) by {
                    if b < i {
                    } else if b == i {
                    } else if a < i {
                        assert(lex_lt(ok[a], key@));
                        assert(lex_lt(key@, ok[b - 1]));
                        lemma_lex_transitive(ok[a], key@, ok[b - 1]);
                    } else if a == i {
                        assert(lex_lt(key@, ok[b - 1]));
                    } else {
                    }
                }
                assert forall|k: Seq<char>| #[trigger] self.lookup(k) == if k == key@ {
                    Some(value)
                } else {
                    old(self).lookup(k)
                } by {
                    if k == key@ {
                        self.lemma_index_of(i as int);
                    } else if ok.contains(k) {
                        let j = ok.index_of(k);
                        old(self).lemma_index_of(j);
                        let nj = if j < i { j } else { j + 1 };
                        assert(nk[nj] == k);
                        self.lemma_index_of(nj);
                    } else {
                        assert(!nk.contains(k));
                    }
                }
                assert forall|x: Seq<char>| nk.to_set().contains(x) <==> ok.to_set().insert(key@).contains(x) by {
                    if nk.contains(x) {
                        let j = nk.index_of(x);
                        if j != i as int {
                            let oj = if j < i { j } else { j - 1 };
                            assert(ok[oj] == x);
                        }
                    }
                    if ok.contains(x) {
                        let j = ok.index_of(x);
                        let nj = if j < i { j } else { j + 1 };
                        assert(nk[nj] == x);
                    }
                    if x == key@ {
                        assert(nk[i as int] == x);
                    }
                }
                assert(nk.to_set() =~= ok.to_set().insert(key@));
            }
        }
    }

    /// Removes `key` and its value, if present.
    pub fn remove(&mut self, key: &str)
        ensures
            forall|k: Seq<char>| #[trigger] final(self).lookup(k) == if k == key@ {
                None
            } else {
                old(self).lookup(k)
            },
            final(self).keys().to_set() == old(self).keys().to_set().remove(key@),
    {
        proof {
            use_type_invariant(&*self);
        }
        let ghost ok = self.keys();
        let ghost ov = self.vals();
        match self.find(key) {
            Some(i) => {
                let mut entries: Vec<(String, V)> = Vec::new();
                std::mem::swap(&mut entries, &mut self.entries);
                entries.remove(i);
                proof {
                    let nk = entries@.map_values(|e: (String, V)| e.0@);
                    assert(nk =~= ok.remove(i as int));
                    assert(sorted_keys(nk));
                }
                self.entries = entries;
                proof {
                    let nk = self.keys();
                    assert(nk =~= ok.remove(i as int));
                    assert(self.vals() =~= ov.remove(i as int));
                    assert(sorted_keys(nk));
                    old(self).lemma_index_of(i as int);
                    assert forall|k: Seq<char>| #[trigger] self.lookup(k) == if k == key@ {
                        None
                    } else {
                        old(self).lookup(k)
                    } by {
                        if k == key@ {
                            if nk.contains(k) {
                                let j = nk.index_of(k);
                                let oj = if j < i { j } else { j + 1 };
                                assert(ok[oj] == k);
                                if oj != i as int {
                                    lemma_lex_irreflexive(k);
                                }
                            }
                        } else if ok.contains(k) {
                            let j = ok.index_of(k);
                            old(self).lemma_index_of(j);
                            let nj = if j < i { j } else { j - 1 };
                            assert(nk[nj] == k);
                            self.lemma_index_of(nj);
                        } else {
                            assert(!nk.contains(k));
                        }
                    }
                    assert forall|x: Seq<char>| nk.to_set().contains(x) <==> ok.to_set().remove(key@).contains(x) by {
                        if nk.contains(x) {
                            let j = nk.index_of(x);
                            let oj = if j < i { j } else { j + 1 };
                            assert(ok[oj] == x);
                            if x == key@ && oj != i as int {
                                lemma_lex_irreflexive(x);
                            }
                        }
                        if ok.contains(x) && x != key@ {
                            let j = ok.index_of(x);
                            let nj = if j < i { j } else { j - 1 };
                            assert(nk[nj] == x);
                        }
                    }
                    assert(nk.to_set() =~= ok.to_set().remove(key@));
                }
            },
            None => {
                proof {
                    assert(ok.to_set() =~= ok.to_set().remove(key@));
                }
            },
        }
    }
}

/// The strings of `items` in increasing order, each once.
pub fn sorted_unique(items: Vec<String>) -> (r: Vec<String>)
    ensures
        sorted_keys(views(r@)),
        views(r@).to_set() == views(items@).to_set(),
{
    let mut m: StrMap<()> = StrMap::new();
    let mut i: usize = 0;
    while i < items.len()
        invariant
            i <= items@.len(),
            m.keys().to_set() == views(items@).take(i as int).to_set(),
        decreases items.len() - i,
    {
        m.insert(items[i].clone(), ());
        proof {
            assert(views(items@).take(i + 1) =~= views(items@).take(i as int).push(items@[i as int]@));
            views(items@).take(i as int).lemma_push_to_set_commute(items@[i as int]@);
        }
        i = i + 1;
    }
    assert(views(items@).take(items@.len() as int) =~= views(items@));
    m.key_list()
}

impl<V: Clone> StrMap<V> {
    /// A copy of the map, with each value cloned.
    pub fn clone_map(&self) -> (r: Self)
        ensures
            r.keys() == self.keys(),
            r.vals().len() == self.vals().len(),
            forall|i: int| 0 <= i < self.vals().len() ==> cloned::<V>(self.vals()[i], #[trigger] r.vals()[i]),
    {
        proof {
            use_type_invariant(self);
        }
        let mut entries: Vec<(String, V)> = Vec::new();
        let mut i: usize = 0;
        while i < self.entries.len()
            invariant
                i <= self.entries@.len(),
                entries@.len() == i,
                sorted_keys(self.keys()),
                forall|j: int| 0 <= j < i ==> #[trigger] entries@[j].0@ == self.keys()[j],
                forall|j: int| 0 <= j < i ==> cloned::<V>(self.vals()[j], #[trigger] entries@[j].1),
            decreases self.entries.len() - i,
        {
            let k = self.entries[i].0.clone();
            let v = self.entries[i].1.clone();
            entries.push((k, v));
            i = i + 1;
        }
        let r = StrMap { entries };
        assert(r.keys() =~= self.keys());
        r
    }
}

} // verus!
