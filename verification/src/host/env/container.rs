//! The environment container.
//!
//! Variables are kept in order of their ASCII-lowercased names; a name
//! matches any name that differs from it only in ASCII case, and keeps the
//! spelling it was first set with.

use vstd::prelude::*;

use super::types::EnvFlags;
use crate::strmap::{sorted_keys, StrMap};
use crate::text::{concat2, concat3, lower_ascii, lower_seq, owned};

verus! {

/// A table of variables keyed by lowercased name: the name as stored, and
/// the value.
pub type EnvTable = Map<Seq<char>, (Seq<char>, Seq<char>)>;

/// `t` after setting `key` to `value` as `flags` says: a name already
/// present keeps its stored spelling; `Append` and `Prepend` join the new
/// value after or before the old one, where there is one.
pub open spec fn set_in(t: EnvTable, key: Seq<char>, value: Seq<char>, flags: EnvFlags) -> EnvTable {
    let lk = lower_seq(key);
    if t.dom().contains(lk) {
        let (stored, old) = t[lk];
        t.insert(
            lk,
            (
                stored,
                match flags {
                    EnvFlags::Replace => value,
                    EnvFlags::Append => old + value,
                    EnvFlags::Prepend => value + old,
                },
            ),
        )
    } else {
        t.insert(lk, (key, value))
    }
}

/// `t` after setting each of `entries` in turn, replacing values.
pub open spec fn set_all(t: EnvTable, entries: Seq<(Seq<char>, Seq<char>)>) -> EnvTable
    decreases entries.len(),
{
    if entries.len() == 0 {
        t
    } else {
        set_in(set_all(t, entries.drop_last()), entries.last().0, entries.last().1, EnvFlags::Replace)
    }
}

/// One variable: its name as stored, and its value.
#[derive(Debug)]
pub struct EnvEntry {
    /// The name, as first set.
    pub key: String,
    /// The value.
    pub value: String,
}

impl Clone for EnvEntry {
    fn clone(&self) -> (r: EnvEntry)
        ensures
            r == *self,
    {
        EnvEntry { key: self.key.clone(), value: self.value.clone() }
    }
}

/// An environment.
#[derive(Debug)]
pub struct Env {
    data: Option<StrMap<EnvEntry>>,
    owned: bool,
}

/// The table a map of entries stands for.
pub open spec fn table_of(m: StrMap<EnvEntry>) -> EnvTable {
    Map::new(
        |k: Seq<char>| m.lookup(k) is Some,
        |k: Seq<char>| (m.lookup(k)->Some_0.key@, m.lookup(k)->Some_0.value@),
    )
}

/// Every entry is stored under the lowercase of its name.
pub open spec fn keyed_by_lowercase(t: EnvTable) -> bool {
    forall|k: Seq<char>| #[trigger] t.dom().contains(k) ==> lower_seq(t[k].0) == k
}

impl Env {
    /// The variables, by lowercased name.
    pub closed spec fn table(&self) -> EnvTable {
        match self.data {
            Some(m) => table_of(m),
            None => Map::empty(),
        }
    }

    /// The lowercased names, in order.
    pub closed spec fn names(&self) -> Seq<Seq<char>> {
        match self.data {
            Some(m) => m.keys(),
            None => Seq::empty(),
        }
    }

    /// Whether this environment holds its variables itself, rather than
    /// sharing them with the one it was copied from.
    pub closed spec fn is_owned(&self) -> bool {
        self.owned
    }

    /// Whether variables have been stored at all.
    pub closed spec fn has_data(&self) -> bool {
        self.data is Some
    }

    /// The value of a variable, matching its name without regard to ASCII
    /// case.
    pub open spec fn value_of(&self, key: Seq<char>) -> Option<Seq<char>> {
        if self.table().dom().contains(lower_seq(key)) {
            Some(self.table()[lower_seq(key)].1)
        } else {
            None
        }
    }

    #[verifier::type_invariant]
    closed spec fn inv(&self) -> bool {
        keyed_by_lowercase(self.table())
    }

    /// An empty environment.
    pub fn new() -> (r: Env)
        ensures
            r.table() == EnvTable::empty(),
            !r.is_owned(),
            !r.has_data(),
    {
        Env { data: None, owned: false }
    }

    /// Creates an environment from a map of variables, set in the map's
    /// order.
    pub fn from_map(vars: StrMap<String>) -> (r: Env)
        ensures
            r.table() == set_all(
                EnvTable::empty(),
                vars.keys().zip_with(vars.vals().map_values(|v: String| v@)),
            ),
            r.is_owned(),
            r.has_data(),
    {
        let mut env = Env::new();
        env.copy_for_write();
        let n = vars.len();
        let ghost entries = vars.keys().zip_with(vars.vals().map_values(|v: String| v@));
        let mut i: usize = 0;
        while i < n
            invariant
                n == vars.keys().len(),
                n == vars.vals().len(),
                entries == vars.keys().zip_with(vars.vals().map_values(|v: String| v@)),
                i <= n,
                env.table() == set_all(EnvTable::empty(), entries.take(i as int)),
                env.is_owned(),
                env.has_data(),
            decreases n - i,
        {
            let k = vars.key_at(i);
            let v = vars.val_at(i);
            env.set(k.as_str(), v.as_str());
            proof {
                assert(entries.take(i + 1).drop_last() =~= entries.take(i as int));
            }
            i = i + 1;
        }
        proof {
            assert(entries.take(n as int) =~= entries);
        }
        env
    }

    /// Sets an environment variable, replacing its value.
    pub fn set(&mut self, key: &str, value: &str)
        ensures
            final(self).table() == set_in(old(self).table(), key@, value@, EnvFlags::Replace),
            final(self).is_owned(),
            final(self).has_data(),
    {
        self.set_with_flags(key, value, EnvFlags::Replace)
    }

    /// Sets an environment variable, combining it with an existing value as
    /// `flags` says.
    pub fn set_with_flags(&mut self, key: &str, value: &str, flags: EnvFlags)
        ensures
            final(self).table() == set_in(old(self).table(), key@, value@, flags),
            final(self).is_owned(),
            final(self).has_data(),
    {
        self.copy_for_write();
        proof {
            use_type_invariant(&*self);
        }
        let ghost t0 = self.table();
        let lk = lower_ascii(key);
        let mut d: Option<StrMap<EnvEntry>> = None;
        std::mem::swap(&mut d, &mut self.data);
        let mut m = match d {
            Some(m) => m,
            None => StrMap::new(),
        };
        assert(table_of(m) == t0);
        let entry = match m.get(lk.as_str()) {
            Some(e) => {
                let stored = e.key.clone();
                let newv = match flags {
                    EnvFlags::Replace => owned(value),
                    EnvFlags::Append => concat2(e.value.as_str(), value),
                    EnvFlags::Prepend => concat2(value, e.value.as_str()),
                };
                EnvEntry { key: stored, value: newv }
            },
            None => EnvEntry { key: owned(key), value: owned(value) },
        };
        let ghost ev = (entry.key@, entry.value@);
        m.insert(lk, entry);
        proof {
            assert(table_of(m) =~= set_in(t0, key@, value@, flags));
            assert(ev.0 == key@ ==> lower_seq(ev.0) == lower_seq(key@));
        }
        self.data = Some(m);
    }

    /// Gets an environment variable value.
    pub fn get(&self, key: &str) -> (r: Option<&str>)
        ensures
            match r {
                Some(v) => self.value_of(key@) == Some(v@),
                None => self.value_of(key@) is None,
            },
    {
        match &self.data {
            Some(m) => {
                let lk = lower_ascii(key);
                match m.get(lk.as_str()) {
                    Some(e) => Some(e.value.as_str()),
                    None => None,
                }
            },
            None => None,
        }
    }

    /// Removes an environment variable.
    pub fn remove(&mut self, key: &str)
        ensures
            final(self).table() == old(self).table().remove(lower_seq(key@)),
            final(self).is_owned(),
            final(self).has_data(),
    {
        self.copy_for_write();
        proof {
            use_type_invariant(&*self);
        }
        let ghost t0 = self.table();
        let lk = lower_ascii(key);
        let mut d: Option<StrMap<EnvEntry>> = None;
        std::mem::swap(&mut d, &mut self.data);
        let mut m = match d {
            Some(m) => m,
            None => StrMap::new(),
        };
        assert(table_of(m) == t0);
        m.remove(lk.as_str());
        assert(table_of(m) =~= t0.remove(lower_seq(key@)));
        self.data = Some(m);
    }

    /// The number of variables.
    pub fn len(&self) -> (r: usize)
        ensures
            r == self.names().len(),
            r == self.table().dom().len(),
            self.names().to_set() == self.table().dom(),
            sorted_keys(self.names()),
    {
        match &self.data {
            Some(m) => {
                let n = m.len();
                proof {
                    assert(m.keys().to_set() =~= table_of(*m).dom());
                    crate::strmap::lemma_sorted_no_dup(m.keys());
                    m.keys().unique_seq_to_set();
                }
                n
            },
            None => {
                proof {
                    assert(Seq::<Seq<char>>::empty().to_set() =~= EnvTable::empty().dom());
                }
                0
            },
        }
    }

    /// Returns true if no variables are set.
    pub fn is_empty(&self) -> (r: bool)
        ensures
            r == (self.table().dom() == Set::<Seq<char>>::empty()),
    {
        let n = self.len();
        proof {
            if n > 0 {
                assert(self.table().dom().contains(self.names()[0]));
            } else {
                assert(self.table().dom() =~= Set::<Seq<char>>::empty());
            }
        }
        n == 0
    }

    /// Ensures the environment holds its variables itself, ready to be
    /// changed; the variables stay the same.
    pub fn copy_for_write(&mut self)
        ensures
            final(self).table() == old(self).table(),
            final(self).is_owned(),
            final(self).has_data(),
    {
        proof {
            use_type_invariant(&*self);
        }
        if self.owned && self.data.is_some() {
            return;
        }
        let copy = match &self.data {
            Some(m) => {
                let c = m.clone_map();
                proof {
                    assert forall|i: int| 0 <= i < c.vals().len() implies c.vals()[i] == m.vals()[i] by {
                        assert(cloned::<EnvEntry>(m.vals()[i], c.vals()[i]));
                    }
                    assert(c.vals() =~= m.vals());
                    assert(table_of(c) =~= table_of(*m));
                }
                c
            },
            None => {
                let c = StrMap::new();
                proof {
                    assert(table_of(c) =~= EnvTable::empty());
                }
                c
            },
        };
        self.data = Some(copy);
        self.owned = true;
    }

    /// The variables in name order, as (name, value) pairs.
    pub open spec fn listing(&self) -> Seq<(Seq<char>, Seq<char>)> {
        self.names().map_values(|k: Seq<char>| self.table()[k])
    }

    /// Prepends a path to the `PATH` variable, with the platform's list
    /// separator (`;` on Windows, `:` elsewhere).
    pub fn prepend_path(&mut self, path: &str)
        ensures
            final(self).table() == path_changed(old(self).table(), path@, EnvFlags::Prepend, ";"@)
                || final(self).table() == path_changed(old(self).table(), path@, EnvFlags::Prepend, ":"@),
    {
        let sep = list_separator();
        self.modify_path(path, EnvFlags::Prepend, sep)
    }

    /// Appends a path to the `PATH` variable, with the platform's list
    /// separator (`;` on Windows, `:` elsewhere).
    pub fn append_path(&mut self, path: &str)
        ensures
            final(self).table() == path_changed(old(self).table(), path@, EnvFlags::Append, ";"@)
                || final(self).table() == path_changed(old(self).table(), path@, EnvFlags::Append, ":"@),
    {
        let sep = list_separator();
        self.modify_path(path, EnvFlags::Append, sep)
    }

    /// Changes the `PATH` variable: `path` joined before or after the current
    /// value by `sep`, or in its place.
    pub fn modify_path(&mut self, path: &str, flags: EnvFlags, sep: &str)
        ensures
            final(self).table() == path_changed(old(self).table(), path@, flags, sep@),
    {
        let cur = match self.get("PATH") {
            Some(c) => Some(owned(c)),
            None => None,
        };
        match flags {
            EnvFlags::Prepend => match cur {
                Some(c) => {
                    let v = concat3(path, sep, c.as_str());
                    self.set("PATH", v.as_str());
                },
                None => self.set("PATH", path),
            },
            EnvFlags::Append => match cur {
                Some(c) => {
                    let v = concat3(c.as_str(), sep, path);
                    self.set("PATH", v.as_str());
                },
                None => self.set("PATH", path),
            },
            EnvFlags::Replace => self.set("PATH", path),
        }
    }

    /// Returns all variables as a map from their stored names to their
    /// values.
    pub fn to_map(&self) -> (r: StrMap<String>)
        ensures
            forall|k: Seq<char>| #[trigger] crate::text::opt_view(r.lookup(k)) == if self.table().dom().contains(
                lower_seq(k),
            ) && self.table()[lower_seq(k)].0 == k {
                Some(self.table()[lower_seq(k)].1)
            } else {
                None
            },
    {
        proof {
            use_type_invariant(self);
        }
        let mut out: StrMap<String> = StrMap::new();
        match &self.data {
            Some(m) => {
                let n = m.len();
                let ghost t = table_of(*m);
                let mut i: usize = 0;
                while i < n
                    invariant
                        n == m.keys().len(),
                        n == m.vals().len(),
                        sorted_keys(m.keys()),
                        t == table_of(*m),
                        keyed_by_lowercase(t),
                        i <= n,
                        forall|k: Seq<char>| #[trigger] crate::text::opt_view(out.lookup(k)) == if m.keys().take(
                            i as int,
                        ).contains(lower_seq(k)) && t[lower_seq(k)].0 == k {
                            Some(t[lower_seq(k)].1)
                        } else {
                            None
                        },
                    decreases n - i,
                {
                    let e = m.val_at(i);
                    proof {
                        m.lemma_index_of(i as int);
                        let lk = m.keys()[i as int];
                        assert(t.dom().contains(lk));
                        assert(t[lk] == (e.key@, e.value@));
                        assert(lower_seq(e.key@) == lk);
                        assert(m.keys().take(i + 1) =~= m.keys().take(i as int).push(lk));
                        assert(!m.keys().take(i as int).contains(lk)) by {
                            if m.keys().take(i as int).contains(lk) {
                                let j = choose|j: int| 0 <= j < i && #[trigger] m.keys().take(i as int)[j] == lk;
                                assert(m.keys()[j] == lk);
                                crate::text::lemma_lex_irreflexive(lk);
                            }
                        }
                    }
                    let ghost prev = out;
                    out.insert(e.key.clone(), e.value.clone());
                    proof {
                        let lk = m.keys()[i as int];
                        assert forall|k: Seq<char>| #[trigger] crate::text::opt_view(out.lookup(k)) == if m.keys().take(
                            i + 1,
                        ).contains(lower_seq(k)) && t[lower_seq(k)].0 == k {
                            Some(t[lower_seq(k)].1)
                        } else {
                            None
                        } by {
                            assert(m.keys().take(i + 1).contains(lower_seq(k)) <==> (m.keys().take(
                                i as int,
                            ).contains(lower_seq(k)) || lower_seq(k) == lk)) by {
                                if m.keys().take(i + 1).contains(lower_seq(k)) {
                                    let j = choose|j: int| 0 <= j < i + 1 && #[trigger] m.keys().take(i + 1)[j] == lower_seq(k);
                                    if j < i {
                                        assert(m.keys().take(i as int)[j] == lower_seq(k));
                                    }
                                }
                                if m.keys().take(i as int).contains(lower_seq(k)) {
                                    let j = choose|j: int| 0 <= j < i && #[trigger] m.keys().take(i as int)[j] == lower_seq(k);
                                    assert(m.keys().take(i + 1)[j] == lower_seq(k));
                                }
                                if lower_seq(k) == lk {
                                    assert(m.keys().take(i + 1)[i as int] == lk);
                                }
                            }
                            if k == e.key@ {
                                assert(crate::text::opt_view(out.lookup(k)) == Some(e.value@));
                            } else {
                                assert(out.lookup(k) == prev.lookup(k));
                            }
                        }
                    }
                    i = i + 1;
                }
                proof {
                    assert(m.keys().take(n as int) =~= m.keys());
                    assert forall|k: Seq<char>| m.keys().contains(k) <==> t.dom().contains(k) by {}
                }
            },
            None => {},
        }
        out
    }

    /// Returns the variables in name order, as (name, value) pairs: each
    /// variable once, in increasing order of its lowercased name, under the
    /// name it was first set with (which lowercases to that name).
    pub fn iter(&self) -> (r: Vec<(String, String)>)
        ensures
            r@.map_values(|e: (String, String)| (e.0@, e.1@)) == self.listing(),
            sorted_keys(self.names()),
            self.names().to_set() == self.table().dom(),
            keyed_by_lowercase(self.table()),
    {
        proof {
            use_type_invariant(self);
        }
        let _ = self.len();
        let mut out: Vec<(String, String)> = Vec::new();
        match &self.data {
            Some(m) => {
                let n = m.len();
                let mut i: usize = 0;
                while i < n
                    invariant
                        n == m.keys().len(),
                        n == m.vals().len(),
                        sorted_keys(m.keys()),
                        self.data == Some(*m),
                        i <= n,
                        out@.len() == i,
                        forall|j: int|
                            0 <= j < i ==> (#[trigger] out@[j].0@, out@[j].1@) == table_of(*m)[m.keys()[j]],
                    decreases n - i,
                {
                    let e = m.val_at(i);
                    proof {
                        m.lemma_index_of(i as int);
                    }
                    out.push((e.key.clone(), e.value.clone()));
                    i = i + 1;
                }
                assert(out@.map_values(|e: (String, String)| (e.0@, e.1@)) =~= self.listing());
            },
            None => {
                assert(out@.map_values(|e: (String, String)| (e.0@, e.1@)) =~= self.listing());
            },
        }
        out
    }

    /// The environment block for `CreateProcess`: each variable as UTF-16
    /// `NAME=VALUE` and a 0, in name order, then one more 0.
    pub fn to_windows_env_block(&self) -> (r: Vec<u16>)
        ensures
            r@ == env_block(self.listing()),
    {
        let entries = self.iter();
        let ghost l = self.listing();
        let mut block: Vec<u16> = Vec::new();
        let mut i: usize = 0;
        while i < entries.len()
            invariant
                i <= entries@.len(),
                entries@.map_values(|e: (String, String)| (e.0@, e.1@)) == l,
                block@ == env_entries(l.take(i as int)),
            decreases entries.len() - i,
        {
            proof {
                assert(l.take(i + 1).drop_last() =~= l.take(i as int));
                assert(l[i as int] == (entries@[i as int].0@, entries@[i as int].1@));
            }
            push_utf16(&mut block, entries[i].0.as_str());
            block.push(61);
            push_utf16(&mut block, entries[i].1.as_str());
            block.push(0);
            i = i + 1;
        }
        block.push(0);
        proof {
            assert(l.take(l.len() as int) =~= l);
        }
        block
    }
}

impl Default for Env {
    fn default() -> (r: Env)
        ensures
            r.table() == EnvTable::empty(),
            !r.is_owned(),
            !r.has_data(),
    {
        Env::new()
    }
}

impl Clone for Env {
    fn clone(&self) -> (r: Env)
        ensures
            r.table() == self.table(),
            r.names() == self.names(),
    {
        proof {
            use_type_invariant(self);
        }
        match &self.data {
            Some(m) => {
                let c = m.clone_map();
                proof {
                    assert forall|i: int| 0 <= i < c.vals().len() implies c.vals()[i] == m.vals()[i] by {
                        assert(cloned::<EnvEntry>(m.vals()[i], c.vals()[i]));
                    }
                    assert(c.vals() =~= m.vals());
                    assert(table_of(c) =~= table_of(*m));
                }
                Env { data: Some(c), owned: self.owned }
            },
            None => Env { data: None, owned: self.owned },
        }
    }
}

/// The list separator of `PATH` on this platform: `;` on Windows, `:`
/// elsewhere.
fn list_separator() -> (r: &'static str)
    ensures
        r@ == ";"@ || r@ == ":"@,
{
    if crate::path::main_separator() == '\\' {
        ";"
    } else {
        ":"
    }
}

/// `t` with `PATH` changed as `flags` says: `path` joined before or after
/// Setting entries whose names differ other than in ASCII case, each once:
/// every entry is read back under its lowercased name, with the name it was
/// given and its value, and no other name is set.
pub proof fn lemma_set_all_distinct(entries: Seq<(Seq<char>, Seq<char>)>)
    requires
        forall|i: int, j: int| 0 <= i < j < entries.len() ==> lower_seq(entries[i].0) != lower_seq(entries[j].0),
    ensures
        forall|i: int|
            0 <= i < entries.len() ==> set_all(EnvTable::empty(), entries).dom().contains(lower_seq(#[trigger] entries[i].0))
                && set_all(EnvTable::empty(), entries)[lower_seq(entries[i].0)] == entries[i],
        forall|k: Seq<char>|
            #[trigger] set_all(EnvTable::empty(), entries).dom().contains(k) ==> exists|i: int|
                0 <= i < entries.len() && lower_seq(entries[i].0) == k,
    decreases entries.len(),
{
    if entries.len() > 0 {
        let init = entries.drop_last();
        assert forall|i: int, j: int| 0 <= i < j < init.len() implies lower_seq(init[i].0) != lower_seq(init[j].0) by {
            assert(init[i] == entries[i] && init[j] == entries[j]);
        }
        lemma_set_all_distinct(init);
        let t = set_all(EnvTable::empty(), init);
        let last = entries.last();
        let n = entries.len() - 1;
        assert(!t.dom().contains(lower_seq(last.0))) by {
            if t.dom().contains(lower_seq(last.0)) {
                let i = choose|i: int| 0 <= i < init.len() && lower_seq(init[i].0) == lower_seq(last.0);
                assert(entries[i] == init[i]);
                assert(entries[n] == last);
            }
        }
        assert forall|i: int| 0 <= i < entries.len() implies set_all(EnvTable::empty(), entries).dom().contains(
            lower_seq(#[trigger] entries[i].0),
        ) && set_all(EnvTable::empty(), entries)[lower_seq(entries[i].0)] == entries[i] by {
            if i < n {
                assert(init[i] == entries[i]);
                assert(lower_seq(entries[i].0) != lower_seq(entries[n].0));
            }
        }
        assert forall|k: Seq<char>| #[trigger] set_all(EnvTable::empty(), entries).dom().contains(k) implies exists|i: int|
            0 <= i < entries.len() && lower_seq(entries[i].0) == k by {
            if k != lower_seq(last.0) {
                assert(t.dom().contains(k));
                let i = choose|i: int| 0 <= i < init.len() && lower_seq(init[i].0) == k;
                assert(entries[i] == init[i]);
            } else {
                assert(entries[n] == last);
            }
        }
    }
}

/// An environment made by `from_map` from variables whose names differ
/// other than in ASCII case holds as many variables as the map, and
/// `to_map` gives the map back: the same names, in the same order, each with
/// its value.
pub proof fn lemma_from_map_to_map(vars: StrMap<String>, e: Env, m: StrMap<String>)
    requires
        vars.keys().len() == vars.vals().len(),
        sorted_keys(vars.keys()),
        e.table() == set_all(EnvTable::empty(), vars.keys().zip_with(vars.vals().map_values(|v: String| v@))),
        forall|a: int, b: int| 0 <= a < b < vars.keys().len() ==> lower_seq(vars.keys()[a]) != lower_seq(vars.keys()[b]),
        sorted_keys(m.keys()),
        forall|k: Seq<char>| #[trigger] crate::text::opt_view(m.lookup(k)) == if e.table().dom().contains(lower_seq(k))
            && e.table()[lower_seq(k)].0 == k {
            Some(e.table()[lower_seq(k)].1)
        } else {
            None
        },
    ensures
        e.table().dom().len() == vars.keys().len(),
        m.keys() == vars.keys(),
        forall|k: Seq<char>| #[trigger] crate::text::opt_view(m.lookup(k)) == crate::text::opt_view(vars.lookup(k)),
{
    let ks = vars.keys();
    let lows = ks.map_values(|k: Seq<char>| lower_seq(k));
    let entries = vars.keys().zip_with(vars.vals().map_values(|v: String| v@));
    assert(entries.len() == ks.len());
    assert forall|a: int, b: int| 0 <= a < b < entries.len() implies lower_seq(entries[a].0) != lower_seq(entries[b].0) by {
        assert(entries[a].0 == ks[a]);
        assert(entries[b].0 == ks[b]);
    }
    lemma_set_all_distinct(entries);
    assert forall|k: Seq<char>| #[trigger] crate::text::opt_view(m.lookup(k)) == crate::text::opt_view(vars.lookup(k)) by {
        if ks.contains(k) {
            let i = choose|i: int| 0 <= i < ks.len() && ks[i] == k;
            lemma_from_map_round_trip(vars, e, i);
            vars.lemma_index_of(i);
        } else {
            if e.table().dom().contains(lower_seq(k)) && e.table()[lower_seq(k)].0 == k {
                let j = choose|j: int| 0 <= j < entries.len() && lower_seq(entries[j].0) == lower_seq(k);
                assert(entries[j].0 == ks[j]);
                lemma_from_map_round_trip(vars, e, j);
                assert(ks[j] == k);
            }
        }
    }
    assert(m.keys().to_set() =~= ks.to_set()) by {
        assert forall|k: Seq<char>| m.keys().to_set().contains(k) <==> ks.to_set().contains(k) by {
            assert(m.keys().contains(k) <==> m.lookup(k) is Some);
            assert(ks.contains(k) <==> vars.lookup(k) is Some);
            assert(crate::text::opt_view(m.lookup(k)) == crate::text::opt_view(vars.lookup(k)));
        }
    }
    crate::strmap::lemma_sorted_unique(m.keys(), ks);
    assert(e.table().dom() =~= lows.to_set()) by {
        assert forall|k: Seq<char>| e.table().dom().contains(k) <==> lows.to_set().contains(k) by {
            if e.table().dom().contains(k) {
                let j = choose|j: int| 0 <= j < entries.len() && lower_seq(entries[j].0) == k;
                assert(entries[j].0 == ks[j]);
                assert(lows[j] == k);
            }
            if lows.to_set().contains(k) {
                let j = choose|j: int| 0 <= j < lows.len() && lows[j] == k;
                lemma_from_map_round_trip(vars, e, j);
            }
        }
    }
    assert(lows.no_duplicates()) by {
        assert forall|a: int, b: int| 0 <= a < lows.len() && 0 <= b < lows.len() && a != b implies lows[a] != lows[b] by {
            if a < b {
            } else {
            }
        }
    }
    lows.unique_seq_to_set();
}

/// An environment made by `from_map` from variables whose names differ
/// other than in ASCII case gives each variable back: under its name, under
/// its lowercased name, and with the name it was given; it holds no other.
pub proof fn lemma_from_map_round_trip(vars: StrMap<String>, e: Env, i: int)
    requires
        vars.keys().len() == vars.vals().len(),
        e.table() == set_all(EnvTable::empty(), vars.keys().zip_with(vars.vals().map_values(|v: String| v@))),
        forall|a: int, b: int| 0 <= a < b < vars.keys().len() ==> lower_seq(vars.keys()[a]) != lower_seq(vars.keys()[b]),
        0 <= i < vars.keys().len(),
    ensures
        e.value_of(vars.keys()[i]) == Some(vars.vals()[i]@),
        e.value_of(lower_seq(vars.keys()[i])) == Some(vars.vals()[i]@),
        e.table()[lower_seq(vars.keys()[i])].0 == vars.keys()[i],
        forall|k: Seq<char>| #[trigger] e.table().dom().contains(k) ==> exists|j: int|
            0 <= j < vars.keys().len() && lower_seq(vars.keys()[j]) == k,
{
    let entries = vars.keys().zip_with(vars.vals().map_values(|v: String| v@));
    assert(entries.len() == vars.keys().len());
    assert forall|a: int, b: int| 0 <= a < b < entries.len() implies lower_seq(entries[a].0) != lower_seq(entries[b].0) by {
        assert(entries[a].0 == vars.keys()[a]);
        assert(entries[b].0 == vars.keys()[b]);
    }
    lemma_set_all_distinct(entries);
    assert(entries[i] == (vars.keys()[i], vars.vals()[i]@));
    crate::text::lemma_lower_idempotent(vars.keys()[i]);
    assert forall|k: Seq<char>| #[trigger] e.table().dom().contains(k) implies exists|j: int|
        0 <= j < vars.keys().len() && lower_seq(vars.keys()[j]) == k by {
        let j = choose|j: int| 0 <= j < entries.len() && lower_seq(entries[j].0) == k;
        assert(entries[j].0 == vars.keys()[j]);
    }
}

/// the current value by `sep`, or set in its place.
pub open spec fn path_changed(t: EnvTable, path: Seq<char>, flags: EnvFlags, sep: Seq<char>) -> EnvTable {
    let cur = if t.dom().contains(lower_seq("PATH"@)) {
        Some(t[lower_seq("PATH"@)].1)
    } else {
        None
    };
    let v = match (flags, cur) {
        (EnvFlags::Prepend, Some(c)) => path + sep + c,
        (EnvFlags::Append, Some(c)) => c + sep + path,
        _ => path,
    };
    set_in(t, "PATH"@, v, EnvFlags::Replace)
}

/// The UTF-16 code units of one character.
pub open spec fn utf16_units(c: char) -> Seq<u16> {
    let u = c as u32;
    if u < 0x10000 {
        seq![u as u16]
    } else {
        let v = (u - 0x10000) as nat;
        seq![(0xD800 + v / 1024) as u16, (0xDC00 + v % 1024) as u16]
    }
}

/// The UTF-16 encoding of a string.
pub open spec fn utf16(s: Seq<char>) -> Seq<u16>
    decreases s.len(),
{
    if s.len() == 0 {
        Seq::empty()
    } else {
        utf16(s.drop_last()) + utf16_units(s.last())
    }
}

/// The variables as UTF-16 `NAME=VALUE` entries, each ended by a 0.
pub open spec fn env_entries(l: Seq<(Seq<char>, Seq<char>)>) -> Seq<u16>
    decreases l.len(),
{
    if l.len() == 0 {
        Seq::empty()
    } else {
        env_entries(l.drop_last()) + utf16(l.last().0) + seq![61u16] + utf16(l.last().1) + seq![0u16]
    }
}

/// The environment block: the entries, then a closing 0.
pub open spec fn env_block(l: Seq<(Seq<char>, Seq<char>)>) -> Seq<u16> {
    env_entries(l) + seq![0u16]
}

fn push_utf16(block: &mut Vec<u16>, s: &str)
    ensures
        final(block)@ == old(block)@ + utf16(s@),
{
    let v = crate::text::chars_of(s);
    let mut i: usize = 0;
    while i < v.len()
        invariant
            i <= v@.len(),
            v@ == s@,
            block@ == old(block)@ + utf16(v@.take(i as int)),
        decreases v.len() - i,
    {
        proof {
            assert(v@.take(i + 1).drop_last() =~= v@.take(i as int));
        }
        let u = v[i] as u32;
        if u < 0x10000 {
            block.push(u as u16);
        } else {
            let w = u - 0x10000;
            block.push((0xD800 + w / 1024) as u16);
            block.push((0xDC00 + w % 1024) as u16);
        }
        assert(block@ =~= old(block)@ + utf16(v@.take(i + 1)));
        i = i + 1;
    }
    assert(v@.take(v@.len() as int) =~= v@);
}

/// A variable set (replacing) is read back under any spelling of its name
/// that differs only in ASCII case.
pub proof fn lemma_set_then_get(before: Env, after: Env, key: Seq<char>, value: Seq<char>, probe: Seq<char>)
    requires
        after.table() == set_in(before.table(), key, value, EnvFlags::Replace),
        lower_seq(probe) == lower_seq(key),
    ensures
        after.value_of(probe) == Some(value),
{
}

/// Setting a variable leaves every variable of another name as it was.
pub proof fn lemma_set_keeps_others(
    before: Env,
    after: Env,
    key: Seq<char>,
    value: Seq<char>,
    flags: EnvFlags,
    other: Seq<char>,
)
    requires
        after.table() == set_in(before.table(), key, value, flags),
        lower_seq(other) != lower_seq(key),
    ensures
        after.value_of(other) == before.value_of(other),
{
}

/// Appending or prepending to a variable that is set joins the new value
/// after or before the old one; on one that is not set, it sets it.
pub proof fn lemma_set_combines(before: Env, after: Env, key: Seq<char>, value: Seq<char>, flags: EnvFlags)
    requires
        after.table() == set_in(before.table(), key, value, flags),
    ensures
        after.value_of(key) == Some(
            match before.value_of(key) {
                Some(old) => match flags {
                    EnvFlags::Replace => value,
                    EnvFlags::Append => old + value,
                    EnvFlags::Prepend => value + old,
                },
                None => value,
            },
        ),
{
}

/// A variable that is set again keeps the spelling of its name it was
/// first set with.
pub proof fn lemma_set_keeps_spelling(before: Env, after: Env, key: Seq<char>, value: Seq<char>, flags: EnvFlags)
    requires
        after.table() == set_in(before.table(), key, value, flags),
        before.table().dom().contains(lower_seq(key)),
    ensures
        after.table()[lower_seq(key)].0 == before.table()[lower_seq(key)].0,
{
}

/// A removed variable is not read back under any spelling of its name.
pub proof fn lemma_remove_then_get(before: Env, after: Env, key: Seq<char>, probe: Seq<char>)
    requires
        after.table() == before.table().remove(lower_seq(key)),
        lower_seq(probe) == lower_seq(key),
    ensures
        after.value_of(probe) is None,
{
}

} // verus!
