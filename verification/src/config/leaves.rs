//! Value trees seen as their leaves.
//!
//! A configuration tree is described by what it holds at the end of each
//! path: a scalar, or a table or an array with nothing in it. Two trees that
//! hold the same leaves differ at most in the order of their table entries.
//! The merge of sources and overrides is stated over these leaves (see
//! `loader::built_from`).

use vstd::prelude::*;

use super::decode::table_get;
use super::value::ConfigValue;

verus! {

/// One step of a path into a value tree: a key of a table, or a position of
/// an array.
pub enum Step {
    Key(Seq<char>),
    Index(int),
}

/// What a value tree holds at the end of a path.
pub enum Leaf {
    Nil,
    Boolean(bool),
    I64(i64),
    I128(i128),
    U64(u64),
    U128(u128),
    /// A floating-point number, by its decimal text.
    Float(Seq<char>),
    Str(Seq<char>),
    /// A table with no entries.
    EmptyTable,
    /// An array with no items.
    EmptyArray,
}

/// The leaves of a tree, by path.
pub type Leaves = Map<Seq<Step>, Leaf>;

/// The leaf that `m` holds at `p`, if any.
pub open spec fn lookup(m: Leaves, p: Seq<Step>) -> Option<Leaf> {
    if m.dom().contains(p) {
        Some(m[p])
    } else {
        None
    }
}

/// The leaf that `v` holds at the path `p`: a table's entry is found as
/// `table_get` finds it.
pub open spec fn leaf_at(v: ConfigValue, p: Seq<Step>) -> Option<Leaf>
    decreases p.len(),
{
    if p.len() == 0 {
        match v {
            ConfigValue::Nil => Some(Leaf::Nil),
            ConfigValue::Boolean(b) => Some(Leaf::Boolean(b)),
            ConfigValue::I64(n) => Some(Leaf::I64(n)),
            ConfigValue::I128(n) => Some(Leaf::I128(n)),
            ConfigValue::U64(n) => Some(Leaf::U64(n)),
            ConfigValue::U128(n) => Some(Leaf::U128(n)),
            ConfigValue::Float { text, .. } => Some(Leaf::Float(text@)),
            ConfigValue::Str(s) => Some(Leaf::Str(s@)),
            ConfigValue::Table(t) => if t@.len() == 0 {
                Some(Leaf::EmptyTable)
            } else {
                None
            },
            ConfigValue::Array(a) => if a@.len() == 0 {
                Some(Leaf::EmptyArray)
            } else {
                None
            },
        }
    } else {
        match v {
            ConfigValue::Table(t) => match p[0] {
                Step::Key(k) => match table_get(t@, k) {
                    Some(c) => leaf_at(c, p.drop_first()),
                    None => None,
                },
                Step::Index(_) => None,
            },
            ConfigValue::Array(a) => match p[0] {
                Step::Index(i) => if 0 <= i < a@.len() {
                    leaf_at(a@[i], p.drop_first())
                } else {
                    None
                },
                Step::Key(_) => None,
            },
            _ => None,
        }
    }
}

/// `v` holds exactly the leaves `m`.
pub open spec fn agrees(v: ConfigValue, m: Leaves) -> bool {
    forall|p: Seq<Step>| #![trigger leaf_at(v, p)] #![trigger lookup(m, p)] leaf_at(v, p) == lookup(m, p)
}

/// `v` holds the leaves `m` on every path shorter than `d`.
pub open spec fn agrees_below(v: ConfigValue, m: Leaves, d: nat) -> bool {
    forall|p: Seq<Step>| #![trigger leaf_at(v, p)] #![trigger lookup(m, p)] p.len() < d ==> leaf_at(v, p) == lookup(m, p)
}

/// No path of `m` is longer than `d`.
pub open spec fn shallow(m: Leaves, d: nat) -> bool {
    forall|p: Seq<Step>| #[trigger] m.dom().contains(p) ==> p.len() <= d
}

/// The path `b` leaves the path `p` at a key: they run through the same
/// keys and then part at a key of each.
pub open spec fn apart(b: Seq<Step>, p: Seq<Step>) -> bool {
    exists|i: int|
        {
            &&& 0 <= i < b.len()
            &&& i < p.len()
            &&& #[trigger] b.take(i) == p.take(i)
            &&& b[i] != p[i]
            &&& forall|j: int| 0 <= j <= i ==> (#[trigger] b[j]) is Key && p[j] is Key
        }
}

/// No path of `m` reaches `p`: each leaves it at a key (the empty path is
/// that of a tree with no entries at all).
pub open spec fn untouched_by(m: Leaves, p: Seq<Step>) -> bool {
    forall|b: Seq<Step>| #[trigger] m.dom().contains(b) ==> b.len() == 0 || apart(b, p)
}

/// A key that the `config` crate takes as itself when it reads the top
/// level of a source: it holds no `.` and no `[`.
pub open spec fn plain_key(k: Seq<char>) -> bool {
    forall|i: int| 0 <= i < k.len() ==> #[trigger] k[i] != '.' && k[i] != '['
}

/// Every top-level key of `m` is plain.
pub open spec fn plain_top(m: Leaves) -> bool {
    forall|b: Seq<Step>| #[trigger] m.dom().contains(b) ==> b.len() == 0 || (b[0] matches Step::Key(k) && plain_key(k))
}

/// The path of a key `section.key` (or of a single key).
pub open spec fn simple_steps(k: Seq<char>) -> Seq<Step> {
    match crate::text::spec_split_once(k, '.') {
        Some((a, b)) => seq![Step::Key(a), Step::Key(b)],
        None => seq![Step::Key(k)],
    }
}

/// The last entry of `t` under the key `k`, as `table_get` finds it; its
/// index when there is one.
pub open spec fn last_index<T>(t: Seq<(String, T)>, k: Seq<char>) -> int
    decreases t.len(),
{
    if t.len() == 0 {
        -1
    } else if t.last().0@ == k {
        t.len() - 1
    } else {
        last_index(t.drop_last(), k)
    }
}

/// `last_index` finds the last entry under `k`, or none.
pub proof fn lemma_last_index<T>(t: Seq<(String, T)>, k: Seq<char>)
    ensures
        -1 <= last_index(t, k) < t.len(),
        last_index(t, k) >= 0 ==> t[last_index(t, k)].0@ == k,
        forall|j: int| last_index(t, k) < j < t.len() ==> (#[trigger] t[j]).0@ != k,
    decreases t.len(),
{
    if t.len() > 0 && t.last().0@ != k {
        lemma_last_index(t.drop_last(), k);
        assert forall|j: int| last_index(t, k) < j < t.len() implies (#[trigger] t[j]).0@ != k by {
            if j < t.len() - 1 {
                assert(t[j] == t.drop_last()[j]);
            }
        }
    }
}

/// Two tables with the same keys in the same order find the same entry.
pub proof fn lemma_last_index_keys<T, U>(t: Seq<(String, T)>, u: Seq<(String, U)>, k: Seq<char>)
    requires
        t.len() == u.len(),
        forall|j: int| 0 <= j < t.len() ==> (#[trigger] t[j]).0@ == u[j].0@,
    ensures
        last_index(t, k) == last_index(u, k),
    decreases t.len(),
{
    if t.len() > 0 {
        assert(t.last().0@ == u.last().0@);
        lemma_last_index_keys(t.drop_last(), u.drop_last(), k);
    }
}

/// `table_get` gives the entry that `last_index` finds.
pub proof fn lemma_table_get_index(t: Seq<(String, ConfigValue)>, k: Seq<char>)
    ensures
        table_get(t, k) == if last_index(t, k) >= 0 {
            Some(t[last_index(t, k)].1)
        } else {
            None::<ConfigValue>
        },
    decreases t.len(),
{
    if t.len() > 0 && t.last().0@ != k {
        lemma_table_get_index(t.drop_last(), k);
        lemma_last_index(t.drop_last(), k);
    }
}

} // verus!
