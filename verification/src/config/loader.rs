//! Configuration loading from multiple sources.
//!
//! # Loader Pipeline
//!
//! ```text
//! ConfigLoader::new()
//!   .add_toml_file(req)
//!   .add_toml_file(opt)
//!   .add_toml_str()
//!   .with_env_prefix()
//!   .set()
//!        |
//!        v
//!    build() --> Config
//! ```
//!
//! The `config` crate reads and merges the sources; the merged tree is then
//! read into a `Config` (see `decode`) and its paths are resolved.

use vstd::prelude::*;
use vstd::std_specs::convert::IntoSpec;

use super::decode::{config_ok, entries_of, is_config};
use super::leaves::{
    agrees, agrees_below, apart, last_index, leaf_at, lemma_last_index, lemma_last_index_keys, lemma_table_get_index, lookup,
    plain_top, shallow, simple_steps, untouched_by, Leaf, Leaves, Step,
};
use super::paths::PathsConfig;
use super::value::{within_depth, ConfigValue};
use super::Config;
use crate::error::ConfigError;
use crate::text::{
    concat2, concat3, lower_seq, opt_view, owned, spec_parse_u64, spec_split_once, starts_with, str_eq, u64_to_string,
};

verus! {

/// The builder of the `config` crate that the loader fills
/// (`config::ConfigBuilder<DefaultState>`), held whole.
#[verifier::external_body]
pub struct Builder {
    inner: ::config::ConfigBuilder<::config::builder::DefaultState>,
}

/// A configuration source, as registered with the builder.
pub enum SourceSpec {
    /// A TOML file; a required one must exist when the configuration is built.
    TomlFile { path: Seq<char>, required: bool },
    /// TOML text.
    TomlText { content: Seq<char> },
    /// The environment variables whose names start with `<prefix>_`, read
    /// by the `config` crate with every further `_` separating path levels.
    Environment { prefix: Seq<char> },
}

/// A value given to override one key.
#[derive(Debug, Clone, PartialEq, Eq)]
pub enum OverrideValue {
    /// A boolean.
    Bool(bool),
    /// An integer.
    Int(i64),
    /// A string.
    Text(String),
}

/// What an override value holds, as plain values.
pub enum OverrideView {
    /// A boolean.
    Bool(bool),
    /// An integer.
    Int(i64),
    /// A string.
    Text(Seq<char>),
}

impl View for OverrideValue {
    type V = OverrideView;

    open spec fn view(&self) -> OverrideView {
        match self {
            OverrideValue::Bool(b) => OverrideView::Bool(*b),
            OverrideValue::Int(n) => OverrideView::Int(*n),
            OverrideValue::Text(t) => OverrideView::Text(t@),
        }
    }
}

impl From<bool> for OverrideValue {
    fn from(b: bool) -> (r: OverrideValue) {
        OverrideValue::Bool(b)
    }
}

impl vstd::std_specs::convert::FromSpecImpl<bool> for OverrideValue {
    open spec fn obeys_from_spec() -> bool {
        true
    }

    open spec fn from_spec(b: bool) -> OverrideValue {
        OverrideValue::Bool(b)
    }
}

impl From<i64> for OverrideValue {
    fn from(n: i64) -> (r: OverrideValue) {
        OverrideValue::Int(n)
    }
}

impl vstd::std_specs::convert::FromSpecImpl<i64> for OverrideValue {
    open spec fn obeys_from_spec() -> bool {
        true
    }

    open spec fn from_spec(n: i64) -> OverrideValue {
        OverrideValue::Int(n)
    }
}

impl From<String> for OverrideValue {
    fn from(s: String) -> (r: OverrideValue) {
        OverrideValue::Text(s)
    }
}

impl vstd::std_specs::convert::FromSpecImpl<String> for OverrideValue {
    open spec fn obeys_from_spec() -> bool {
        true
    }

    open spec fn from_spec(s: String) -> OverrideValue {
        OverrideValue::Text(s)
    }
}

/// The sources registered with a builder, in the order they were added.
pub uninterp spec fn builder_sources(b: Builder) -> Seq<SourceSpec>;

/// The overrides registered with a builder, by the path each sets: the
/// builder keeps them in a map, so an override of a path that was set
/// before replaces it.
pub uninterp spec fn builder_overrides(b: Builder) -> Map<Seq<char>, OverrideView>;

/// The path that the `config` crate reads from the override key `key`
/// (`Expression::from_str`), in a form that two keys share exactly when
/// they name the same path; `None` when it does not accept `key`.
pub uninterp spec fn override_path(key: Seq<char>) -> Option<Seq<char>>;

/// The path that the override key `key` sets, where it is accepted.
pub open spec fn path_of(key: Seq<char>) -> Seq<char> {
    override_path(key)->0
}

/// A character of an identifier in an override path: an ASCII letter or
/// digit, `_` or `-`.
pub open spec fn is_ident_char(c: char) -> bool {
    ||| 97 <= (c as u32) <= 122
    ||| 65 <= (c as u32) <= 90
    ||| 48 <= (c as u32) <= 57
    ||| c == '_'
    ||| c == '-'
}

/// A non-empty identifier.
pub open spec fn is_ident(s: Seq<char>) -> bool {
    s.len() > 0 && forall|i: int| 0 <= i < s.len() ==> is_ident_char(#[trigger] s[i])
}

/// A path of two identifiers, `section.key`.
pub open spec fn simple_path(k: Seq<char>) -> bool {
    exists|a: Seq<char>, b: Seq<char>| is_ident(a) && is_ident(b) && k == a + "."@ + b
}

/// `config::Config::builder()`: a builder with no sources and no overrides.
#[verifier::external_body]
fn new_builder() -> (b: Builder)
    ensures
        builder_sources(b) == Seq::<SourceSpec>::empty(),
        builder_overrides(b).dom() == Set::<Seq<char>>::empty(),
{
    Builder { inner: ::config::Config::builder() }
}

/// `ConfigBuilder::add_source` with a TOML `config::File` for `path`: the
/// file is added after the sources already registered.
#[verifier::external_body]
fn add_file_source(b: Builder, path: &str, required: bool) -> (r: Builder)
    ensures
        builder_sources(r) == builder_sources(b).push(SourceSpec::TomlFile { path: path@, required }),
        builder_overrides(r) == builder_overrides(b),
{
    Builder {
        inner: b.inner.add_source(
            ::config::File::from(std::path::Path::new(path)).format(::config::FileFormat::Toml).required(required),
        ),
    }
}

/// `ConfigBuilder::add_source` with `config::File::from_str` for TOML text.
#[verifier::external_body]
fn add_text_source(b: Builder, content: &str) -> (r: Builder)
    ensures
        builder_sources(r) == builder_sources(b).push(SourceSpec::TomlText { content: content@ }),
        builder_overrides(r) == builder_overrides(b),
{
    Builder { inner: b.inner.add_source(::config::File::from_str(content, ::config::FileFormat::Toml)) }
}

/// `ConfigBuilder::add_source` with `config::Environment::with_prefix(prefix)`,
/// `_` as the separator and values parsed into booleans and numbers where
/// they read as one.
#[verifier::external_body]
fn add_env_source(b: Builder, prefix: &str) -> (r: Builder)
    ensures
        builder_sources(r) == builder_sources(b).push(SourceSpec::Environment { prefix: prefix@ }),
        builder_overrides(r) == builder_overrides(b),
{
    Builder {
        inner: b.inner.add_source(::config::Environment::with_prefix(prefix).separator("_").try_parsing(true)),
    }
}

/// `ConfigBuilder::set_override`: when the crate accepts `key` as a path,
/// the value is inserted into the builder's map of overrides under that
/// path (replacing one set before); the builder is consumed either way. An
/// error is given as its text. A key of two identifiers joined by `.` is
/// accepted as that path (the parser of `config::path` reads identifiers of
/// ASCII letters, digits, `_` and `-`, joined by `.`).
#[verifier::external_body]
fn set_builder_override(b: Builder, key: &str, value: OverrideValue) -> (r: Result<Builder, String>)
    ensures
        r is Ok <==> override_path(key@) is Some,
        r matches Ok(nb) ==> builder_sources(nb) == builder_sources(b) && builder_overrides(nb)
            == builder_overrides(b).insert(path_of(key@), value@),
        r is Ok || !simple_path(key@),
        r matches Ok(nb) ==> builder_overrides(nb) == builder_overrides(b).insert(key@, value@) || !simple_path(key@),
{
    let r = match value {
        OverrideValue::Bool(x) => b.inner.set_override(key, x),
        OverrideValue::Int(x) => b.inner.set_override(key, x),
        OverrideValue::Text(x) => b.inner.set_override(key, x),
    };
    r.map(|inner| Builder { inner }).map_err(|e| e.to_string())
}

/// The leaves that the text source `s` holds, where it is one and parses.
pub open spec fn text_leaves(s: SourceSpec) -> Option<Leaves> {
    match s {
        SourceSpec::TomlText { content } => toml_leaves(content),
        _ => None,
    }
}

/// `s` is TOML text that parses, with plain top-level keys.
pub open spec fn plain_text(s: SourceSpec) -> bool {
    text_leaves(s) matches Some(m) && plain_top(m)
}

/// Every text source among `srcs` parses.
pub open spec fn texts_parse(srcs: Seq<SourceSpec>) -> bool {
    forall|i: int| 0 <= i < srcs.len() ==> (#[trigger] srcs[i] is TomlText ==> text_leaves(srcs[i]) is Some)
}

/// Every source of `srcs` is TOML text.
pub open spec fn all_texts(srcs: Seq<SourceSpec>) -> bool {
    forall|i: int| 0 <= i < srcs.len() ==> #[trigger] srcs[i] is TomlText
}

/// Every override sets a key `section.key`.
pub open spec fn simple_overrides(ovs: Map<Seq<char>, OverrideView>) -> bool {
    forall|k: Seq<char>| #[trigger] ovs.dom().contains(k) ==> simple_path(k)
}

/// The leaf an override sets.
pub open spec fn override_leaf(o: OverrideView) -> Leaf {
    match o {
        OverrideView::Bool(b) => Leaf::Boolean(b),
        OverrideView::Int(n) => Leaf::I64(n),
        OverrideView::Text(t) => Leaf::Str(t),
    }
}

/// The text source `srcs[j]` sets the leaf at `p` (other than an empty
/// table), every later source is TOML text that does not reach `p`, and
/// every override sets a `section.key` that does not reach `p`.
pub open spec fn text_decides(srcs: Seq<SourceSpec>, ovs: Map<Seq<char>, OverrideView>, j: int, p: Seq<Step>) -> bool {
    &&& 0 <= j < srcs.len()
    &&& plain_text(srcs[j])
    &&& lookup(text_leaves(srcs[j])->0, p) matches Some(l) && l != Leaf::EmptyTable
    &&& forall|k: int|
        j < k < srcs.len() ==> plain_text(#[trigger] srcs[k]) && untouched_by(text_leaves(srcs[k])->0, p)
    &&& forall|o: Seq<char>| #[trigger] ovs.dom().contains(o) ==> simple_path(o) && apart(simple_steps(o), p)
}

/// What the `config` crate builds from the sources `srcs`, merged in order
/// into an empty table (a table merges into a table key by key; anything
/// else replaces what was there), and the overrides set over them: `m` are
/// the leaves of the result.
/// - With no sources and no overrides, the result is an empty table.
/// - With one source of TOML text with plain top-level keys and no
///   overrides, the result holds the text's leaves.
/// - Where every override sets a `section.key`, each holds its value.
/// - A leaf that a text source sets stays where no later source and no
///   override reaches it.
pub open spec fn built_from(m: Leaves, srcs: Seq<SourceSpec>, ovs: Map<Seq<char>, OverrideView>) -> bool {
    &&& (srcs.len() == 0 && ovs.dom() == Set::<Seq<char>>::empty()) ==> m == map![Seq::<Step>::empty() => Leaf::EmptyTable]
    &&& (srcs.len() == 1 && ovs.dom() == Set::<Seq<char>>::empty() && plain_text(srcs[0])) ==> m == text_leaves(srcs[0])->0
    &&& simple_overrides(ovs) ==> forall|k: Seq<char>|
        #[trigger] ovs.dom().contains(k) ==> lookup(m, simple_steps(k)) == Some(override_leaf(ovs[k]))
    &&& forall|j: int, p: Seq<Step>|
        #[trigger] text_decides(srcs, ovs, j, p) ==> lookup(m, p) == lookup(text_leaves(srcs[j])->0, p)
}

/// `ConfigBuilder::build`: reads every source in order into an empty table,
/// each merged over what came before, then sets the overrides
/// (`build_internal`), giving the merged value tree (`config::Config::cache`)
/// or the text of the error. A text source that does not parse fails the
/// build; a build from text sources alone that all parse succeeds. What the
/// files and the environment hold is not stated: it depends on the disk and
/// the process.
#[verifier::external_body]
fn build_sources(b: Builder) -> (r: Result<::config::Value, String>)
    ensures
        r matches Ok(v) ==> built_from(value_leaves(v), builder_sources(b), builder_overrides(b)),
        r is Err || forall|i: int|
            0 <= i < builder_sources(b).len() ==> (#[trigger] builder_sources(b)[i] matches SourceSpec::TomlText { content }
                ==> toml_leaves(content) is Some),
        r is Ok || !(all_texts(builder_sources(b)) && texts_parse(builder_sources(b))),
{
    match b.inner.build() {
        Ok(c) => Ok(c.cache),
        Err(e) => Err(e.to_string()),
    }
}

/// One level of a value of the `config` crate: scalars as plain values, and
/// the children of tables and arrays still to be read.
pub enum RawNode {
    Nil,
    Boolean(bool),
    I64(i64),
    I128(i128),
    U64(u64),
    U128(u128),
    Float { text: String, truthy: bool, rounded: u64 },
    Str(String),
    Table(Vec<(String, ::config::Value)>),
    Array(Vec<::config::Value>),
}

/// What a value of the `config` crate holds, as its leaves (see `leaves`).
pub uninterp spec fn value_leaves(v: ::config::Value) -> Map<Seq<Step>, Leaf>;

/// The leaves of the TOML document `text` as the `config` crate reads it
/// (`config::File::from_str` with `FileFormat::Toml`), its keys as written;
/// `None` when it is not valid TOML or holds a number the crate refuses.
pub uninterp spec fn toml_leaves(text: Seq<char>) -> Option<Map<Seq<Step>, Leaf>>;

/// The leaf at `p` below the table entries `t`: under the last entry of the
/// path's first key.
pub open spec fn table_leaf(t: Seq<(String, ::config::Value)>, p: Seq<Step>) -> Option<Leaf> {
    if p.len() == 0 {
        None
    } else {
        match p[0] {
            Step::Key(k) => if last_index(t, k) >= 0 {
                lookup(value_leaves(t[last_index(t, k)].1), p.drop_first())
            } else {
                None
            },
            Step::Index(_) => None,
        }
    }
}

/// The leaf at `p` below the array items `a`.
pub open spec fn array_leaf(a: Seq<::config::Value>, p: Seq<Step>) -> Option<Leaf> {
    if p.len() == 0 {
        None
    } else {
        match p[0] {
            Step::Index(i) => if 0 <= i < a.len() {
                lookup(value_leaves(a[i]), p.drop_first())
            } else {
                None
            },
            Step::Key(_) => None,
        }
    }
}

/// `m` holds at least one leaf.
pub open spec fn nonempty(m: Leaves) -> bool {
    exists|p: Seq<Step>| #[trigger] m.dom().contains(p)
}

/// The leaves `m` are those of a value split into `node`: a scalar at the
/// empty path; a table or an array without entries as such; otherwise the
/// leaves of the children under their keys or positions.
pub open spec fn node_holds(node: RawNode, m: Leaves) -> bool {
    &&& nonempty(m)
    &&& match node {
        RawNode::Nil => m == map![Seq::<Step>::empty() => Leaf::Nil],
        RawNode::Boolean(b) => m == map![Seq::<Step>::empty() => Leaf::Boolean(b)],
        RawNode::I64(n) => m == map![Seq::<Step>::empty() => Leaf::I64(n)],
        RawNode::I128(n) => m == map![Seq::<Step>::empty() => Leaf::I128(n)],
        RawNode::U64(n) => m == map![Seq::<Step>::empty() => Leaf::U64(n)],
        RawNode::U128(n) => m == map![Seq::<Step>::empty() => Leaf::U128(n)],
        RawNode::Float { text, .. } => m == map![Seq::<Step>::empty() => Leaf::Float(text@)],
        RawNode::Str(s) => m == map![Seq::<Step>::empty() => Leaf::Str(s@)],
        RawNode::Table(t) => if t@.len() == 0 {
            m == map![Seq::<Step>::empty() => Leaf::EmptyTable]
        } else {
            forall|p: Seq<Step>| #[trigger] lookup(m, p) == table_leaf(t@, p)
        },
        RawNode::Array(a) => if a@.len() == 0 {
            m == map![Seq::<Step>::empty() => Leaf::EmptyArray]
        } else {
            forall|p: Seq<Step>| #[trigger] lookup(m, p) == array_leaf(a@, p)
        },
    }
}

/// A floating-point `config::Value` as what is read from it: its text
/// (`into_string`), and how `into_bool` and `into_uint` read it (neither
/// fails on a float).
#[verifier::external_body]
fn float_node(v: ::config::Value) -> RawNode {
    RawNode::Float {
        text: v.clone().into_string().unwrap_or_default(),
        truthy: v.clone().into_bool().unwrap_or_default(),
        rounded: v.into_uint().unwrap_or_default(),
    }
}

/// Splits a `config::Value` by its `ValueKind`; a table's entries come in
/// the order its map gives them. What comes back holds the value's leaves.
#[verifier::external_body]
fn raw_node(v: ::config::Value) -> (r: RawNode)
    ensures
        node_holds(r, value_leaves(v)),
{
    match v.kind {
        ::config::ValueKind::Nil => RawNode::Nil,
        ::config::ValueKind::Boolean(b) => RawNode::Boolean(b),
        ::config::ValueKind::I64(n) => RawNode::I64(n),
        ::config::ValueKind::I128(n) => RawNode::I128(n),
        ::config::ValueKind::U64(n) => RawNode::U64(n),
        ::config::ValueKind::U128(n) => RawNode::U128(n),
        ::config::ValueKind::Float(f) => float_node(::config::Value::from(f)),
        ::config::ValueKind::String(s) => RawNode::Str(s),
        ::config::ValueKind::Table(t) => RawNode::Table(t.into_iter().collect()),
        ::config::ValueKind::Array(a) => RawNode::Array(a),
    }
}

/// `r` holds what `node` holds: the same scalar; for a table, the same keys
/// in the same order (none at depth zero); for an array, as many items
/// (none at depth zero).
pub open spec fn reads_node(r: ConfigValue, node: RawNode, depth: nat) -> bool {
    match node {
        RawNode::Nil => r == ConfigValue::Nil,
        RawNode::Boolean(b) => r == ConfigValue::Boolean(b),
        RawNode::I64(n) => r == ConfigValue::I64(n),
        RawNode::I128(n) => r == ConfigValue::I128(n),
        RawNode::U64(n) => r == ConfigValue::U64(n),
        RawNode::U128(n) => r == ConfigValue::U128(n),
        RawNode::Float { text, truthy, rounded } => r == ConfigValue::Float { text, truthy, rounded },
        RawNode::Str(s) => r == ConfigValue::Str(s),
        RawNode::Table(entries) => r matches ConfigValue::Table(t) && t@.len() == (if depth == 0 {
            0
        } else {
            entries@.len()
        }) && forall|i: int| 0 <= i < t@.len() ==> (#[trigger] t@[i]).0@ == entries@[i].0@,
        RawNode::Array(items) => r matches ConfigValue::Array(a) && a@.len() == (if depth == 0 {
            0
        } else {
            items@.len()
        }),
    }
}

/// A table read from `all` whose children agree with theirs holds the
/// leaves of the table.
proof fn lemma_table_agrees(v: ConfigValue, all: Seq<(String, ::config::Value)>, m: Leaves, depth: nat)
    requires
        depth > 0,
        all.len() > 0,
        v matches ConfigValue::Table(t) && t@.len() == all.len() && (forall|j: int|
            0 <= j < all.len() ==> (#[trigger] t@[j]).0@ == all[j].0@ && (shallow(
                value_leaves(all[j].1),
                (depth - 1) as nat,
            ) ==> agrees(t@[j].1, value_leaves(all[j].1)))),
        forall|p: Seq<Step>| #[trigger] lookup(m, p) == table_leaf(all, p),
        shallow(m, depth),
    ensures
        agrees(v, m),
{
    let t = v->Table_0@;
    assert forall|p: Seq<Step>| #![trigger leaf_at(v, p)] #![trigger lookup(m, p)] leaf_at(v, p) == lookup(m, p) by {
        assert(lookup(m, p) == table_leaf(all, p));
        if p.len() > 0 {
            if let Step::Key(k) = p[0] {
                lemma_table_get_index(t, k);
                lemma_last_index_keys(t, all, k);
                lemma_last_index(all, k);
                let i = last_index(all, k);
                if i >= 0 {
                    let c = value_leaves(all[i].1);
                    assert forall|q: Seq<Step>| #[trigger] c.dom().contains(q) implies q.len() <= depth - 1 by {
                        let pq = seq![Step::Key(k)].add(q);
                        assert(pq.drop_first() =~= q);
                        assert(pq[0] == Step::Key(k));
                        assert(lookup(m, pq) == table_leaf(all, pq));
                        assert(m.dom().contains(pq));
                    }
                    assert(agrees(t[i].1, c));
                    assert(leaf_at(t[i].1, p.drop_first()) == lookup(c, p.drop_first()));
                }
            }
        }
    }
}

/// A table read from `all` whose children hold theirs below one level less
/// holds the table's leaves below `depth`.
proof fn lemma_table_below(v: ConfigValue, all: Seq<(String, ::config::Value)>, m: Leaves, depth: nat)
    requires
        depth > 0,
        all.len() > 0,
        v matches ConfigValue::Table(t) && t@.len() == all.len() && (forall|j: int|
            0 <= j < all.len() ==> (#[trigger] t@[j]).0@ == all[j].0@ && agrees_below(
                t@[j].1,
                value_leaves(all[j].1),
                (depth - 1) as nat,
            )),
        forall|p: Seq<Step>| #[trigger] lookup(m, p) == table_leaf(all, p),
    ensures
        agrees_below(v, m, depth),
{
    let t = v->Table_0@;
    assert forall|p: Seq<Step>| #![trigger leaf_at(v, p)] #![trigger lookup(m, p)] p.len() < depth implies leaf_at(v, p)
        == lookup(m, p) by {
        assert(lookup(m, p) == table_leaf(all, p));
        if p.len() > 0 {
            if let Step::Key(k) = p[0] {
                lemma_table_get_index(t, k);
                lemma_last_index_keys(t, all, k);
                lemma_last_index(all, k);
                let i = last_index(all, k);
                if i >= 0 {
                    let c = value_leaves(all[i].1);
                    assert(agrees_below(t[i].1, c, (depth - 1) as nat));
                    assert(leaf_at(t[i].1, p.drop_first()) == lookup(c, p.drop_first()));
                }
            }
        }
    }
}

/// An array read from `all` whose items hold theirs below one level less
/// holds the array's leaves below `depth`.
proof fn lemma_array_below(v: ConfigValue, all: Seq<::config::Value>, m: Leaves, depth: nat)
    requires
        depth > 0,
        all.len() > 0,
        v matches ConfigValue::Array(a) && a@.len() == all.len() && (forall|j: int|
            0 <= j < all.len() ==> agrees_below(#[trigger] a@[j], value_leaves(all[j]), (depth - 1) as nat)),
        forall|p: Seq<Step>| #[trigger] lookup(m, p) == array_leaf(all, p),
    ensures
        agrees_below(v, m, depth),
{
    let a = v->Array_0@;
    assert forall|p: Seq<Step>| #![trigger leaf_at(v, p)] #![trigger lookup(m, p)] p.len() < depth implies leaf_at(v, p)
        == lookup(m, p) by {
        assert(lookup(m, p) == array_leaf(all, p));
        if p.len() > 0 {
            if let Step::Index(i) = p[0] {
                if 0 <= i < all.len() {
                    let c = value_leaves(all[i]);
                    assert(agrees_below(a[i], c, (depth - 1) as nat));
                    assert(leaf_at(a[i], p.drop_first()) == lookup(c, p.drop_first()));
                }
            }
        }
    }
}

/// An array read from `all` whose items agree with theirs holds the leaves
/// of the array.
proof fn lemma_array_agrees(v: ConfigValue, all: Seq<::config::Value>, m: Leaves, depth: nat)
    requires
        depth > 0,
        all.len() > 0,
        v matches ConfigValue::Array(a) && a@.len() == all.len() && (forall|j: int|
            0 <= j < all.len() ==> (shallow(value_leaves(all[j]), (depth - 1) as nat) ==> agrees(
                #[trigger] a@[j],
                value_leaves(all[j]),
            ))),
        forall|p: Seq<Step>| #[trigger] lookup(m, p) == array_leaf(all, p),
        shallow(m, depth),
    ensures
        agrees(v, m),
{
    let a = v->Array_0@;
    assert forall|p: Seq<Step>| #![trigger leaf_at(v, p)] #![trigger lookup(m, p)] leaf_at(v, p) == lookup(m, p) by {
        assert(lookup(m, p) == array_leaf(all, p));
        if p.len() > 0 {
            if let Step::Index(i) = p[0] {
                if 0 <= i < all.len() {
                    let c = value_leaves(all[i]);
                    assert forall|q: Seq<Step>| #[trigger] c.dom().contains(q) implies q.len() <= depth - 1 by {
                        let pq = seq![Step::Index(i)].add(q);
                        assert(pq.drop_first() =~= q);
                        assert(pq[0] == Step::Index(i));
                        assert(lookup(m, pq) == array_leaf(all, pq));
                        assert(m.dom().contains(pq));
                    }
                    assert(agrees(a[i], c));
                    assert(leaf_at(a[i], p.drop_first()) == lookup(c, p.drop_first()));
                }
            }
        }
    }
}

/// At depth zero, a table or an array with children holds leaves below the
/// empty path, so its leaves are not shallow.
proof fn lemma_nested_not_shallow(node: RawNode, m: Leaves)
    requires
        node_holds(node, m),
        node is Table ==> node->Table_0@.len() > 0,
        node is Array ==> node->Array_0@.len() > 0,
        node is Table || node is Array,
    ensures
        !shallow(m, 0),
{
    let p = choose|p: Seq<Step>| #[trigger] m.dom().contains(p);
    if p.len() == 0 {
        assert(p =~= Seq::<Step>::empty());
        assert(lookup(m, p) is Some);
    }
}

/// A scalar holds one leaf, at the empty path.
proof fn lemma_scalar_agrees(v: ConfigValue)
    requires
        !(v is Table || v is Array),
    ensures
        agrees(v, map![Seq::<Step>::empty() => leaf_at(v, Seq::<Step>::empty())->0]),
{
    let m = map![Seq::<Step>::empty() => leaf_at(v, Seq::<Step>::empty())->0];
    assert forall|p: Seq<Step>| #![trigger leaf_at(v, p)] #![trigger lookup(m, p)] leaf_at(v, p) == lookup(m, p) by {
        if p.len() == 0 {
            assert(p =~= Seq::<Step>::empty());
        } else {
            assert(p != Seq::<Step>::empty());
        }
    }
}

/// Reads one level of a value of the `config` crate as a `ConfigValue`, and
/// its children down to `depth` levels of tables and arrays; below that a
/// table or an array is kept without its children. The configuration schema
/// reads five levels. Where the value reaches no deeper than `depth`, what
/// is read holds exactly its leaves.
pub fn plain_value(node: RawNode, depth: u32) -> (r: ConfigValue)
    ensures
        reads_node(r, node, depth as nat),
        within_depth(r, depth as nat),
        forall|m: Leaves| #[trigger] node_holds(node, m) && shallow(m, depth as nat) ==> agrees(r, m),
        forall|m: Leaves| #[trigger] node_holds(node, m) ==> agrees_below(r, m, depth as nat),
    decreases depth,
{
    let ghost n0 = node;
    let r = match node {
        RawNode::Nil => ConfigValue::Nil,
        RawNode::Boolean(b) => ConfigValue::Boolean(b),
        RawNode::I64(n) => ConfigValue::I64(n),
        RawNode::I128(n) => ConfigValue::I128(n),
        RawNode::U64(n) => ConfigValue::U64(n),
        RawNode::U128(n) => ConfigValue::U128(n),
        RawNode::Float { text, truthy, rounded } => ConfigValue::Float { text, truthy, rounded },
        RawNode::Str(s) => ConfigValue::Str(s),
        RawNode::Table(entries) => {
            let ghost all = entries@;
            let mut out: Vec<(String, ConfigValue)> = Vec::new();
            if depth > 0 {
                let mut rest = entries;
                while rest.len() > 0
                    invariant
                        depth > 0,
                        out@.len() + rest@.len() == all.len(),
                        rest@ == all.subrange(out@.len() as int, all.len() as int),
                        forall|i: int| 0 <= i < out@.len() ==> (#[trigger] out@[i]).0@ == all[i].0@,
                        forall|i: int| 0 <= i < out@.len() ==> within_depth(#[trigger] out@[i].1, (depth - 1) as nat),
                        forall|i: int|
                            0 <= i < out@.len() ==> (shallow(value_leaves(all[i].1), (depth - 1) as nat) ==> agrees(
                                #[trigger] out@[i].1,
                                value_leaves(all[i].1),
                            )),
                        forall|i: int|
                            0 <= i < out@.len() ==> agrees_below(
                                #[trigger] out@[i].1,
                                value_leaves(all[i].1),
                                (depth - 1) as nat,
                            ),
                    decreases rest.len(),
                {
                    let ghost before = out@;
                    let (k, child) = rest.remove(0);
                    let ghost cl = value_leaves(child);
                    let cn = raw_node(child);
                    let cv = plain_value(cn, depth - 1);
                    assert(node_holds(cn, cl));
                    out.push((k, cv));
                    proof {
                        assert forall|i: int| 0 <= i < out@.len() implies (#[trigger] out@[i]).0@ == all[i].0@ by {
                            if i < before.len() {
                                assert(out@[i] == before[i]);
                            }
                        }
                        assert forall|i: int|
                            0 <= i < out@.len() implies (shallow(value_leaves(all[i].1), (depth - 1) as nat) ==> agrees(
                                #[trigger] out@[i].1,
                                value_leaves(all[i].1),
                            )) by {
                            if i < before.len() {
                                assert(out@[i] == before[i]);
                            }
                        }
                        assert(rest@ =~= all.subrange(out@.len() as int, all.len() as int));
                    }
                }
            }
            let r = ConfigValue::Table(out);
            proof {
                assert forall|m: Leaves| #[trigger] node_holds(n0, m) && shallow(m, depth as nat) implies agrees(r, m) by {
                    if all.len() == 0 {
                        assert forall|p: Seq<Step>| #![trigger leaf_at(r, p)] #![trigger lookup(m, p)] leaf_at(r, p)
                            == lookup(m, p) by {
                            if p.len() == 0 {
                                assert(p =~= Seq::<Step>::empty());
                            }
                        }
                    } else if depth == 0 {
                        lemma_nested_not_shallow(n0, m);
                    } else {
                        lemma_table_agrees(r, all, m, depth as nat);
                    }
                }
                assert forall|m: Leaves| #[trigger] node_holds(n0, m) implies agrees_below(r, m, depth as nat) by {
                    if all.len() == 0 {
                        assert forall|p: Seq<Step>| #![trigger leaf_at(r, p)] #![trigger lookup(m, p)] leaf_at(r, p)
                            == lookup(m, p) by {
                            if p.len() == 0 {
                                assert(p =~= Seq::<Step>::empty());
                            }
                        }
                    } else if depth > 0 {
                        lemma_table_below(r, all, m, depth as nat);
                    }
                }
            }
            r
        },
        RawNode::Array(items) => {
            let ghost all = items@;
            let mut out: Vec<ConfigValue> = Vec::new();
            if depth > 0 {
                let mut rest = items;
                while rest.len() > 0
                    invariant
                        depth > 0,
                        out@.len() + rest@.len() == all.len(),
                        rest@ == all.subrange(out@.len() as int, all.len() as int),
                        forall|i: int| 0 <= i < out@.len() ==> within_depth(#[trigger] out@[i], (depth - 1) as nat),
                        forall|i: int|
                            0 <= i < out@.len() ==> (shallow(value_leaves(all[i]), (depth - 1) as nat) ==> agrees(
                                #[trigger] out@[i],
                                value_leaves(all[i]),
                            )),
                        forall|i: int|
                            0 <= i < out@.len() ==> agrees_below(#[trigger] out@[i], value_leaves(all[i]), (depth - 1) as nat),
                    decreases rest.len(),
                {
                    let ghost before = out@;
                    let child = rest.remove(0);
                    let ghost cl = value_leaves(child);
                    let cn = raw_node(child);
                    let cv = plain_value(cn, depth - 1);
                    assert(node_holds(cn, cl));
                    out.push(cv);
                    proof {
                        assert forall|i: int|
                            0 <= i < out@.len() implies (shallow(value_leaves(all[i]), (depth - 1) as nat) ==> agrees(
                                #[trigger] out@[i],
                                value_leaves(all[i]),
                            )) by {
                            if i < before.len() {
                                assert(out@[i] == before[i]);
                            }
                        }
                        assert(rest@ =~= all.subrange(out@.len() as int, all.len() as int));
                    }
                }
            }
            let r = ConfigValue::Array(out);
            proof {
                assert forall|m: Leaves| #[trigger] node_holds(n0, m) && shallow(m, depth as nat) implies agrees(r, m) by {
                    if all.len() == 0 {
                        assert forall|p: Seq<Step>| #![trigger leaf_at(r, p)] #![trigger lookup(m, p)] leaf_at(r, p)
                            == lookup(m, p) by {
                            if p.len() == 0 {
                                assert(p =~= Seq::<Step>::empty());
                            }
                        }
                    } else if depth == 0 {
                        lemma_nested_not_shallow(n0, m);
                    } else {
                        lemma_array_agrees(r, all, m, depth as nat);
                    }
                }
                assert forall|m: Leaves| #[trigger] node_holds(n0, m) implies agrees_below(r, m, depth as nat) by {
                    if all.len() == 0 {
                        assert forall|p: Seq<Step>| #![trigger leaf_at(r, p)] #![trigger lookup(m, p)] leaf_at(r, p)
                            == lookup(m, p) by {
                            if p.len() == 0 {
                                assert(p =~= Seq::<Step>::empty());
                            }
                        }
                    } else if depth > 0 {
                        lemma_array_below(r, all, m, depth as nat);
                    }
                }
            }
            r
        },
    };
    proof {
        if !(n0 is Table || n0 is Array) {
            lemma_scalar_agrees(r);
        }
    }
    r
}

/// The levels of a configuration tree that are read.
pub const SCHEMA_DEPTH: u32 = 6;

/// The leaves of the TOML text `content` are known and read whole: it
/// parses, its top-level keys are plain, and it reaches no deeper than the
/// levels that are read.
pub open spec fn text_read(content: Seq<char>) -> bool {
    toml_leaves(content) matches Some(m) && plain_top(m) && shallow(m, SCHEMA_DEPTH as nat)
}

/// `v` is the tree read from the leaves `m` that the `config` crate built
/// from `srcs` and `ovs`: it holds those leaves on every path shorter than
/// the levels that are read, and all of them where the tree reaches no
/// deeper.
pub open spec fn read_from(v: ConfigValue, m: Leaves, srcs: Seq<SourceSpec>, ovs: Map<Seq<char>, OverrideView>) -> bool {
    &&& built_from(m, srcs, ovs)
    &&& agrees_below(v, m, SCHEMA_DEPTH as nat)
    &&& shallow(m, SCHEMA_DEPTH as nat) ==> agrees(v, m)
}

/// `c` is a configuration read from the tree `v` whose paths were then
/// resolved: every section but `paths` as `is_config` says, and the paths
/// read from `[paths]` and resolved against the prefix where one is set.
pub open spec fn loaded_from(c: Config, v: ConfigValue) -> bool {
    exists|c0: Config| {
        &&& is_config(c0, entries_of(v))
        &&& c.global == c0.global
        &&& c.cmake == c0.cmake
        &&& c.aliases == c0.aliases
        &&& c.task == c0.task
        &&& c.tasks == c0.tasks
        &&& c.tools == c0.tools
        &&& c.transifex == c0.transifex
        &&& c.versions == c0.versions
        &&& match opt_view(c0.paths.prefix) {
            Some(prefix) => exists|sep: char|
                (sep == '/' || sep == '\\') && PathsConfig::is_resolution(c.paths, c0.paths, prefix, sep),
            None => c.paths == c0.paths,
        }
    }
}

/// A source as the loader lists it: its kind and its path.
pub open spec fn file_entry(kind: Seq<char>, path: Seq<char>) -> (Seq<char>, Seq<char>) {
    (kind, path)
}

/// Builder for loading configuration from multiple sources.
pub struct ConfigLoader {
    builder: Builder,
    env_prefix: Option<String>,
    files: Vec<(String, String)>,
}

impl ConfigLoader {
    /// The sources registered so far, in order.
    pub closed spec fn sources(&self) -> Seq<SourceSpec> {
        builder_sources(self.builder)
    }

    /// The overrides set so far, by the path each sets.
    pub closed spec fn overrides(&self) -> Map<Seq<char>, OverrideView> {
        builder_overrides(self.builder)
    }

    /// The prefix of the environment variables to read, if any.
    pub closed spec fn env_prefix(&self) -> Option<Seq<char>> {
        opt_view(self.env_prefix)
    }

    /// The sources tracked for display: kind and path.
    pub closed spec fn files(&self) -> Seq<(Seq<char>, Seq<char>)> {
        self.files@.map_values(|e: (String, String)| (e.0@, e.1@))
    }

    /// A loader with no sources.
    pub fn new() -> (r: Self)
        ensures
            r.sources() == Seq::<SourceSpec>::empty(),
            r.overrides() == Map::<Seq<char>, OverrideView>::empty(),
            r.env_prefix() is None,
            r.files() == Seq::<(Seq<char>, Seq<char>)>::empty(),
    {
        let r = ConfigLoader { builder: new_builder(), env_prefix: None, files: Vec::new() };
        assert(r.files() =~= Seq::<(Seq<char>, Seq<char>)>::empty());
        assert(r.overrides() =~= Map::<Seq<char>, OverrideView>::empty());
        r
    }

    /// Adds a TOML configuration file to the loader.
    ///
    /// The file is read when `build()` is called; if it does not exist or is
    /// not valid TOML, `build()` returns an error.
    pub fn add_toml_file(self, path: &str) -> (r: Self)
        ensures
            r.sources() == self.sources().push(SourceSpec::TomlFile { path: path@, required: true }),
            r.overrides() == self.overrides(),
            r.env_prefix() == self.env_prefix(),
            r.files() == self.files().push(file_entry("file"@, path@)),
    {
        let ConfigLoader { builder, env_prefix, mut files } = self;
        files.push((owned("file"), owned(path)));
        let r = ConfigLoader { builder: add_file_source(builder, path, true), env_prefix, files };
        assert(r.files() =~= self.files().push(file_entry("file"@, path@)));
        r
    }

    /// Adds a TOML file that may be missing. It is listed among the loaded
    /// files only if something exists at `path` now (see
    /// `add_toml_file_found`).
    pub fn add_toml_file_optional(self, path: &str) -> (r: Self)
        ensures
            r.sources() == self.sources().push(SourceSpec::TomlFile { path: path@, required: false }),
            r.overrides() == self.overrides(),
            r.env_prefix() == self.env_prefix(),
            r.files() == self.files() || r.files() == self.files().push(file_entry("optional"@, path@)),
    {
        let found = crate::path::path_exists(path);
        self.add_toml_file_found(path, found)
    }

    /// Adds a TOML file that may be missing, listed among the loaded files
    /// exactly when `found` says something is at `path`.
    pub fn add_toml_file_found(self, path: &str, found: bool) -> (r: Self)
        ensures
            r.sources() == self.sources().push(SourceSpec::TomlFile { path: path@, required: false }),
            r.overrides() == self.overrides(),
            r.env_prefix() == self.env_prefix(),
            found ==> r.files() == self.files().push(file_entry("optional"@, path@)),
            !found ==> r.files() == self.files(),
    {
        let ConfigLoader { builder, env_prefix, mut files } = self;
        if found {
            files.push((owned("optional"), owned(path)));
        }
        let r = ConfigLoader { builder: add_file_source(builder, path, false), env_prefix, files };
        assert(found ==> r.files() =~= self.files().push(file_entry("optional"@, path@)));
        assert(!found ==> r.files() =~= self.files());
        r
    }

    /// Adds TOML text to the loader; it is listed as `<string>`.
    pub fn add_toml_str(self, content: &str) -> (r: Self)
        ensures
            r.sources() == self.sources().push(SourceSpec::TomlText { content: content@ }),
            r.overrides() == self.overrides(),
            r.env_prefix() == self.env_prefix(),
            r.files() == self.files().push(file_entry("string"@, "<string>"@)),
    {
        let ConfigLoader { builder, env_prefix, mut files } = self;
        files.push((owned("string"), owned("<string>")));
        let r = ConfigLoader { builder: add_text_source(builder, content), env_prefix, files };
        assert(r.files() =~= self.files().push(file_entry("string"@, "<string>"@)));
        r
    }

    /// Reads the environment variables whose names start with `<prefix>_`
    /// last, over the other sources; the `config` crate reads every further
    /// `_` of a name as a separator of path levels (so `MOB_A_B_C` sets
    /// `a.b.c`). `build_config_loader` reads `MOB_` variables itself instead
    /// (see `env_override`).
    pub fn with_env_prefix(self, prefix: &str) -> (r: Self)
        ensures
            r.sources() == self.sources(),
            r.overrides() == self.overrides(),
            r.env_prefix() == Some(prefix@),
            r.files() == self.files(),
    {
        ConfigLoader { env_prefix: Some(owned(prefix)), ..self }
    }

    /// Sets a configuration override.
    ///
    /// # Errors
    ///
    /// Returns `ConfigError::LoadFailed` if the `config` crate does not
    /// accept `key` as a path.
    pub fn set<T: Into<OverrideValue>>(self, key: &str, value: T) -> (r: Result<Self, ConfigError>)
        ensures
            r is Ok <==> override_path(key@) is Some,
            simple_path(key@) ==> r is Ok,
            r matches Ok(l) ==> {
                &&& l.sources() == self.sources()
                &&& l.env_prefix() == self.env_prefix()
                &&& l.files() == self.files()
                &&& exists|v: OverrideView|
                    {
                        &&& l.overrides() == self.overrides().insert(path_of(key@), v)
                        &&& (simple_path(key@) ==> l.overrides() == self.overrides().insert(key@, v))
                        &&& (T::obeys_into_spec() ==> v == value.into_spec()@)
                    }
            },
    {
        let ConfigLoader { builder, env_prefix, files } = self;
        let ghost spec_v = value.into_spec();
        let v: OverrideValue = value.into();
        let ghost vv = v@;
        assert(T::obeys_into_spec() ==> vv == spec_v@);
        match set_builder_override(builder, key, v) {
            Ok(b) => {
                let r = ConfigLoader { builder: b, env_prefix, files };
                proof {
                    assert(r.overrides() == self.overrides().insert(path_of(key@), vv));
                    if simple_path(key@) {
                        assert(r.overrides() == self.overrides().insert(key@, vv));
                    }
                    assert({
                        &&& r.overrides() == self.overrides().insert(path_of(key@), vv)
                        &&& (simple_path(key@) ==> r.overrides() == self.overrides().insert(key@, vv))
                        &&& (T::obeys_into_spec() ==> vv == spec_v@)
                    });
                }
                Ok(r)
            },
            Err(t) => Err(ConfigError::LoadFailed(concat2("Config error: ", t.as_str()))),
        }
    }

    /// The sources that `build` hands to the `config` crate: those added,
    /// then the environment variables under the prefix where one is set.
    pub open spec fn final_sources(&self) -> Seq<SourceSpec> {
        match self.env_prefix() {
            Some(p) => self.sources().push(SourceSpec::Environment { prefix: p }),
            None => self.sources(),
        }
    }

    /// Builds the configuration from all added sources, the environment
    /// variables last, then the overrides: the `config` crate merges them
    /// into one tree (see `built_from`), which is read into a `Config` and
    /// whose paths are resolved.
    ///
    /// # Errors
    ///
    /// Returns `ConfigError::LoadFailed` if a required file is missing, a
    /// file or a text is not valid TOML, or a source cannot be read;
    /// `ConfigError::InvalidValue` if the merged configuration does not
    /// match the `Config` structure.
    pub fn build(self) -> (r: Result<Config, ConfigError>)
        ensures
            !texts_parse(self.final_sources()) ==> r is Err,
            r matches Ok(c) ==> exists|v: ConfigValue, m: Leaves|
                read_from(v, m, self.final_sources(), self.overrides()) && config_ok(v) && loaded_from(c, v),
            (all_texts(self.final_sources()) && texts_parse(self.final_sources())) ==> exists|v: ConfigValue, m: Leaves|
                {
                    &&& read_from(v, m, self.final_sources(), self.overrides())
                    &&& (r is Ok <==> config_ok(v))
                    &&& (r matches Ok(c) ==> loaded_from(c, v))
                },
            (self.final_sources().len() == 0 && self.overrides().dom() == Set::<Seq<char>>::empty()) ==> (r matches Ok(
                c,
            ) && exists|v: ConfigValue| agrees(v, map![Seq::<Step>::empty() => Leaf::EmptyTable]) && loaded_from(c, v)),
    {
        let ghost fs = self.final_sources();
        let ghost ovs = self.overrides();
        let builder = self.final_builder();
        match build_sources(builder) {
            Ok(root) => {
                let ghost m = value_leaves(root);
                let node = raw_node(root);
                let tree = plain_value(node, SCHEMA_DEPTH);
                assert(node_holds(node, m));
                let r = Config::from_tree(&tree);
                proof {
                    assert(read_from(tree, m, fs, ovs));
                    if fs.len() == 0 && ovs.dom() == Set::<Seq<char>>::empty() {
                        let e = map![Seq::<Step>::empty() => Leaf::EmptyTable];
                        assert(m == e);
                        assert(shallow(m, SCHEMA_DEPTH as nat)) by {
                            assert forall|p: Seq<Step>| #[trigger] m.dom().contains(p) implies p.len() <= SCHEMA_DEPTH by {
                                assert(p == Seq::<Step>::empty());
                            }
                        }
                        assert(agrees(tree, e));
                        assert(leaf_at(tree, Seq::<Step>::empty()) == lookup(e, Seq::<Step>::empty()));
                        assert(config_ok(tree));
                    }
                }
                r
            },
            Err(t) => {
                proof {
                    if !texts_parse(fs) {
                    } else {
                        assert(!all_texts(fs) || !texts_parse(fs));
                    }
                }
                Err(ConfigError::LoadFailed(t))
            },
        }
    }

    /// The builder that `build` hands to the `config` crate: the sources in
    /// order, then the environment variables under the prefix where one is
    /// set, and the overrides.
    pub fn final_builder(self) -> (b: Builder)
        ensures
            builder_sources(b) == match self.env_prefix() {
                Some(p) => self.sources().push(SourceSpec::Environment { prefix: p }),
                None => self.sources(),
            },
            builder_overrides(b) == self.overrides(),
    {
        let ConfigLoader { builder, env_prefix, files: _ } = self;
        match &env_prefix {
            Some(prefix) => add_env_source(builder, prefix.as_str()),
            None => builder,
        }
    }

    /// The sources tracked for display, as (kind, path) pairs.
    pub fn loaded_files(&self) -> (r: Vec<(String, String)>)
        ensures
            r@.map_values(|e: (String, String)| (e.0@, e.1@)) == self.files(),
    {
        let mut out: Vec<(String, String)> = Vec::new();
        let mut i: usize = 0;
        while i < self.files.len()
            invariant
                i <= self.files@.len(),
                out@.len() == i,
                forall|j: int| 0 <= j < i ==> #[trigger] out@[j].0@ == self.files@[j].0@ && out@[j].1@ == self.files@[j].1@,
            decreases self.files.len() - i,
        {
            let (a, b) = (self.files[i].0.clone(), self.files[i].1.clone());
            out.push((a, b));
            i = i + 1;
        }
        assert(out@.map_values(|e: (String, String)| (e.0@, e.1@)) =~= self.files());
        out
    }

    /// The tracked sources as numbered lines: `<n>. [<kind>] <path>`,
    /// counting from 1.
    pub fn format_loaded_files(&self) -> (r: Vec<String>)
        requires
            self.files().len() < u64::MAX,
        ensures
            r@.len() == self.files().len(),
            forall|i: int|
                0 <= i < r@.len() ==> #[trigger] r@[i]@ == crate::text::dec((i + 1) as nat) + ". ["@
                    + self.files()[i].0 + "] "@ + self.files()[i].1,
    {
        let mut out: Vec<String> = Vec::new();
        let mut i: usize = 0;
        while i < self.files.len()
            invariant
                i <= self.files@.len(),
                self.files@.len() < u64::MAX,
                out@.len() == i,
                forall|j: int|
                    0 <= j < i ==> #[trigger] out@[j]@ == crate::text::dec((j + 1) as nat) + ". ["@
                        + self.files()[j].0 + "] "@ + self.files()[j].1,
            decreases self.files.len() - i,
        {
            let mut line = u64_to_string(i as u64 + 1);
            line.append(". [");
            line.append(self.files[i].0.as_str());
            line.append("] ");
            line.append(self.files[i].1.as_str());
            out.push(line);
            i = i + 1;
        }
        out
    }
}

impl Default for ConfigLoader {
    fn default() -> (r: Self)
        ensures
            r.sources() == Seq::<SourceSpec>::empty(),
            r.overrides() == Map::<Seq<char>, OverrideView>::empty(),
            r.env_prefix() is None,
            r.files() == Seq::<(Seq<char>, Seq<char>)>::empty(),
    {
        ConfigLoader::new()
    }
}

impl Config {
    /// Reads a merged value tree into a configuration and resolves its
    /// paths against the prefix.
    ///
    /// # Errors
    ///
    /// Returns an error if the tree does not match the `Config` structure.
    pub fn from_tree(tree: &ConfigValue) -> (r: Result<Config, ConfigError>)
        ensures
            r is Ok <==> config_ok(*tree),
            r matches Ok(c) ==> loaded_from(c, *tree),
    {
        match Config::from_value(tree) {
            Ok(c) => {
                let mut c = c;
                match c.resolve_and_validate() {
                    Ok(()) => {},
                    Err(e) => return Err(e),
                }
                assert(loaded_from(c, *tree));
                Ok(c)
            },
            Err(e) => Err(e),
        }
    }

    /// Creates a new configuration loader.
    pub fn builder() -> (r: ConfigLoader)
        ensures
            r.sources() == Seq::<SourceSpec>::empty(),
            r.overrides() == Map::<Seq<char>, OverrideView>::empty(),
            r.env_prefix() is None,
            r.files() == Seq::<(Seq<char>, Seq<char>)>::empty(),
    {
        ConfigLoader::new()
    }

    /// Loads configuration from a single TOML file.
    ///
    /// # Errors
    ///
    /// Returns an error if the file cannot be read, contains invalid TOML,
    /// or does not match the `Config` structure.
    pub fn from_file(path: &str) -> (r: Result<Config, ConfigError>)
        ensures
            r matches Ok(c) ==> exists|v: ConfigValue, m: Leaves|
                read_from(v, m, seq![SourceSpec::TomlFile { path: path@, required: true }], Map::empty())
                    && config_ok(v) && loaded_from(c, v),
    {
        let l = Config::file_loader(path);
        assert(l.final_sources() == seq![SourceSpec::TomlFile { path: path@, required: true }]);
        l.build()
    }

    /// The loader that `from_file` builds: the file at `path`, required,
    /// alone.
    pub fn file_loader(path: &str) -> (r: ConfigLoader)
        ensures
            r.sources() == seq![SourceSpec::TomlFile { path: path@, required: true }],
            r.overrides() == Map::<Seq<char>, OverrideView>::empty(),
            r.env_prefix() is None,
    {
        let r = Config::builder().add_toml_file(path);
        assert(r.sources() =~= seq![SourceSpec::TomlFile { path: path@, required: true }]);
        r
    }

    /// The loader that `parse` builds: the TOML text `content` alone.
    pub fn text_loader(content: &str) -> (r: ConfigLoader)
        ensures
            r.sources() == seq![SourceSpec::TomlText { content: content@ }],
            r.overrides() == Map::<Seq<char>, OverrideView>::empty(),
            r.env_prefix() is None,
    {
        let r = Config::builder().add_toml_str(content);
        assert(r.sources() =~= seq![SourceSpec::TomlText { content: content@ }]);
        r
    }

    /// Loads configuration from TOML text: the text's tree is read into a
    /// `Config` (see `text_read` for when that tree is known exactly).
    ///
    /// # Errors
    ///
    /// Returns an error if the text is not valid TOML or does not match the
    /// `Config` structure.
    pub fn parse(content: &str) -> (r: Result<Config, ConfigError>)
        ensures
            toml_leaves(content@) is None ==> r is Err,
            r matches Ok(c) ==> exists|v: ConfigValue|
                config_ok(v) && loaded_from(c, v) && (text_read(content@) ==> agrees(v, toml_leaves(content@)->0)),
            toml_leaves(content@) is Some ==> exists|v: ConfigValue|
                {
                    &&& text_read(content@) ==> agrees(v, toml_leaves(content@)->0)
                    &&& r is Ok <==> config_ok(v)
                    &&& r matches Ok(c) ==> loaded_from(c, v)
                },
    {
        let l = Config::text_loader(content);
        let ghost fs = l.final_sources();
        assert(fs == seq![SourceSpec::TomlText { content: content@ }]);
        assert(l.overrides().dom() == Set::<Seq<char>>::empty());
        assert(texts_parse(fs) <==> toml_leaves(content@) is Some) by {
            assert(fs[0] is TomlText);
        }
        assert(all_texts(fs));
        let r = l.build();
        proof {
            if text_read(content@) {
                assert(plain_text(fs[0]));
            }
        }
        r
    }
}

/// The files listed in `MOBINI`: its entries between `;`, the empty ones
/// skipped, each required.
pub open spec fn listed_files(parts: Seq<Seq<char>>) -> Seq<(Seq<char>, bool)>
    decreases parts.len(),
{
    if parts.len() == 0 {
        Seq::empty()
    } else {
        let rest = listed_files(parts.drop_last());
        if parts.last().len() > 0 {
            rest.push((parts.last(), true))
        } else {
            rest
        }
    }
}

/// The configuration files of a run, lowest priority first, each with
/// whether it must exist: unless `--no-default-inis` is given, the master
/// `mob.toml` in the program's directory `exe_dir` and the files listed in
/// `MOBINI`; then `mob.toml` in the working directory, if it is there; then
/// each file given with `--ini`.
pub open spec fn config_files_spec(
    no_default_inis: bool,
    inis: Seq<Seq<char>>,
    exe_dir: Option<Seq<char>>,
    mobini: Option<Seq<char>>,
    sep: char,
) -> Seq<(Seq<char>, bool)> {
    let defaults = if no_default_inis {
        Seq::empty()
    } else {
        (match exe_dir {
            Some(d) => seq![(crate::path::path_join(d, "mob.toml"@, sep), true)],
            None => Seq::empty(),
        }) + match mobini {
            Some(m) => listed_files(crate::text::split_on(m, ';')),
            None => Seq::empty(),
        }
    };
    defaults + seq![("mob.toml"@, false)] + inis.map_values(|p: Seq<char>| (p, true))
}

/// Files as plain values.
pub open spec fn files_view(f: Seq<(String, bool)>) -> Seq<(Seq<char>, bool)> {
    f.map_values(|e: (String, bool)| (e.0@, e.1))
}

fn push_file(v: &mut Vec<(String, bool)>, path: String, required: bool)
    ensures
        files_view(final(v)@) == files_view(old(v)@).push((path@, required)),
{
    let ghost p = path@;
    v.push((path, required));
    assert(files_view(v@) =~= files_view(old(v)@).push((p, required)));
}

fn str_opt(o: Option<&str>) -> (r: Ghost<Option<Seq<char>>>)
    ensures
        r@ == match o {
            Some(s) => Some(s@),
            None => None,
        },
{
    Ghost(
        match o {
            Some(s) => Some(s@),
            None => None,
        },
    )
}

/// The configuration files of a run, on a platform whose main separator is
/// `sep`.
pub fn config_files(global: &crate::cli::global::GlobalOptions, exe_dir: Option<&str>, mobini: Option<&str>, sep: char) -> (r:
    Vec<(String, bool)>)
    ensures
        files_view(r@) == config_files_spec(
            global.no_default_inis,
            crate::text::views(global.inis@),
            match exe_dir {
                Some(s) => Some(s@),
                None => None,
            },
            match mobini {
                Some(s) => Some(s@),
                None => None,
            },
            sep,
        ),
{
    let mut out: Vec<(String, bool)> = Vec::new();
    if !global.no_default_inis {
        match exe_dir {
            Some(d) => push_file(&mut out, crate::path::join_with(d, "mob.toml", sep), true),
            None => {},
        }
        match mobini {
            Some(m) => {
                let parts = crate::text::split_char(m, ';');
                let ghost head = files_view(out@);
                let mut i: usize = 0;
                while i < parts.len()
                    invariant
                        i <= parts@.len(),
                        files_view(out@) == head + listed_files(crate::text::views(parts@).take(i as int)),
                    decreases parts.len() - i,
                {
                    proof {
                        assert(crate::text::views(parts@).take(i + 1).drop_last() =~= crate::text::views(parts@).take(
                            i as int,
                        ));
                    }
                    if crate::text::char_count(parts[i].as_str()) > 0 {
                        push_file(&mut out, parts[i].clone(), true);
                        assert(files_view(out@) =~= head + listed_files(crate::text::views(parts@).take(i + 1)));
                    }
                    i = i + 1;
                }
                assert(crate::text::views(parts@).take(parts@.len() as int) =~= crate::text::views(parts@));
            },
            None => {},
        }
    }
    let ghost defaults = files_view(out@);
    push_file(&mut out, owned("mob.toml"), false);
    let mut i: usize = 0;
    while i < global.inis.len()
        invariant
            i <= global.inis@.len(),
            files_view(out@) == defaults + seq![("mob.toml"@, false)] + crate::text::views(global.inis@).take(
                i as int,
            ).map_values(|p: Seq<char>| (p, true)),
        decreases global.inis.len() - i,
    {
        push_file(&mut out, global.inis[i].clone(), true);
        assert(crate::text::views(global.inis@).take(i + 1) =~= crate::text::views(global.inis@).take(i as int).push(
            global.inis@[i as int]@,
        ));
        assert(files_view(out@) =~= defaults + seq![("mob.toml"@, false)] + crate::text::views(global.inis@).take(
            i + 1,
        ).map_values(|p: Seq<char>| (p, true)));
        i = i + 1;
    }
    assert(crate::text::views(global.inis@).take(global.inis@.len() as int) =~= crate::text::views(global.inis@));
    let ghost ev = match exe_dir {
        Some(s) => Some(s@),
        None => None,
    };
    let ghost mv = match mobini {
        Some(s) => Some(s@),
        None => None,
    };
    assert(files_view(out@) =~= config_files_spec(
        global.no_default_inis,
        crate::text::views(global.inis@),
        ev,
        mv,
        sep,
    ));
    out
}

/// The configuration key and value that an option `[task:]section/key=value`
/// sets: `section.key`, or `tasks.<task>.key` for an option of the `task`
/// section given for one task; `None` when the option has another form.
pub open spec fn override_entry(s: Seq<char>) -> Option<(Seq<char>, Seq<char>)> {
    match crate::text::spec_split_once(s, '=') {
        None => None,
        Some((lhs, value)) => match crate::text::spec_split_once(lhs, ':') {
            Some((task, rest)) => match crate::text::spec_split_once(rest, '/') {
                Some((section, key)) => if task.len() > 0 && section == "task"@ && key.len() > 0 {
                    Some(("tasks."@ + task + "."@ + key, value))
                } else {
                    None
                },
                None => None,
            },
            None => match crate::text::spec_split_once(lhs, '/') {
                Some((section, key)) => if section.len() > 0 && key.len() > 0 {
                    Some((section + "."@ + key, value))
                } else {
                    None
                },
                None => None,
            },
        },
    }
}

/// The error for an option of another form.
pub open spec fn bad_option_text(s: Seq<char>) -> Seq<char> {
    "bad option '"@ + s + "', expected [task:]section/key=value"@
}

fn bad_option(s: &str) -> (e: ConfigError)
    ensures
        e matches ConfigError::LoadFailed(t) && t@ == bad_option_text(s@),
{
    let mut t = concat2("bad option '", s);
    t.append("', expected [task:]section/key=value");
    ConfigError::LoadFailed(t)
}

/// Reads an option `[task:]section/key=value` as the configuration key it
/// sets and the value.
pub fn parse_override(s: &str) -> (r: Result<(String, String), ConfigError>)
    ensures
        match override_entry(s@) {
            Some((k, v)) => r matches Ok(p) && p.0@ == k && p.1@ == v,
            None => r matches Err(ConfigError::LoadFailed(t)) && t@ == bad_option_text(s@),
        },
{
    let (lhs, value) = match crate::text::split_once(s, '=') {
        Some(p) => p,
        None => return Err(bad_option(s)),
    };
    match crate::text::split_once(lhs.as_str(), ':') {
        Some((task, rest)) => match crate::text::split_once(rest.as_str(), '/') {
            Some((section, key)) => {
                if crate::text::char_count(task.as_str()) > 0 && crate::text::str_eq(section.as_str(), "task")
                    && crate::text::char_count(key.as_str()) > 0 {
                    let mut k = concat3("tasks.", task.as_str(), ".");
                    k.append(key.as_str());
                    Ok((k, value))
                } else {
                    Err(bad_option(s))
                }
            },
            None => Err(bad_option(s)),
        },
        None => match crate::text::split_once(lhs.as_str(), '/') {
            Some((section, key)) => {
                if crate::text::char_count(section.as_str()) > 0 && crate::text::char_count(key.as_str()) > 0 {
                    Ok((concat3(section.as_str(), ".", key.as_str()), value))
                } else {
                    Err(bad_option(s))
                }
            },
            None => Err(bad_option(s)),
        },
    }
}

/// The source a configuration file stands for.
pub open spec fn file_source(f: (Seq<char>, bool)) -> SourceSpec {
    SourceSpec::TomlFile { path: f.0, required: f.1 }
}

/// Whether every option of `opts` has the form `[task:]section/key=value`
/// and sets a key that the `config` crate accepts.
pub open spec fn options_accepted(opts: Seq<Seq<char>>) -> bool {
    forall|i: int| 0 <= i < opts.len() ==> #[trigger] option_accepted(opts[i])
}

/// Whether the option `s` has the form `[task:]section/key=value` and sets a
/// key that the `config` crate accepts.
pub open spec fn option_accepted(s: Seq<char>) -> bool {
    match override_entry(s) {
        Some(e) => override_path(e.0) is Some,
        None => false,
    }
}

/// The overrides `m` with those of the options `opts` set over them, in
/// order: each sets its key's path to its text, replacing what was there.
pub open spec fn with_options(m: Map<Seq<char>, OverrideView>, opts: Seq<Seq<char>>) -> Map<Seq<char>, OverrideView>
    decreases opts.len(),
{
    if opts.len() == 0 {
        m
    } else {
        let prev = with_options(m, opts.drop_last());
        match override_entry(opts.last()) {
            Some(e) => prev.insert(path_of(e.0), OverrideView::Text(e.1)),
            None => prev,
        }
    }
}

/// The key that the option `s` sets.
pub open spec fn option_key(s: Seq<char>) -> Seq<char> {
    match override_entry(s) {
        Some(e) => e.0,
        None => Seq::empty(),
    }
}

/// The text that the option `s` sets its key to.
pub open spec fn option_text(s: Seq<char>) -> Seq<char> {
    match override_entry(s) {
        Some(e) => e.1,
        None => Seq::empty(),
    }
}

/// The last option that sets a path decides its value: whatever the
/// overrides held before (those of the environment, for a run) and whatever
/// earlier options set there, the path holds the text of the last option
/// that sets it.
pub proof fn lemma_last_option_wins(m: Map<Seq<char>, OverrideView>, opts: Seq<Seq<char>>, i: int)
    requires
        0 <= i < opts.len(),
        override_entry(opts[i]) is Some,
        forall|j: int|
            i < j < opts.len() ==> !(#[trigger] override_entry(opts[j]) matches Some(f) && path_of(f.0)
                == path_of(option_key(opts[i]))),
    ensures
        with_options(m, opts).dom().contains(path_of(option_key(opts[i]))),
        with_options(m, opts)[path_of(option_key(opts[i]))] == OverrideView::Text(option_text(opts[i])),
    decreases opts.len(),
{
    if i < opts.len() - 1 {
        let rest = opts.drop_last();
        assert forall|j: int| i < j < rest.len() implies !(#[trigger] override_entry(rest[j]) matches Some(f) && path_of(f.0)
            == path_of(option_key(rest[i]))) by {
            assert(rest[j] == opts[j]);
        }
        lemma_last_option_wins(m, rest, i);
        assert(opts.len() - 1 > i);
        let last = opts[opts.len() - 1];
        assert(last == opts.last());
    }
}

/// How the value of a `MOB_` environment variable is read: `true` or
/// `false` in any case as a boolean, a decimal number that fits as an
/// integer, anything else as text.
pub open spec fn env_value(v: Seq<char>) -> OverrideView {
    if lower_seq(v) == "true"@ {
        OverrideView::Bool(true)
    } else if lower_seq(v) == "false"@ {
        OverrideView::Bool(false)
    } else {
        match spec_parse_u64(v) {
            Some(n) => if n <= i64::MAX {
                OverrideView::Int(n as i64)
            } else {
                OverrideView::Text(v)
            },
            None => OverrideView::Text(v),
        }
    }
}

/// The override that the environment variable `name=value` sets: a name
/// `MOB_<SECTION>_<KEY>` (in any case) sets `section.key`, lowercased, where
/// both are identifiers; other variables set nothing.
pub open spec fn env_override(name: Seq<char>, value: Seq<char>) -> Option<(Seq<char>, OverrideView)> {
    let l = lower_seq(name);
    if 4 <= l.len() && l.take(4) == "mob_"@ {
        match spec_split_once(l.skip(4), '_') {
            Some((sec, key)) => if is_ident(sec) && is_ident(key) {
                Some((sec + "."@ + key, env_value(value)))
            } else {
                None
            },
            None => None,
        }
    } else {
        None
    }
}

/// The overrides that the environment variables `vars` set, in order.
pub open spec fn env_overrides(vars: Seq<(Seq<char>, Seq<char>)>) -> Map<Seq<char>, OverrideView>
    decreases vars.len(),
{
    if vars.len() == 0 {
        Map::empty()
    } else {
        let prev = env_overrides(vars.drop_last());
        match env_override(vars.last().0, vars.last().1) {
            Some(e) => prev.insert(e.0, e.1),
            None => prev,
        }
    }
}

/// The view of environment variables.
pub open spec fn vars_view(vars: Seq<(String, String)>) -> Seq<(Seq<char>, Seq<char>)> {
    vars.map_values(|e: (String, String)| (e.0@, e.1@))
}

fn is_ident_text(s: &str) -> (r: bool)
    ensures
        r == is_ident(s@),
{
    let v = crate::text::chars_of(s);
    if v.len() == 0 {
        return false;
    }
    let mut i: usize = 0;
    while i < v.len()
        invariant
            i <= v@.len(),
            v@ == s@,
            forall|j: int| 0 <= j < i ==> is_ident_char(#[trigger] v@[j]),
        decreases v.len() - i,
    {
        let c = v[i];
        let u = c as u32;
        if !((97 <= u && u <= 122) || (65 <= u && u <= 90) || (48 <= u && u <= 57) || c == '_' || c == '-') {
            return false;
        }
        i = i + 1;
    }
    true
}

/// How the value of a `MOB_` environment variable is read.
pub fn env_value_of(v: &str) -> (r: OverrideValue)
    ensures
        r@ == env_value(v@),
{
    proof {
        reveal_strlit("true");
        reveal_strlit("false");
    }
    let l = crate::text::lower_ascii(v);
    if str_eq(l.as_str(), "true") {
        OverrideValue::Bool(true)
    } else if str_eq(l.as_str(), "false") {
        OverrideValue::Bool(false)
    } else {
        match crate::text::parse_u64(v) {
            Some(n) => if n <= 9223372036854775807u64 {
                OverrideValue::Int(n as i64)
            } else {
                OverrideValue::Text(owned(v))
            },
            None => OverrideValue::Text(owned(v)),
        }
    }
}

/// The override that the environment variable `name=value` sets, if any.
pub fn env_override_of(name: &str, value: &str) -> (r: Option<(String, OverrideValue)>)
    ensures
        match r {
            Some(e) => env_override(name@, value@) == Some((e.0@, e.1@)) && simple_path(e.0@),
            None => env_override(name@, value@) is None,
        },
{
    proof {
        reveal_strlit("mob_");
    }
    let l = crate::text::lower_ascii(name);
    if !starts_with(l.as_str(), "mob_") {
        return None;
    }
    let lv = crate::text::chars_of(l.as_str());
    let rest = crate::text::substring(&lv, 4, lv.len());
    assert(rest@ == lower_seq(name@).skip(4));
    match crate::text::split_once(rest.as_str(), '_') {
        Some((sec, key)) => {
            if is_ident_text(sec.as_str()) && is_ident_text(key.as_str()) {
                let k = concat3(sec.as_str(), ".", key.as_str());
                let v = env_value_of(value);
                proof {
                    assert(is_ident(sec@) && is_ident(key@) && k@ == sec@ + "."@ + key@);
                }
                Some((k, v))
            } else {
                None
            }
        },
        None => None,
    }
}

/// The sources of a run on a platform whose main separator is `sep`: its
/// configuration files in order (see `config_files_spec`).
pub open spec fn run_sources(
    global: crate::cli::global::GlobalOptions,
    exe_dir: Option<Seq<char>>,
    mobini: Option<Seq<char>>,
    sep: char,
) -> Seq<SourceSpec> {
    config_files_spec(global.no_default_inis, crate::text::views(global.inis@), exe_dir, mobini, sep).map_values(
        |f: (Seq<char>, bool)| file_source(f),
    )
}

/// The overrides of a run: the `MOB_<SECTION>_<KEY>` variables of `env`,
/// then the options of the command line over them.
pub open spec fn run_overrides(global: crate::cli::global::GlobalOptions, env: Seq<(String, String)>) -> Map<Seq<char>, OverrideView> {
    with_options(env_overrides(vars_view(env)), crate::cli::global::global_overrides(global))
}

/// An optional string as plain values.
pub open spec fn opt_str(o: Option<&str>) -> Option<Seq<char>> {
    match o {
        Some(s) => Some(s@),
        None => None,
    }
}

/// The loader of the configuration of a run: its files in order (see
/// `config_files_spec`), the `MOB_<SECTION>_<KEY>` variables of `env` over
/// them (each setting `section.key`), and the options of the command line
/// over those. It fails when an option does not have the form
/// `[task:]section/key=value` or sets a key that the `config` crate does not
/// accept.
pub fn build_config_loader(
    global: &crate::cli::global::GlobalOptions,
    exe_dir: Option<&str>,
    mobini: Option<&str>,
    env: &Vec<(String, String)>,
) -> (r: Result<ConfigLoader, ConfigError>)
    ensures
        r is Ok <==> options_accepted(crate::cli::global::global_overrides(*global)),
        r matches Ok(l) ==> {
            &&& l.sources() == run_sources(*global, opt_str(exe_dir), opt_str(mobini), '/') || l.sources()
                == run_sources(*global, opt_str(exe_dir), opt_str(mobini), '\\')
            &&& l.env_prefix() is None
            &&& l.overrides() == run_overrides(*global, env@)
        },
{
    let sep = crate::path::main_separator();
    let files = config_files(global, exe_dir, mobini, sep);
    let mut loader = ConfigLoader::new();
    let mut i: usize = 0;
    while i < files.len()
        invariant
            i <= files@.len(),
            loader.sources() == files_view(files@).take(i as int).map_values(
                |f: (Seq<char>, bool)| file_source(f),
            ),
            loader.overrides() == Map::<Seq<char>, OverrideView>::empty(),
            loader.env_prefix() is None,
        decreases files.len() - i,
    {
        let ghost before = files_view(files@).take(i as int);
        if files[i].1 {
            loader = loader.add_toml_file(files[i].0.as_str());
        } else {
            loader = loader.add_toml_file_optional(files[i].0.as_str());
        }
        proof {
            assert(files_view(files@).take(i + 1) =~= before.push((files@[i as int].0@, files@[i as int].1)));
            assert(files_view(files@).take(i + 1).map_values(|f: (Seq<char>, bool)| file_source(f)) =~= before.map_values(
                |f: (Seq<char>, bool)| file_source(f),
            ).push(file_source((files@[i as int].0@, files@[i as int].1))));
        }
        i = i + 1;
    }
    assert(files_view(files@).take(files@.len() as int) =~= files_view(files@));
    let loader = loader.with_env_overrides(env);
    loader.with_options(global)
}


impl ConfigLoader {
    /// Sets the overrides of the `MOB_<SECTION>_<KEY>` variables of `env`,
    /// in order, on a loader that has none yet (see `env_override`).
    pub fn with_env_overrides(self, env: &Vec<(String, String)>) -> (r: ConfigLoader)
        requires
            self.overrides() == Map::<Seq<char>, OverrideView>::empty(),
        ensures
            r.sources() == self.sources(),
            r.env_prefix() == self.env_prefix(),
            r.files() == self.files(),
            r.overrides() == env_overrides(vars_view(env@)),
    {
        let ghost evs = vars_view(env@);
        let ghost s0 = self.sources();
        let ghost p0 = self.env_prefix();
        let ghost f0 = self.files();
        let mut loader = self;
        let mut e: usize = 0;
        while e < env.len()
            invariant
                e <= env@.len(),
                evs == vars_view(env@),
                loader.sources() == s0,
                loader.env_prefix() == p0,
                loader.files() == f0,
                loader.overrides() == env_overrides(evs.take(e as int)),
            decreases env.len() - e,
        {
            proof {
                assert(evs.take(e + 1).drop_last() =~= evs.take(e as int));
                assert(evs.take(e + 1).last() == (env@[e as int].0@, env@[e as int].1@));
            }
            match env_override_of(env[e].0.as_str(), env[e].1.as_str()) {
                Some((k, v)) => {
                    let ConfigLoader { builder, env_prefix, files } = loader;
                    match set_builder_override(builder, k.as_str(), v) {
                        Ok(b) => {
                            loader = ConfigLoader { builder: b, env_prefix, files };
                        },
                        Err(_) => {
                            proof {
                                assert(false);
                            }
                            loader = ConfigLoader::new();
                        },
                    }
                },
                None => {},
            }
            e = e + 1;
        }
        proof {
            assert(evs.take(env@.len() as int) =~= evs);
        }
        loader
    }

    /// Sets the overrides of the options of the command line, in order,
    /// over those already set. It fails at the first option that does not
    /// have the form `[task:]section/key=value` or sets a key that the
    /// `config` crate does not accept.
    #[verifier::rlimit(40)]
    pub fn with_options(self, global: &crate::cli::global::GlobalOptions) -> (r: Result<ConfigLoader, ConfigError>)
        ensures
            r is Ok <==> options_accepted(crate::cli::global::global_overrides(*global)),
            r matches Ok(l) ==> {
                &&& l.sources() == self.sources()
                &&& l.env_prefix() == self.env_prefix()
                &&& l.overrides() == with_options(self.overrides(), crate::cli::global::global_overrides(*global))
            },
    {
        let ghost sources = self.sources();
        let ghost p0 = self.env_prefix();
        let ghost base = self.overrides();
        let mut loader = self;
        let opts = global.to_config_overrides();
        let ghost ov = crate::text::views(opts@);
        let mut j: usize = 0;
        while j < opts.len()
            invariant
                j <= opts@.len(),
                ov == crate::text::views(opts@),
                ov == crate::cli::global::global_overrides(*global),
                loader.sources() == sources,
                loader.env_prefix() == p0,
                options_accepted(ov.take(j as int)),
                loader.overrides() == with_options(base, ov.take(j as int)),
            decreases opts.len() - j,
        {
            let entry = parse_override(opts[j].as_str());
            proof {
                assert(ov.take(j + 1)[j as int] == ov[j as int]);
                assert(ov.take(j + 1).drop_last() =~= ov.take(j as int));
            }
            let (k, v) = match entry {
                Ok(p) => p,
                Err(e) => {
                    proof {
                        assert(override_entry(ov[j as int]) is None);
                        assert(!options_accepted(ov)) by {
                            assert(!option_accepted(ov[j as int]));
                        }
                    }
                    return Err(e);
                },
            };
            let ConfigLoader { builder, env_prefix, files } = loader;
            let ghost vv = OverrideView::Text(v@);
            match set_builder_override(builder, k.as_str(), OverrideValue::Text(v)) {
                Ok(b) => {
                    loader = ConfigLoader { builder: b, env_prefix, files };
                    proof {
                        assert forall|q: int| 0 <= q < j + 1 implies #[trigger] option_accepted(ov.take(j + 1)[q]) by {
                            if q < j {
                                assert(ov.take(j + 1)[q] == ov.take(j as int)[q]);
                            }
                        }
                    }
                },
                Err(t) => {
                    proof {
                        assert(!options_accepted(ov)) by {
                            assert(!option_accepted(ov[j as int]));
                        }
                    }
                    return Err(ConfigError::LoadFailed(concat2("Config error: ", t.as_str())));
                },
            }
            j = j + 1;
        }
        assert(ov.take(opts@.len() as int) =~= ov);
        Ok(loader)
    }
}

/// Loads the configuration of a run (see `build_config_loader`): the tree
/// that the `config` crate merges from the run's files and overrides, read
/// into a `Config`.
pub fn load_config(
    global: &crate::cli::global::GlobalOptions,
    exe_dir: Option<&str>,
    mobini: Option<&str>,
    env: &Vec<(String, String)>,
) -> (r: Result<Config, ConfigError>)
    ensures
        !options_accepted(crate::cli::global::global_overrides(*global)) ==> r is Err,
        r matches Ok(c) ==> exists|sep: char, v: ConfigValue, m: Leaves|
            (sep == '/' || sep == '\\') && read_from(v, m, run_sources(*global, opt_str(exe_dir), opt_str(mobini), sep), run_overrides(*global, env@))
                && config_ok(v) && loaded_from(c, v),
{
    let loader = build_config_loader(global, exe_dir, mobini, env)?;
    proof {
        assert(loader.final_sources() == loader.sources());
    }
    loader.build()
}

} // verus!
