//! Configuration values as plain data.
//!
//! A `ConfigValue` is the tree that the `config` crate builds from all
//! sources, held as plain values: tables and arrays of scalars. The
//! conversions below are the ones `config::Value` applies when a field of a
//! given type is read from it (`into_bool`, `into_string`, `into_uint`), and
//! the strict ones that apply to fields read through a flattened struct.

use vstd::prelude::*;

use crate::text::{
    bool_text, bool_to_string, dec, dec_int, i128_to_string, lower_ascii, lower_seq, owned, parse_u64,
    spec_parse_u64, str_eq, u128_to_string, u64_to_string,
};

verus! {

/// A configuration value.
#[derive(Debug)]
pub enum ConfigValue {
    /// No value.
    Nil,
    /// A boolean.
    Boolean(bool),
    /// A signed 64-bit integer.
    I64(i64),
    /// A signed 128-bit integer.
    I128(i128),
    /// An unsigned 64-bit integer.
    U64(u64),
    /// An unsigned 128-bit integer.
    U128(u128),
    /// A floating-point number, held by what is read from it: its decimal
    /// text, whether it is non-zero, and its value rounded to an unsigned
    /// integer.
    Float { text: String, truthy: bool, rounded: u64 },
    /// A string.
    Str(String),
    /// A table of named values.
    Table(Vec<(String, ConfigValue)>),
    /// An array of values.
    Array(Vec<ConfigValue>),
}

/// Whether `v` reaches no deeper than `depth` levels of tables and arrays:
/// a table or an array at depth zero has no children.
pub open spec fn within_depth(v: ConfigValue, depth: nat) -> bool
    decreases v,
{
    match v {
        ConfigValue::Table(t) => if depth == 0 {
            t@.len() == 0
        } else {
            forall|i: int| 0 <= i < t@.len() ==> within_depth(#[trigger] t@[i].1, (depth - 1) as nat)
        },
        ConfigValue::Array(a) => if depth == 0 {
            a@.len() == 0
        } else {
            forall|i: int| 0 <= i < a@.len() ==> within_depth(#[trigger] a@[i], (depth - 1) as nat)
        },
        _ => true,
    }
}

/// Words read as `true` (after ASCII lowercasing).
pub open spec fn is_true_word(s: Seq<char>) -> bool {
    s == "1"@ || s == "true"@ || s == "on"@ || s == "yes"@
}

/// Words read as `false` (after ASCII lowercasing).
pub open spec fn is_false_word(s: Seq<char>) -> bool {
    s == "0"@ || s == "false"@ || s == "off"@ || s == "no"@
}

/// Words read as 1 by an integer conversion.
pub open spec fn is_one_word(s: Seq<char>) -> bool {
    s == "true"@ || s == "on"@ || s == "yes"@
}

/// Words read as 0 by an integer conversion.
pub open spec fn is_zero_word(s: Seq<char>) -> bool {
    s == "false"@ || s == "off"@ || s == "no"@
}

/// A value read as a boolean (`config::Value::into_bool`).
pub open spec fn coerce_bool(v: ConfigValue) -> Option<bool> {
    match v {
        ConfigValue::Boolean(b) => Some(b),
        ConfigValue::I64(n) => Some(n != 0),
        ConfigValue::I128(n) => Some(n != 0),
        ConfigValue::U64(n) => Some(n != 0),
        ConfigValue::U128(n) => Some(n != 0),
        ConfigValue::Float { truthy, .. } => Some(truthy),
        ConfigValue::Str(s) => if is_true_word(lower_seq(s@)) {
            Some(true)
        } else if is_false_word(lower_seq(s@)) {
            Some(false)
        } else {
            None
        },
        _ => None,
    }
}

/// A value read as a string (`config::Value::into_string`).
pub open spec fn coerce_string(v: ConfigValue) -> Option<Seq<char>> {
    match v {
        ConfigValue::Str(s) => Some(s@),
        ConfigValue::Boolean(b) => Some(bool_text(b)),
        ConfigValue::I64(n) => Some(dec_int(n as int)),
        ConfigValue::I128(n) => Some(dec_int(n as int)),
        ConfigValue::U64(n) => Some(dec(n as nat)),
        ConfigValue::U128(n) => Some(dec(n as nat)),
        ConfigValue::Float { text, .. } => Some(text@),
        _ => None,
    }
}

/// A value read as an unsigned integer (`config::Value::into_uint`).
pub open spec fn coerce_uint(v: ConfigValue) -> Option<u64> {
    match v {
        ConfigValue::U64(n) => Some(n),
        ConfigValue::U128(n) => if n <= u64::MAX {
            Some(n as u64)
        } else {
            None
        },
        ConfigValue::I64(n) => if n >= 0 {
            Some(n as u64)
        } else {
            None
        },
        ConfigValue::I128(n) => if 0 <= n <= u64::MAX {
            Some(n as u64)
        } else {
            None
        },
        ConfigValue::Str(s) => if is_one_word(lower_seq(s@)) {
            Some(1)
        } else if is_zero_word(lower_seq(s@)) {
            Some(0)
        } else {
            spec_parse_u64(s@)
        },
        ConfigValue::Boolean(b) => Some(if b {
            1
        } else {
            0
        }),
        ConfigValue::Float { rounded, .. } => Some(rounded),
        _ => None,
    }
}

/// A value read as an 8-bit unsigned integer: an unsigned integer that fits.
pub open spec fn coerce_u8(v: ConfigValue) -> Option<u8> {
    match coerce_uint(v) {
        Some(n) => if n <= 255 {
            Some(n as u8)
        } else {
            None
        },
        None => None,
    }
}

/// A value read as a boolean through a flattened struct: only a boolean is
/// one.
pub open spec fn strict_bool(v: ConfigValue) -> Option<bool> {
    match v {
        ConfigValue::Boolean(b) => Some(b),
        _ => None,
    }
}

/// A value read as a string through a flattened struct: only a string is
/// one.
pub open spec fn strict_string(v: ConfigValue) -> Option<Seq<char>> {
    match v {
        ConfigValue::Str(s) => Some(s@),
        _ => None,
    }
}

/// The variant name a value selects when read as an enum: a string, or the
/// one key of a table with exactly one entry.
pub open spec fn variant_name(v: ConfigValue) -> Option<Seq<char>> {
    match v {
        ConfigValue::Str(s) => Some(s@),
        ConfigValue::Table(t) => if t@.len() == 1 {
            Some(t@[0].0@)
        } else {
            None
        },
        _ => None,
    }
}

fn is_true_word_exec(s: &str) -> (b: bool)
    ensures
        b == is_true_word(s@),
{
    str_eq(s, "1") || str_eq(s, "true") || str_eq(s, "on") || str_eq(s, "yes")
}

fn is_false_word_exec(s: &str) -> (b: bool)
    ensures
        b == is_false_word(s@),
{
    str_eq(s, "0") || str_eq(s, "false") || str_eq(s, "off") || str_eq(s, "no")
}

fn is_one_word_exec(s: &str) -> (b: bool)
    ensures
        b == is_one_word(s@),
{
    str_eq(s, "true") || str_eq(s, "on") || str_eq(s, "yes")
}

fn is_zero_word_exec(s: &str) -> (b: bool)
    ensures
        b == is_zero_word(s@),
{
    str_eq(s, "false") || str_eq(s, "off") || str_eq(s, "no")
}

impl ConfigValue {
    /// The value read as a boolean, as `config::Value::into_bool` reads it.
    pub fn as_bool(&self) -> (r: Option<bool>)
        ensures
            r == coerce_bool(*self),
    {
        match self {
            ConfigValue::Boolean(b) => Some(*b),
            ConfigValue::I64(n) => Some(*n != 0),
            ConfigValue::I128(n) => Some(*n != 0),
            ConfigValue::U64(n) => Some(*n != 0),
            ConfigValue::U128(n) => Some(*n != 0),
            ConfigValue::Float { truthy, .. } => Some(*truthy),
            ConfigValue::Str(s) => {
                let l = lower_ascii(s.as_str());
                if is_true_word_exec(l.as_str()) {
                    Some(true)
                } else if is_false_word_exec(l.as_str()) {
                    Some(false)
                } else {
                    None
                }
            },
            _ => None,
        }
    }

    /// The value read as a string, as `config::Value::into_string` reads it.
    pub fn as_string(&self) -> (r: Option<String>)
        ensures
            match r {
                Some(s) => coerce_string(*self) == Some(s@),
                None => coerce_string(*self) is None,
            },
    {
        match self {
            ConfigValue::Str(s) => Some(s.clone()),
            ConfigValue::Boolean(b) => Some(bool_to_string(*b)),
            ConfigValue::I64(n) => Some(i128_to_string(*n as i128)),
            ConfigValue::I128(n) => Some(i128_to_string(*n)),
            ConfigValue::U64(n) => Some(u64_to_string(*n)),
            ConfigValue::U128(n) => Some(u128_to_string(*n)),
            ConfigValue::Float { text, .. } => Some(text.clone()),
            _ => None,
        }
    }

    /// The value read as an unsigned integer, as `config::Value::into_uint`
    /// reads it.
    pub fn as_uint(&self) -> (r: Option<u64>)
        ensures
            r == coerce_uint(*self),
    {
        match self {
            ConfigValue::U64(n) => Some(*n),
            ConfigValue::U128(n) => if *n <= 0xffff_ffff_ffff_ffffu128 {
                Some(*n as u64)
            } else {
                None
            },
            ConfigValue::I64(n) => if *n >= 0 {
                Some(*n as u64)
            } else {
                None
            },
            ConfigValue::I128(n) => if 0 <= *n && *n <= 0xffff_ffff_ffff_ffffi128 {
                Some(*n as u64)
            } else {
                None
            },
            ConfigValue::Str(s) => {
                let l = lower_ascii(s.as_str());
                if is_one_word_exec(l.as_str()) {
                    Some(1)
                } else if is_zero_word_exec(l.as_str()) {
                    Some(0)
                } else {
                    parse_u64(s.as_str())
                }
            },
            ConfigValue::Boolean(b) => Some(if *b {
                1
            } else {
                0
            }),
            ConfigValue::Float { rounded, .. } => Some(*rounded),
            _ => None,
        }
    }

    /// The value read as an 8-bit unsigned integer.
    pub fn as_u8(&self) -> (r: Option<u8>)
        ensures
            r == coerce_u8(*self),
    {
        match self.as_uint() {
            Some(n) => if n <= 255 {
                Some(n as u8)
            } else {
                None
            },
            None => None,
        }
    }

    /// The value as a boolean, if it is one.
    pub fn as_strict_bool(&self) -> (r: Option<bool>)
        ensures
            r == strict_bool(*self),
    {
        match self {
            ConfigValue::Boolean(b) => Some(*b),
            _ => None,
        }
    }

    /// The value as a string, if it is one.
    pub fn as_strict_string(&self) -> (r: Option<String>)
        ensures
            match r {
                Some(s) => strict_string(*self) == Some(s@),
                None => strict_string(*self) is None,
            },
    {
        match self {
            ConfigValue::Str(s) => Some(s.clone()),
            _ => None,
        }
    }

    /// The variant name the value selects when read as an enum.
    pub fn variant(&self) -> (r: Option<&String>)
        ensures
            match r {
                Some(s) => variant_name(*self) == Some(s@),
                None => variant_name(*self) is None,
            },
    {
        match self {
            ConfigValue::Str(s) => Some(s),
            ConfigValue::Table(t) => if t.len() == 1 {
                Some(&t[0].0)
            } else {
                None
            },
            _ => None,
        }
    }

    /// How the value is named in a type error.
    pub fn describe(&self) -> (r: String)
        ensures
            r@ == describe_text(*self),
    {
        match self {
            ConfigValue::Nil => owned("unit value"),
            ConfigValue::Boolean(b) => {
                let mut r = owned("boolean `");
                let t = bool_to_string(*b);
                r.append(t.as_str());
                r.append("`");
                r
            },
            ConfigValue::I64(n) => {
                let mut r = owned("64-bit integer `");
                let t = i128_to_string(*n as i128);
                r.append(t.as_str());
                r.append("`");
                r
            },
            ConfigValue::I128(n) => {
                let mut r = owned("128-bit integer `");
                let t = i128_to_string(*n);
                r.append(t.as_str());
                r.append("`");
                r
            },
            ConfigValue::U64(n) => {
                let mut r = owned("64-bit unsigned integer `");
                let t = u64_to_string(*n);
                r.append(t.as_str());
                r.append("`");
                r
            },
            ConfigValue::U128(n) => {
                let mut r = owned("128-bit unsigned integer `");
                let t = u128_to_string(*n);
                r.append(t.as_str());
                r.append("`");
                r
            },
            ConfigValue::Float { text, .. } => {
                let mut r = owned("floating point `");
                r.append(text.as_str());
                r.append("`");
                r
            },
            ConfigValue::Str(s) => {
                let mut r = owned("string \"");
                r.append(s.as_str());
                r.append("\"");
                r
            },
            ConfigValue::Table(_) => owned("map"),
            ConfigValue::Array(_) => owned("sequence"),
        }
    }
}

/// How a value is named in a type error: its kind and, for a scalar, the
/// value itself.
pub open spec fn describe_text(v: ConfigValue) -> Seq<char> {
    match v {
        ConfigValue::Nil => "unit value"@,
        ConfigValue::Boolean(b) => "boolean `"@ + crate::text::bool_text(b) + "`"@,
        ConfigValue::I64(n) => "64-bit integer `"@ + crate::text::dec_int(n as int) + "`"@,
        ConfigValue::I128(n) => "128-bit integer `"@ + crate::text::dec_int(n as int) + "`"@,
        ConfigValue::U64(n) => "64-bit unsigned integer `"@ + crate::text::dec(n as nat) + "`"@,
        ConfigValue::U128(n) => "128-bit unsigned integer `"@ + crate::text::dec(n as nat) + "`"@,
        ConfigValue::Float { text, .. } => "floating point `"@ + text@ + "`"@,
        ConfigValue::Str(s) => "string \""@ + s@ + "\""@,
        ConfigValue::Table(_) => "map"@,
        ConfigValue::Array(_) => "sequence"@,
    }
}

} // verus!
