//! Environment types.

use vstd::prelude::*;

use crate::text::owned;

verus! {

/// Target architecture of a Visual Studio environment.
#[derive(Debug, Clone, Copy, PartialEq, Eq, Structural, Hash)]
pub enum Arch {
    /// 32-bit x86
    X86,
    /// 64-bit x86-64
    X64,
}

/// The vcvars argument of an architecture.
pub open spec fn vcvars_text(a: Arch) -> Seq<char> {
    match a {
        Arch::X86 => "x86"@,
        Arch::X64 => "amd64"@,
    }
}

impl Arch {
    /// Returns the vcvars architecture string.
    pub fn vcvars_arg(&self) -> (r: &'static str)
        ensures
            r@ == vcvars_text(*self),
    {
        match self {
            Arch::X86 => "x86",
            Arch::X64 => "amd64",
        }
    }

    /// The architecture's name: `x86` or `x64`.
    pub fn to_string(&self) -> (r: String)
        ensures
            r@ == match *self {
                Arch::X86 => "x86"@,
                Arch::X64 => "x64"@,
            },
    {
        match self {
            Arch::X86 => owned("x86"),
            Arch::X64 => owned("x64"),
        }
    }
}

/// How a new value combines with an existing one.
#[derive(Debug, Clone, Copy, PartialEq, Eq, Structural)]
pub enum EnvFlags {
    /// Replace the existing value (default)
    Replace,
    /// Append to the existing value
    Append,
    /// Prepend to the existing value
    Prepend,
}

impl Default for EnvFlags {
    fn default() -> (r: EnvFlags)
        ensures
            r == EnvFlags::Replace,
    {
        EnvFlags::Replace
    }
}

} // verus!
