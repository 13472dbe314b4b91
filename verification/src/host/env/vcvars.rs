//! Reading the variables a Visual Studio developer shell prints.
//!
//! The shell prints one `NAME=VALUE` line per variable. Running it is left
//! to the program; the library reads what it printed.

use vstd::prelude::*;

use super::container::{set_all, set_in, Env, EnvTable};
use super::types::{Arch, EnvFlags};
use crate::text::{chars_of, spec_split_once, split_on, split_once, string_of, trim, trim_spaces};

verus! {

/// The variable a printed line sets: the trimmed line split at its first
/// `=`, where the name before it is not empty.
pub open spec fn line_var(line: Seq<char>) -> Option<(Seq<char>, Seq<char>)> {
    match spec_split_once(trim_spaces(line), '=') {
        Some((k, v)) => if k.len() > 0 {
            Some((k, v))
        } else {
            None
        },
        None => None,
    }
}

/// The variables that a sequence of printed lines sets, in order.
pub open spec fn line_vars(lines: Seq<Seq<char>>) -> Seq<(Seq<char>, Seq<char>)>
    decreases lines.len(),
{
    if lines.len() == 0 {
        Seq::empty()
    } else {
        let r = line_vars(lines.drop_last());
        match line_var(lines.last()) {
            Some(p) => r.push(p),
            None => r,
        }
    }
}

proof fn lemma_vars_step(done: Seq<Seq<char>>, l: Seq<char>)
    ensures
        set_all(EnvTable::empty(), line_vars(done.push(l))) == match line_var(l) {
            Some((k, v)) => set_in(set_all(EnvTable::empty(), line_vars(done)), k, v, EnvFlags::Replace),
            None => set_all(EnvTable::empty(), line_vars(done)),
        },
{
    assert(done.push(l).drop_last() =~= done);
    match line_var(l) {
        Some(p) => {
            assert(line_vars(done).push(p).drop_last() =~= line_vars(done));
        },
        None => {},
    }
}

fn apply_line(env: &mut Env, line: &Vec<char>)
    ensures
        final(env).table() == match line_var(line@) {
            Some((k, v)) => set_in(old(env).table(), k, v, EnvFlags::Replace),
            None => old(env).table(),
        },
        old(env).is_owned() ==> final(env).is_owned(),
        old(env).has_data() ==> final(env).has_data(),
{
    let t = trim(line);
    let s = string_of(&t);
    match split_once(s.as_str(), '=') {
        Some((k, v)) => {
            if crate::text::char_count(k.as_str()) > 0 {
                env.set(k.as_str(), v.as_str());
            }
        },
        None => {},
    }
}

/// The environment that a developer shell's printed `NAME=VALUE` lines set:
/// each line is trimmed, lines without `=` or with an empty name are
/// skipped, and the variables are set in order.
pub fn env_from_devshell_output(text: &str) -> (r: Env)
    ensures
        r.table() == set_all(EnvTable::empty(), line_vars(split_on(text@, '\n'))),
        r.is_owned(),
        r.has_data(),
{
    let v = chars_of(text);
    let mut env = Env::new();
    env.copy_for_write();
    let mut cur: Vec<char> = Vec::new();
    let ghost mut done: Seq<Seq<char>> = Seq::empty();
    let mut i: usize = 0;
    assert(v@.take(0) =~= Seq::<char>::empty());
    while i < v.len()
        invariant
            i <= v@.len(),
            v@ == text@,
            split_on(v@.take(i as int), '\n') == done.push(cur@),
            env.table() == set_all(EnvTable::empty(), line_vars(done)),
            env.is_owned(),
            env.has_data(),
        decreases v.len() - i,
    {
        proof {
            assert(v@.take(i + 1).drop_last() =~= v@.take(i as int));
        }
        if v[i] == '\n' {
            apply_line(&mut env, &cur);
            proof {
                lemma_vars_step(done, cur@);
                done = done.push(cur@);
            }
            cur = Vec::new();
            assert(split_on(v@.take(i + 1), '\n') =~= done.push(cur@));
        } else {
            cur.push(v[i]);
            assert(split_on(v@.take(i + 1), '\n') =~= done.push(cur@));
        }
        i = i + 1;
    }
    apply_line(&mut env, &cur);
    proof {
        assert(v@.take(v@.len() as int) =~= v@);
        lemma_vars_step(done, cur@);
    }
    env
}

/// The target and host architectures the developer shell is entered with.
pub open spec fn devshell_arches(arch: Arch) -> (Seq<char>, Seq<char>) {
    match arch {
        Arch::X86 => ("x86"@, "x64"@),
        Arch::X64 => ("x64"@, "x64"@),
    }
}

/// The PowerShell script that enters the developer shell of the
/// installation `instance` (through the module `dll`) and prints every
/// variable as `NAME=VALUE`.
pub open spec fn devshell_script_text(dll: Seq<char>, instance: Seq<char>, arch: Arch) -> Seq<char> {
    "\nImport-Module \""@ + dll + "\"\nEnter-VsDevShell "@ + instance + " -SkipAutomaticLocation -DevCmdArguments \"-arch="@
        + devshell_arches(arch).0 + " -host_arch="@ + devshell_arches(arch).1
        + "\" | Out-Null\nGet-ChildItem Env: | ForEach-Object { \"$($_.Name)=$($_.Value)\" }\n"@
}

/// The developer shell is entered for the architecture asked for, from a
/// 64-bit host: the script passes `-arch=<name> -host_arch=x64`, where the
/// name is that of the architecture (`x86` or `x64`, as `Arch::to_string`
/// gives it).
pub proof fn lemma_devshell_targets_arch(dll: Seq<char>, instance: Seq<char>, arch: Arch)
    ensures
        devshell_arches(arch).0 == match arch {
            Arch::X86 => "x86"@,
            Arch::X64 => "x64"@,
        },
        devshell_arches(arch).1 == "x64"@,
        exists|i: int, j: int|
            0 <= i <= j <= devshell_script_text(dll, instance, arch).len() && #[trigger] devshell_script_text(
                dll,
                instance,
                arch,
            ).subrange(i, j) == "-arch="@ + match arch {
                Arch::X86 => "x86"@,
                Arch::X64 => "x64"@,
            } + " -host_arch=x64"@,
{
    let name = match arch {
        Arch::X86 => "x86"@,
        Arch::X64 => "x64"@,
    };
    let big = " -SkipAutomaticLocation -DevCmdArguments \"-arch="@;
    let pre = "\nImport-Module \""@ + dll + "\"\nEnter-VsDevShell "@ + instance + big;
    let tail = "\" | Out-Null\nGet-ChildItem Env: | ForEach-Object { \"$($_.Name)=$($_.Value)\" }\n"@;
    let mid = name + " -host_arch="@ + "x64"@;
    let t = devshell_script_text(dll, instance, arch);
    assert(t =~= pre + mid + tail);
    reveal_strlit(" -SkipAutomaticLocation -DevCmdArguments \"-arch=");
    reveal_strlit("-arch=");
    reveal_strlit(" -host_arch=");
    reveal_strlit(" -host_arch=x64");
    reveal_strlit("x64");
    let i = pre.len() - 6;
    let j: int = (pre.len() + mid.len()) as int;
    assert(big.subrange(big.len() - 6, big.len() as int) =~= "-arch="@);
    assert(pre.subrange(i, pre.len() as int) =~= "-arch="@);
    assert(" -host_arch="@ + "x64"@ =~= " -host_arch=x64"@);
    assert(t.subrange(i, j) =~= pre.subrange(i, pre.len() as int) + mid);
    assert(t.subrange(i, j) =~= "-arch="@ + name + " -host_arch=x64"@);
}

/// The script loads the module at `dll` first and enters the developer
/// shell of the installation `instance`.
pub proof fn lemma_devshell_module_and_instance(dll: Seq<char>, instance: Seq<char>, arch: Arch)
    ensures
        devshell_script_text(dll, instance, arch).len() >= ("\nImport-Module \""@ + dll).len(),
        devshell_script_text(dll, instance, arch).take(("\nImport-Module \""@ + dll).len() as int) == "\nImport-Module \""@
            + dll,
        exists|i: int, j: int|
            0 <= i <= j <= devshell_script_text(dll, instance, arch).len() && #[trigger] devshell_script_text(
                dll,
                instance,
                arch,
            ).subrange(i, j) == "Enter-VsDevShell "@ + instance + " -SkipAutomaticLocation"@,
{
    let head = "\nImport-Module \""@ + dll;
    let l2 = "\"\nEnter-VsDevShell "@;
    let big = " -SkipAutomaticLocation -DevCmdArguments \"-arch="@;
    let rest = devshell_arches(arch).0 + " -host_arch="@ + devshell_arches(arch).1
        + "\" | Out-Null\nGet-ChildItem Env: | ForEach-Object { \"$($_.Name)=$($_.Value)\" }\n"@;
    let t = devshell_script_text(dll, instance, arch);
    assert(t =~= head + l2 + instance + big + rest);
    assert(t.take(head.len() as int) =~= head);
    reveal_strlit("\"\nEnter-VsDevShell ");
    reveal_strlit("Enter-VsDevShell ");
    reveal_strlit(" -SkipAutomaticLocation -DevCmdArguments \"-arch=");
    reveal_strlit(" -SkipAutomaticLocation");
    let i: int = (head.len() + l2.len() - 17) as int;
    let j: int = (head.len() + l2.len() + instance.len() + 23) as int;
    assert(l2.subrange(l2.len() - 17, l2.len() as int) =~= "Enter-VsDevShell "@);
    assert(big.subrange(0, 23) =~= " -SkipAutomaticLocation"@);
    assert(t.subrange(i, j) =~= l2.subrange(l2.len() - 17, l2.len() as int) + instance + big.subrange(0, 23));
}

/// The PowerShell script that enters the developer shell and prints the
/// environment.
pub fn devshell_script(dll: &str, instance: &str, arch: Arch) -> (r: String)
    ensures
        r@ == devshell_script_text(dll@, instance@, arch),
{
    let (target, host) = match arch {
        Arch::X86 => ("x86", "x64"),
        Arch::X64 => ("x64", "x64"),
    };
    let mut r = crate::text::concat3("\nImport-Module \"", dll, "\"\nEnter-VsDevShell ");
    r.append(instance);
    r.append(" -SkipAutomaticLocation -DevCmdArguments \"-arch=");
    r.append(target);
    r.append(" -host_arch=");
    r.append(host);
    r.append("\" | Out-Null\nGet-ChildItem Env: | ForEach-Object { \"$($_.Name)=$($_.Value)\" }\n");
    r
}

} // verus!
