//! The arguments of the `git` commands.

use vstd::prelude::*;

use crate::text::{concat2, concat3, join, join_seq, owned, views};

verus! {

pub(crate) fn strings(parts: &[&str]) -> (r: Vec<String>)
    ensures
        views(r@) == parts@.map_values(|p: &str| p@),
{
    let mut out: Vec<String> = Vec::new();
    let mut i: usize = 0;
    while i < parts.len()
        invariant
            i <= parts@.len(),
            views(out@) == parts@.take(i as int).map_values(|p: &str| p@),
        decreases parts.len() - i,
    {
        let ghost prev = out@;
        out.push(owned(parts[i]));
        proof {
            assert(views(out@) =~= views(prev).push(parts@[i as int]@));
            assert(parts@.take(i + 1).map_values(|p: &str| p@) =~= parts@.take(i as int).map_values(|p: &str| p@).push(
                parts@[i as int]@,
            ));
        }
        i = i + 1;
    }
    assert(parts@.take(parts@.len() as int) =~= parts@);
    out
}

fn push_str(v: &mut Vec<String>, s: &str)
    ensures
        views(final(v)@) == views(old(v)@).push(s@),
{
    v.push(owned(s));
    assert(views(v@) =~= views(old(v)@).push(s@));
}

/// The arguments that clone `url` into `dest`: with submodules and quietly,
/// shallow when asked, on `branch` when one is given.
pub open spec fn clone_args_spec(url: Seq<char>, dest: Seq<char>, branch: Option<Seq<char>>, shallow: bool) -> Seq<
    Seq<char>,
> {
    seq!["clone"@, "--recurse-submodules"@, "--quiet"@, "-c"@, "advice.detachedHead=false"@] + (if shallow {
        seq!["--depth"@, "1"@]
    } else {
        Seq::empty()
    }) + match branch {
        Some(b) => seq!["--branch"@, b],
        None => Seq::empty(),
    } + seq![url, dest]
}

/// A given branch is always cloned: the arguments hold `--branch` followed
/// right by it, shallow or not. The clone ends with the address and the
/// destination, and a shallow clone only adds `--depth 1` after the
/// options of a full one.
pub proof fn lemma_clone_args_branch(url: Seq<char>, dest: Seq<char>, branch: Option<Seq<char>>, shallow: bool)
    ensures
        ({
            let a = clone_args_spec(url, dest, branch, shallow);
            &&& a.len() >= 2 && a[a.len() - 2] == url && a[a.len() - 1] == dest
            &&& a[0] == "clone"@
            &&& (branch matches Some(b) ==> exists|i: int|
                0 <= i && i + 1 < a.len() && #[trigger] clone_args_spec(url, dest, branch, shallow)[i] == "--branch"@ && a[i + 1]
                    == b)
            &&& (branch is None && !shallow ==> a == seq![
                "clone"@,
                "--recurse-submodules"@,
                "--quiet"@,
                "-c"@,
                "advice.detachedHead=false"@,
                url,
                dest,
            ])
            &&& (shallow ==> a == clone_args_spec(url, dest, branch, false).take(5) + seq!["--depth"@, "1"@]
                + clone_args_spec(url, dest, branch, false).skip(5))
        }),
{
    let a = clone_args_spec(url, dest, branch, shallow);
    let full = clone_args_spec(url, dest, branch, false);
    let opts = seq!["clone"@, "--recurse-submodules"@, "--quiet"@, "-c"@, "advice.detachedHead=false"@];
    let depth: Seq<Seq<char>> = if shallow {
        seq!["--depth"@, "1"@]
    } else {
        Seq::empty()
    };
    let br: Seq<Seq<char>> = match branch {
        Some(b) => seq!["--branch"@, b],
        None => Seq::empty(),
    };
    assert(a == opts + depth + br + seq![url, dest]);
    assert(full =~= opts + br + seq![url, dest]);
    assert(a[0] == opts[0]);
    assert(a[a.len() - 2] == url);
    assert(a[a.len() - 1] == dest);
    if let Some(b) = branch {
        let i: int = (opts.len() + depth.len()) as int;
        assert(a[i] == "--branch"@);
        assert(a[i + 1] == b);
    }
    if branch is None && !shallow {
        assert(a =~= opts + seq![url, dest]);
    }
    if shallow {
        assert(full.take(5) =~= opts);
        assert(full.skip(5) =~= br + seq![url, dest]);
        assert(a =~= full.take(5) + seq!["--depth"@, "1"@] + full.skip(5));
    }
}

/// The arguments of `git clone`.
pub fn clone_args(url: &str, dest: &str, branch: Option<&str>, shallow: bool) -> (r: Vec<String>)
    ensures
        views(r@) == clone_args_spec(
            url@,
            dest@,
            match branch {
                Some(b) => Some(b@),
                None => None,
            },
            shallow,
        ),
{
    let mut args = strings(&["clone", "--recurse-submodules", "--quiet", "-c", "advice.detachedHead=false"]);
    if shallow {
        push_str(&mut args, "--depth");
        push_str(&mut args, "1");
    }
    match branch {
        Some(b) => {
            push_str(&mut args, "--branch");
            push_str(&mut args, b);
        },
        None => {},
    }
    push_str(&mut args, url);
    push_str(&mut args, dest);
    assert(views(args@) =~= clone_args_spec(
        url@,
        dest@,
        match branch {
            Some(b) => Some(b@),
            None => None,
        },
        shallow,
    ));
    args
}

/// The arguments of `git pull` from `remote` and `branch`.
pub fn pull_args(remote: &str, branch: &str) -> (r: Vec<String>)
    ensures
        views(r@) == seq!["pull"@, "--recurse-submodules"@, "--quiet"@, remote@, branch@],
{
    let mut args = strings(&["pull", "--recurse-submodules", "--quiet"]);
    push_str(&mut args, remote);
    push_str(&mut args, branch);
    assert(views(args@) =~= seq!["pull"@, "--recurse-submodules"@, "--quiet"@, remote@, branch@]);
    args
}

/// The arguments of `git fetch` from `remote`.
pub fn fetch_args(remote: &str) -> (r: Vec<String>)
    ensures
        views(r@) == seq!["fetch"@, "--quiet"@, remote@],
{
    let mut args = strings(&["fetch", "--quiet"]);
    push_str(&mut args, remote);
    assert(views(args@) =~= seq!["fetch"@, "--quiet"@, remote@]);
    args
}

/// The arguments that fetch `refspec` from the remote at `remote_url`.
pub fn fetch_refspec_args(remote_url: &str, refspec: &str) -> (r: Vec<String>)
    ensures
        views(r@) == seq!["fetch"@, "--quiet"@, remote_url@, refspec@],
{
    let mut args = strings(&["fetch", "--quiet"]);
    push_str(&mut args, remote_url);
    push_str(&mut args, refspec);
    assert(views(args@) =~= seq!["fetch"@, "--quiet"@, remote_url@, refspec@]);
    args
}

/// The arguments of `git checkout` of `what`, quietly.
pub fn checkout_args(what: &str) -> (r: Vec<String>)
    ensures
        views(r@) == seq!["-c"@, "advice.detachedHead=false"@, "checkout"@, "-q"@, what@],
{
    let mut args = strings(&["-c", "advice.detachedHead=false", "checkout", "-q"]);
    push_str(&mut args, what);
    assert(views(args@) =~= seq!["-c"@, "advice.detachedHead=false"@, "checkout"@, "-q"@, what@]);
    args
}

/// The arguments of `git init`.
pub fn init_args() -> (r: Vec<String>)
    ensures
        views(r@) == seq!["init"@, "--quiet"@],
{
    let args = strings(&["init", "--quiet"]);
    assert(views(args@) =~= seq!["init"@, "--quiet"@]);
    args
}

/// The arguments of `git submodule add`.
pub fn add_submodule_args(url: &str, submodule_path: &str) -> (r: Vec<String>)
    ensures
        views(r@) == seq!["submodule"@, "add"@, "--quiet"@, url@, submodule_path@],
{
    let mut args = strings(&["submodule", "add", "--quiet"]);
    push_str(&mut args, url);
    push_str(&mut args, submodule_path);
    assert(views(args@) =~= seq!["submodule"@, "add"@, "--quiet"@, url@, submodule_path@]);
    args
}

/// The arguments of `git remote add`.
pub fn add_remote_args(name: &str, url: &str) -> (r: Vec<String>)
    ensures
        views(r@) == seq!["remote"@, "add"@, name@, url@],
{
    let mut args = strings(&["remote", "add"]);
    push_str(&mut args, name);
    push_str(&mut args, url);
    assert(views(args@) =~= seq!["remote"@, "add"@, name@, url@]);
    args
}

/// The arguments that set the PuTTY key of remote `name`.
pub fn putty_key_args(name: &str, key: &str) -> (r: Vec<String>)
    ensures
        views(r@) == seq!["config"@, "remote."@ + name@ + ".puttykeyfile"@, key@],
{
    let mut args = strings(&["config"]);
    let k = concat3("remote.", name, ".puttykeyfile");
    push_str(&mut args, k.as_str());
    push_str(&mut args, key);
    assert(views(args@) =~= seq!["config"@, "remote."@ + name@ + ".puttykeyfile"@, key@]);
    args
}

/// The arguments of `git remote rename`.
pub fn rename_remote_args(old_name: &str, new_name: &str) -> (r: Vec<String>)
    ensures
        views(r@) == seq!["remote"@, "rename"@, old_name@, new_name@],
{
    let mut args = strings(&["remote", "rename"]);
    push_str(&mut args, old_name);
    push_str(&mut args, new_name);
    assert(views(args@) =~= seq!["remote"@, "rename"@, old_name@, new_name@]);
    args
}

/// The arguments that set the push address of `remote`.
pub fn set_remote_push_url_args(remote: &str, url: &str) -> (r: Vec<String>)
    ensures
        views(r@) == seq!["remote"@, "set-url"@, "--push"@, remote@, url@],
{
    let mut args = strings(&["remote", "set-url", "--push"]);
    push_str(&mut args, remote);
    push_str(&mut args, url);
    assert(views(args@) =~= seq!["remote"@, "set-url"@, "--push"@, remote@, url@]);
    args
}

/// The arguments of `git config key value`.
pub fn set_config_args(key: &str, value: &str) -> (r: Vec<String>)
    ensures
        views(r@) == seq!["config"@, key@, value@],
{
    let mut args = strings(&["config"]);
    push_str(&mut args, key);
    push_str(&mut args, value);
    assert(views(args@) =~= seq!["config"@, key@, value@]);
    args
}

/// The arguments that mark `file` unchanged (`enable`) or changed again.
pub fn assume_unchanged_args(file: &str, enable: bool) -> (r: Vec<String>)
    ensures
        views(r@) == seq![
            "update-index"@,
            if enable {
                "--assume-unchanged"@
            } else {
                "--no-assume-unchanged"@
            },
            file@,
        ],
{
    let mut args = strings(&["update-index"]);
    if enable {
        push_str(&mut args, "--assume-unchanged");
    } else {
        push_str(&mut args, "--no-assume-unchanged");
    }
    push_str(&mut args, file);
    assert(views(args@) =~= seq![
        "update-index"@,
        if enable {
            "--assume-unchanged"@
        } else {
            "--no-assume-unchanged"@
        },
        file@,
    ]);
    args
}

/// The arguments that list the head `branch` of the remote at `url`.
pub fn ls_remote_args(url: &str, branch: &str) -> (r: Vec<String>)
    ensures
        views(r@) == seq!["ls-remote"@, "--heads"@, url@, "refs/heads/"@ + branch@],
{
    let mut args = strings(&["ls-remote", "--heads"]);
    push_str(&mut args, url);
    let b = concat2("refs/heads/", branch);
    push_str(&mut args, b.as_str());
    assert(views(args@) =~= seq!["ls-remote"@, "--heads"@, url@, "refs/heads/"@ + branch@]);
    args
}

/// Whether a remote branch exists, from what `git ls-remote` gave: any
/// output when it ran, and no when it failed.
pub fn branch_listed(output: Option<&str>) -> (r: bool)
    ensures
        r == match output {
            Some(s) => s@.len() > 0,
            None => false,
        },
{
    match output {
        Some(s) => crate::text::char_count(s) > 0,
        None => false,
    }
}

/// The arguments that name the branch checked out: `git rev-parse
/// --abbrev-ref HEAD`.
pub fn head_branch_args() -> (r: Vec<String>)
    ensures
        views(r@) == seq!["rev-parse"@, "--abbrev-ref"@, "HEAD"@],
{
    let args = strings(&["rev-parse", "--abbrev-ref", "HEAD"]);
    assert(views(args@) =~= seq!["rev-parse"@, "--abbrev-ref"@, "HEAD"@]);
    args
}

/// The branch checked out, from what `git rev-parse --abbrev-ref HEAD`
/// printed (trimmed): none when it printed `HEAD`, which it does for a
/// detached head.
pub fn head_branch(output: &str) -> (r: Option<String>)
    ensures
        output@ == "HEAD"@ ==> r is None,
        output@ != "HEAD"@ ==> (r matches Some(b) && b@ == output@),
{
    if crate::text::str_eq(output, "HEAD") {
        None
    } else {
        Some(crate::text::owned(output))
    }
}

/// How a failed command is named in its error: `git` and its arguments.
pub fn command_text(args: &Vec<String>) -> (r: String)
    ensures
        r@ == "git "@ + join_seq(views(args@), " "@),
{
    let j = join(args, " ");
    concat2("git ", j.as_str())
}

} // verus!
