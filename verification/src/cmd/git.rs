//! What the `git` command reports.

use vstd::prelude::*;

use crate::path::{file_name, file_name_of};
use crate::text::{char_count, owned, str_eq, u64_to_string, dec};

verus! {

/// The line printed after `git ignore-ts`.
pub open spec fn ignore_ts_summary_spec(enable: bool, count: nat, dry_run: bool) -> Seq<char> {
    if dry_run {
        "Would "@ + (if enable {
            "set"@
        } else {
            "unset"@
        }) + " assume-unchanged on "@ + dec(count) + " .ts files"@
    } else {
        (if enable {
            "Set"@
        } else {
            "Unset"@
        }) + " assume-unchanged on "@ + dec(count) + " .ts files"@
    }
}

/// The line printed after `git ignore-ts` marked (`enable`) or unmarked
/// `count` files, or would have in a dry run.
pub fn ignore_ts_summary(enable: bool, count: u64, dry_run: bool) -> (r: String)
    ensures
        r@ == ignore_ts_summary_spec(enable, count as nat, dry_run),
{
    let n = u64_to_string(count);
    let mut r = if dry_run {
        let mut r = owned("Would ");
        r.append(if enable {
            "set"
        } else {
            "unset"
        });
        r
    } else {
        owned(if enable {
            "Set"
        } else {
            "Unset"
        })
    };
    r.append(" assume-unchanged on ");
    r.append(n.as_str());
    r.append(" .ts files");
    r
}

/// Whether `git branches` shows a repository on `branch`: always with
/// `all`, else only off `master` and `main`.
pub fn shows_branch(all: bool, branch: &str) -> (r: bool)
    ensures
        r == (all || (branch@ != "master"@ && branch@ != "main"@)),
{
    if all {
        return true;
    }
    !(str_eq(branch, "master") || str_eq(branch, "main"))
}

/// `s` padded with spaces to `width` characters (`{:width}`).
pub open spec fn pad_right(s: Seq<char>, width: nat) -> Seq<char> {
    if s.len() >= width {
        s
    } else {
        s + Seq::new((width - s.len()) as nat, |i: int| ' ')
    }
}

/// The line `git branches` prints for a repository: its name in a column of
/// thirty characters, a space, the branch.
pub fn branch_line(repo_name: &str, branch: &str) -> (r: String)
    ensures
        r@ == pad_right(repo_name@, 30) + " "@ + branch@,
{
    let mut r = owned(repo_name);
    let n = char_count(repo_name);
    let mut k: usize = n;
    while k < 30
        invariant
            n == repo_name@.len(),
            n <= k <= 30 || (n > 30 && k == n),
            r@ == repo_name@ + Seq::new((k - n) as nat, |i: int| ' '),
        decreases 30 - k,
    {
        r.append(" ");
        proof {
            reveal_strlit(" ");
            assert(r@ =~= repo_name@ + Seq::new((k + 1 - n) as nat, |i: int| ' '));
        }
        k = k + 1;
    }
    proof {
        if n >= 30 {
            assert(r@ =~= repo_name@);
        }
    }
    r.append(" ");
    r.append(branch);
    r
}

/// The repositories `git add-remote` works on: the one whose path was
/// given (by the last component of that path), or all of them.
pub fn add_remote_only(path: Option<&str>, sep: char) -> (r: Vec<String>)
    ensures
        r@.len() <= 1,
        match path {
            Some(p) => match file_name(p@, sep) {
                Some(n) => r@.len() == 1 && r@[0]@ == n,
                None => r@.len() == 0,
            },
            None => r@.len() == 0,
        },
{
    let mut out: Vec<String> = Vec::new();
    match path {
        Some(p) => match file_name_of(p, sep) {
            Some(n) => out.push(n),
            None => {},
        },
        None => {},
    }
    out
}

} // verus!
