//! The operations over all repositories: which repositories there are, and
//! which `git` commands each operation runs in each of them.

use vstd::prelude::*;

use super::cmd::{
    add_remote_args, assume_unchanged_args, putty_key_args, rename_remote_args, set_config_args,
    set_remote_push_url_args,
};
use crate::config::types::RemoteSetup;
use crate::config::Config;
use crate::path::{file_name, file_name_of, join_with, path_join};
use crate::strmap::{sorted_keys, sorted_unique};
use crate::config::glob_match;
use crate::config::glob_matches;
use crate::path::host;
use crate::strmap::StrMap;
use crate::text::{concat2, lemma_lex_lt_by_parts, lex_lt, owned, parts_lt, replace_char, replaced, split_on, starts_with, str_eq, trim_end_char, trim_end_matches, views};

verus! {

/// One run of `git` in a repository: its arguments, and whether the
/// operation goes on when it fails.
pub struct GitCall {
    /// The arguments after `git`.
    pub args: Vec<String>,
    /// Whether a failure of this run is ignored.
    pub may_fail: bool,
}

/// A run of `git` as plain values.
pub open spec fn call_view(c: GitCall) -> (Seq<Seq<char>>, bool) {
    (views(c.args@), c.may_fail)
}

/// A sequence of runs as plain values.
pub open spec fn calls_view(s: Seq<GitCall>) -> Seq<(Seq<Seq<char>>, bool)> {
    s.map_values(|c: GitCall| call_view(c))
}

fn call(args: Vec<String>, may_fail: bool) -> (r: GitCall)
    ensures
        call_view(r) == (views(args@), may_fail),
{
    GitCall { args, may_fail }
}

fn push_call(v: &mut Vec<GitCall>, c: GitCall)
    ensures
        calls_view(final(v)@) == calls_view(old(v)@).push(call_view(c)),
{
    let ghost cv = call_view(c);
    v.push(c);
    assert(calls_view(v@) =~= calls_view(old(v)@).push(cv));
}

/// The build directory that holds the repositories, or the error the
/// operations give when `paths.build` is not set.
pub fn build_dir(config: &Config) -> (r: Result<String, String>)
    ensures
        match config.paths.build {
            Some(b) => r matches Ok(s) && s@ == b@,
            None => r matches Err(e) && e@ == "paths.build not configured"@,
        },
{
    match &config.paths.build {
        Some(b) => Ok(b.clone()),
        None => Err(owned("paths.build not configured")),
    }
}

/// The name a repository goes by: the last component of its path, or
/// `unknown`.
pub open spec fn repo_name_spec(p: Seq<char>, sep: char) -> Seq<char> {
    match file_name(p, sep) {
        Some(n) => n,
        None => "unknown"@,
    }
}

/// The name of the repository at `path`.
pub fn repo_name(path: &str, sep: char) -> (r: String)
    ensures
        r@ == repo_name_spec(path@, sep),
{
    match file_name_of(path, sep) {
        Some(n) => n,
        None => owned("unknown"),
    }
}

/// Whether a directory entry can be a repository: a directory whose name
/// does not start with a dot.
pub open spec fn is_repo_entry(e: (Seq<char>, bool)) -> bool {
    e.1 && !(e.0.len() > 0 && e.0[0] == '.')
}

/// The names of the entries that can be repositories, in the order given.
pub open spec fn repo_entry_names(entries: Seq<(Seq<char>, bool)>) -> Seq<Seq<char>>
    decreases entries.len(),
{
    if entries.len() == 0 {
        Seq::empty()
    } else {
        let rest = repo_entry_names(entries.drop_last());
        if is_repo_entry(entries.last()) {
            rest.push(entries.last().0)
        } else {
            rest
        }
    }
}

/// The entries as plain values: name and whether it is a directory.
pub open spec fn entries_view(entries: Seq<(String, bool)>) -> Seq<(Seq<char>, bool)> {
    entries.map_values(|e: (String, bool)| (e.0@, e.1))
}

/// The paths of the repositories named `names` (in that order) under the
/// build directory `build`, then `usvfs` when it is a repository.
pub open spec fn repo_paths(build: Seq<char>, usvfs_is_repo: bool, names: Seq<Seq<char>>, sep: char) -> Seq<Seq<char>> {
    names.map_values(|n: Seq<char>| path_join(path_join(build, "modorganizer_super"@, sep), n, sep)) + if usvfs_is_repo {
        seq![path_join(build, "usvfs"@, sep)]
    } else {
        Seq::empty()
    }
}

/// `r` lists the repositories of `entries`: their names in order, each
/// once, as paths under `build`, then `usvfs` when it is a repository.
pub open spec fn repo_dirs_result(
    r: Seq<Seq<char>>,
    build: Seq<char>,
    usvfs_is_repo: bool,
    entries: Seq<(Seq<char>, bool)>,
    sep: char,
) -> bool {
    exists|names: Seq<Seq<char>>|
        {
            &&& sorted_keys(names)
            &&& names.to_set() == repo_entry_names(entries).to_set()
            &&& r == #[trigger] repo_paths(build, usvfs_is_repo, names, sep)
        }
}

/// The list of repositories depends only on which entries the directory
/// holds, not on the order in which they are read.
pub proof fn lemma_repo_dirs_order_free(
    build: Seq<char>,
    usvfs_is_repo: bool,
    e1: Seq<(Seq<char>, bool)>,
    e2: Seq<(Seq<char>, bool)>,
    sep: char,
    r1: Seq<Seq<char>>,
    r2: Seq<Seq<char>>,
)
    requires
        repo_entry_names(e1).to_set() == repo_entry_names(e2).to_set(),
        repo_dirs_result(r1, build, usvfs_is_repo, e1, sep),
        repo_dirs_result(r2, build, usvfs_is_repo, e2, sep),
    ensures
        r1 == r2,
{
    let n1 = choose|names: Seq<Seq<char>>|
        {
            &&& sorted_keys(names)
            &&& names.to_set() == repo_entry_names(e1).to_set()
            &&& r1 == #[trigger] repo_paths(build, usvfs_is_repo, names, sep)
        };
    let n2 = choose|names: Seq<Seq<char>>|
        {
            &&& sorted_keys(names)
            &&& names.to_set() == repo_entry_names(e2).to_set()
            &&& r2 == #[trigger] repo_paths(build, usvfs_is_repo, names, sep)
        };
    crate::strmap::lemma_sorted_unique(n1, n2);
}

/// The repositories under the build directory `build`: the directories of
/// `modorganizer_super` (whose entries are `entries`, name and whether it is
/// a directory) but the hidden ones, in name order, then `usvfs` when it is
/// a repository. This is the order of their paths.
pub fn repo_dirs(build: &str, usvfs_is_repo: bool, entries: Vec<(String, bool)>, sep: char) -> (r: Vec<String>)
    ensures
        repo_dirs_result(views(r@), build@, usvfs_is_repo, entries_view(entries@), sep),
{
    let mut names: Vec<String> = Vec::new();
    let mut i: usize = 0;
    while i < entries.len()
        invariant
            i <= entries@.len(),
            views(names@) == repo_entry_names(entries_view(entries@).take(i as int)),
        decreases entries.len() - i,
    {
        let (n, d) = (&entries[i].0, entries[i].1);
        let hidden = starts_with(n.as_str(), ".");
        proof {
            assert(entries_view(entries@).take(i + 1).drop_last() =~= entries_view(entries@).take(i as int));
            reveal_strlit(".");
            assert("."@.len() == 1);
            assert("."@ =~= seq!['.']);
            if n@.len() > 0 {
                assert(n@.take(1) == seq!['.'] <==> n@[0] == '.') by {
                    if n@[0] == '.' {
                        assert(n@.take(1) =~= seq!['.']);
                    }
                    if n@.take(1) == seq!['.'] {
                        assert(n@.take(1)[0] == n@[0]);
                    }
                }
            }
            assert(entries_view(entries@).take(i + 1).last() == (n@, d));
            assert(hidden == (n@.len() > 0 && n@[0] == '.'));
        }
        if d && !hidden {
            let ghost prev = names@;
            names.push(n.clone());
            assert(views(names@) =~= views(prev).push(n@));
        }
        i = i + 1;
    }
    assert(entries_view(entries@).take(entries@.len() as int) =~= entries_view(entries@));
    let sorted = sorted_unique(names);
    let super_dir = join_with(build, "modorganizer_super", sep);
    let mut out: Vec<String> = Vec::new();
    let mut j: usize = 0;
    while j < sorted.len()
        invariant
            j <= sorted@.len(),
            super_dir@ == path_join(build@, "modorganizer_super"@, sep),
            views(out@) == views(sorted@).take(j as int).map_values(|n: Seq<char>| path_join(super_dir@, n, sep)),
        decreases sorted.len() - j,
    {
        let ghost prev = out@;
        let p = join_with(super_dir.as_str(), sorted[j].as_str(), sep);
        out.push(p);
        proof {
            assert(views(out@) =~= views(prev).push(path_join(super_dir@, sorted@[j as int]@, sep)));
            assert(views(sorted@).take(j + 1) =~= views(sorted@).take(j as int).push(sorted@[j as int]@));
            assert(views(sorted@).take(j + 1).map_values(|n: Seq<char>| path_join(super_dir@, n, sep))
                =~= views(sorted@).take(j as int).map_values(|n: Seq<char>| path_join(super_dir@, n, sep)).push(
                path_join(super_dir@, sorted@[j as int]@, sep),
            ));
        }
        j = j + 1;
    }
    assert(views(sorted@).take(sorted@.len() as int) =~= views(sorted@));
    let ghost mapped = views(out@);
    if usvfs_is_repo {
        out.push(join_with(build, "usvfs", sep));
        assert(views(out@) =~= mapped + seq![path_join(build@, "usvfs"@, sep)]);
    } else {
        assert(views(out@) =~= mapped + Seq::<Seq<char>>::empty());
    }
    assert(views(sorted@).map_values(|n: Seq<char>| path_join(super_dir@, n, sep)) == views(sorted@).map_values(
        |n: Seq<char>| path_join(path_join(build@, "modorganizer_super"@, sep), n, sep),
    ));
    assert(views(out@) == repo_paths(build@, usvfs_is_repo, views(sorted@), sep));
    out
}

/// `p` relative to the directory `dir` where `p` lies under it (`dir`, a
/// separator, the rest), else `p` itself.
pub open spec fn relative_to(dir: Seq<char>, p: Seq<char>, sep: char) -> Seq<char> {
    if dir.len() < p.len() && p.take(dir.len() as int) == dir && crate::path::is_sep(p[dir.len() as int], sep) {
        p.skip(dir.len() as int + 1)
    } else {
        p
    }
}

/// The path of `p` relative to `dir`.
fn relative_path(dir: &str, p: &str, sep: char) -> (r: String)
    ensures
        r@ == relative_to(dir@, p@, sep),
{
    let dv = crate::text::chars_of(dir);
    let pv = crate::text::chars_of(p);
    if dv.len() < pv.len() && starts_with(p, dir) {
        let c = pv[dv.len()];
        if c == '/' || c == sep {
            return crate::text::substring(&pv, dv.len() + 1, pv.len());
        }
    }
    owned(p)
}

/// The glob that a translation file under `src` matches.
pub open spec fn ts_glob() -> Seq<char> {
    "**/*.ts"@
}

/// Whether the file `p` found under `dir` is a translation file: its path
/// relative to `dir` matches `**/*.ts`.
pub open spec fn is_ts_file(dir: Seq<char>, p: Seq<char>, sep: char, w: bool) -> bool {
    glob_match(ts_glob(), relative_to(dir, p, sep), w) == Some(true)
}

/// The key by which paths are ordered: each separator (`/`, or `sep`) read
/// as the character U+0000, which sorts before every other. Comparing keys
/// character by character compares paths component by component, as std
/// orders paths (`lemma_path_order_by_components`): `a/b.ts` comes before
/// `a-b.ts`.
pub open spec fn path_key(p: Seq<char>, sep: char) -> Seq<char> {
    replaced(replaced(p, '/', "\0"@), sep, "\0"@)
}

/// The order key of a path.
fn path_key_of(p: &str, sep: char) -> (r: String)
    ensures
        r@ == path_key(p@, sep),
{
    let a = replace_char(p, '/', "\0");
    replace_char(a.as_str(), sep, "\0")
}

/// The components of the path `p`: its parts between separators (`/`, or
/// `sep`).
pub open spec fn path_components(p: Seq<char>, sep: char) -> Seq<Seq<char>> {
    split_on(path_key(p, sep), '\0')
}

/// Paths ordered by their keys are ordered component by component, as std
/// orders paths: by the first component where they differ, a path that is
/// a proper prefix of the other first.
pub proof fn lemma_path_order_by_components(a: Seq<char>, b: Seq<char>, sep: char)
    ensures
        lex_lt(path_key(a, sep), path_key(b, sep)) == parts_lt(path_components(a, sep), path_components(b, sep)),
{
    let ka = path_key(a, sep);
    let kb = path_key(b, sep);
    assert forall|i: int| 0 <= i < ka.len() && ka[i] != '\0' implies ('\0' as u32) < (#[trigger] ka[i] as u32) by {
        crate::text::lemma_char_u32_injective(ka[i], '\0');
    }
    assert forall|i: int| 0 <= i < kb.len() && kb[i] != '\0' implies ('\0' as u32) < (#[trigger] kb[i] as u32) by {
        crate::text::lemma_char_u32_injective(kb[i], '\0');
    }
    lemma_lex_lt_by_parts(ka, kb, '\0');
}

/// The order keys of `paths`.
pub open spec fn path_keys(paths: Seq<Seq<char>>, sep: char) -> Seq<Seq<char>> {
    paths.map_values(|p: Seq<char>| path_key(p, sep))
}

/// `files` are the translation files among `found` under `dir` (those
/// whose path relative to `dir` matches `**/*.ts`), ordered component by
/// component (`path_key`), each once: every one is among `found`, and every
/// translation file of `found` is there under the same key.
pub open spec fn ts_selection(dir: Seq<char>, found: Seq<Seq<char>>, sep: char, files: Seq<Seq<char>>, w: bool) -> bool {
    &&& sorted_keys(path_keys(files, sep))
    &&& forall|i: int| 0 <= i < files.len() ==> found.contains(#[trigger] files[i]) && is_ts_file(dir, files[i], sep, w)
    &&& forall|j: int|
        0 <= j < found.len() && is_ts_file(dir, #[trigger] found[j], sep, w) ==> path_keys(files, sep).contains(
            path_key(found[j], sep),
        )
}

/// The translation files among the files `found` under `dir`, in path
/// order (see `ts_selection`).
pub fn find_ts_files(dir: &str, found: Vec<String>, sep: char) -> (r: Vec<String>)
    ensures
        exists|w: bool| ts_selection(dir@, views(found@), sep, views(r@), w),
        forall|i: int, j: int|
            0 <= i < j < r@.len() ==> parts_lt(path_components(#[trigger] r@[i]@, sep), path_components(#[trigger] r@[j]@, sep)),
{
    let h = host();
    let ghost w = h.windows();
    let mut m: StrMap<String> = StrMap::new();
    let mut i: usize = 0;
    while i < found.len()
        invariant
            i <= found@.len(),
            w == h.windows(),
            forall|j: int|
                0 <= j < i && is_ts_file(dir@, #[trigger] found@[j]@, sep, w) ==> m.keys().contains(
                    path_key(found@[j]@, sep),
                ),
            forall|k: Seq<char>|
                #[trigger] m.keys().contains(k) ==> (m.lookup(k) matches Some(v) && path_key(v@, sep) == k
                    && views(found@).contains(v@) && is_ts_file(dir@, v@, sep, w)),
        decreases found.len() - i,
    {
        let rel = relative_path(dir, found[i].as_str(), sep);
        let hit = glob_matches("**/*.ts", rel.as_str(), &h);
        if hit == Some(true) {
            let k = path_key_of(found[i].as_str(), sep);
            let ghost old_m = m;
            let ghost fi = found@[i as int]@;
            m.insert(k, found[i].clone());
            proof {
                assert(views(found@)[i as int] == fi);
                assert forall|k2: Seq<char>| #[trigger] m.keys().contains(k2) implies (m.lookup(k2) matches Some(
                    v,
                ) && path_key(v@, sep) == k2 && views(found@).contains(v@) && is_ts_file(dir@, v@, sep, w)) by {
                    assert(m.keys().to_set().contains(k2));
                    if k2 != path_key(fi, sep) {
                        assert(old_m.keys().to_set().contains(k2));
                    }
                }
                assert forall|j: int|
                    0 <= j < i + 1 && is_ts_file(dir@, #[trigger] found@[j]@, sep, w) implies m.keys().contains(
                    path_key(found@[j]@, sep),
                ) by {
                    let kj = path_key(found@[j]@, sep);
                    if j < i {
                        assert(old_m.keys().contains(kj));
                        assert(old_m.keys().to_set().contains(kj));
                        assert(m.keys().to_set().contains(kj));
                    } else {
                        assert(m.keys().to_set().contains(kj));
                    }
                }
            }
        }
        i = i + 1;
    }
    let n = m.len();
    let mut out: Vec<String> = Vec::new();
    let mut q: usize = 0;
    while q < n
        invariant
            q <= n,
            n == m.keys().len(),
            n == m.vals().len(),
            sorted_keys(m.keys()),
            out@.len() == q,
            w == h.windows(),
            forall|t: int| 0 <= t < q ==> path_key((#[trigger] out@[t])@, sep) == m.keys()[t] && views(found@).contains(
                out@[t]@,
            ) && is_ts_file(dir@, out@[t]@, sep, w),
            forall|k: Seq<char>|
                #[trigger] m.keys().contains(k) ==> (m.lookup(k) matches Some(v) && path_key(v@, sep) == k
                    && views(found@).contains(v@) && is_ts_file(dir@, v@, sep, w)),
        decreases n - q,
    {
        let v = m.val_at(q).clone();
        proof {
            m.lemma_index_of(q as int);
            assert(m.keys().contains(m.keys()[q as int]));
        }
        out.push(v);
        q = q + 1;
    }
    proof {
        assert(path_keys(views(out@), sep) =~= m.keys());
        assert forall|i: int, j: int| 0 <= i < j < out@.len() implies parts_lt(
            path_components(#[trigger] out@[i]@, sep),
            path_components(#[trigger] out@[j]@, sep),
        ) by {
            assert(path_keys(views(out@), sep)[i] == path_key(out@[i]@, sep));
            assert(path_keys(views(out@), sep)[j] == path_key(out@[j]@, sep));
            lemma_path_order_by_components(out@[i]@, out@[j]@, sep);
        }
        let fv = views(found@);
        let ov = views(out@);
        assert forall|i: int| 0 <= i < ov.len() implies fv.contains(#[trigger] ov[i]) && is_ts_file(dir@, ov[i], sep, w) by {
            assert(ov[i] == out@[i]@);
        }
        assert forall|j: int| 0 <= j < fv.len() && is_ts_file(dir@, #[trigger] fv[j], sep, w) implies path_keys(
            ov,
            sep,
        ).contains(path_key(fv[j], sep)) by {
            assert(fv[j] == found@[j]@);
        }
        assert(ts_selection(dir@, fv, sep, ov, w));
    }
    out
}

/// The organisation whose forks the new `origin` remotes point at: the
/// configured one, or the user's own when none is configured.
pub open spec fn remote_org_spec(setup: RemoteSetup, username: Seq<char>) -> Seq<char> {
    if setup.remote_org@.len() == 0 {
        username
    } else {
        setup.remote_org@
    }
}

/// The organisation of the forks.
pub fn remote_org(setup: &RemoteSetup, username: &str) -> (r: String)
    ensures
        r@ == remote_org_spec(*setup, username@),
{
    if crate::text::char_count(setup.remote_org.as_str()) == 0 {
        owned(username)
    } else {
        setup.remote_org.clone()
    }
}

/// The address of `org`'s fork of `repo` under the prefix `prefix`.
pub open spec fn fork_url_spec(prefix: Seq<char>, org: Seq<char>, repo: Seq<char>) -> Seq<char> {
    trim_end_char(prefix, '/') + ":"@ + org + "/"@ + repo + ".git"@
}

/// The address of `org`'s fork of `repo`: the prefix without its trailing
/// slashes, a colon, `org/repo.git`.
pub fn fork_url(prefix: &str, org: &str, repo: &str) -> (r: String)
    ensures
        r@ == fork_url_spec(prefix@, org@, repo@),
{
    let mut r = trim_end_matches(prefix, '/');
    r.append(":");
    r.append(org);
    r.append("/");
    r.append(repo);
    r.append(".git");
    r
}

/// The SSH address of `org`'s fork of `repo` on GitHub, which the new
/// `origin` remote points at: `git@github.com:org/repo.git`.
pub open spec fn origin_url_spec(org: Seq<char>, repo: Seq<char>) -> Seq<char> {
    "git@github.com:"@ + org + "/"@ + repo + ".git"@
}

/// The SSH address of `org`'s fork of `repo` on GitHub.
pub fn origin_url(org: &str, repo: &str) -> (r: String)
    ensures
        r@ == origin_url_spec(org@, repo@),
{
    let mut r = concat2("git@github.com:", org);
    r.append("/");
    r.append(repo);
    r.append(".git");
    r
}

/// The runs that add remote `name` at `url`, then set its PuTTY key when
/// one is given.
pub open spec fn add_remote_spec(name: Seq<char>, url: Seq<char>, key: Option<Seq<char>>) -> Seq<
    (Seq<Seq<char>>, bool),
> {
    seq![(seq!["remote"@, "add"@, name, url], false)] + match key {
        Some(k) => seq![(seq!["config"@, "remote."@ + name + ".puttykeyfile"@, k], false)],
        None => Seq::empty(),
    }
}

/// The runs that add a remote.
pub fn add_remote_calls(name: &str, url: &str, key: Option<&str>) -> (r: Vec<GitCall>)
    ensures
        calls_view(r@) == add_remote_spec(
            name@,
            url@,
            match key {
                Some(k) => Some(k@),
                None => None,
            },
        ),
{
    let mut out: Vec<GitCall> = Vec::new();
    push_call(&mut out, call(add_remote_args(name, url), false));
    match key {
        Some(k) => {
            push_call(&mut out, call(putty_key_args(name, k), false));
        },
        None => {},
    }
    let ghost kv = match key {
        Some(k) => Some(k@),
        None => None,
    };
    assert(calls_view(out@) =~= add_remote_spec(name@, url@, kv));
    out
}

/// The runs that set the remotes of the repository `repo`: user name and
/// e-mail, `origin` renamed to `upstream` (a failure is ignored), pushing
/// to `upstream` switched off when configured (a failure is ignored), the
/// fork added as `origin`, and `origin` made the default push remote when
/// configured.
pub open spec fn set_remotes_spec(
    setup: RemoteSetup,
    username: Seq<char>,
    email: Seq<char>,
    key: Option<Seq<char>>,
    repo: Seq<char>,
) -> Seq<(Seq<Seq<char>>, bool)> {
    seq![
        (seq!["config"@, "user.name"@, username], false),
        (seq!["config"@, "user.email"@, email], false),
        (seq!["remote"@, "rename"@, "origin"@, "upstream"@], true),
    ] + (if setup.remote_no_push_upstream {
        seq![(seq!["remote"@, "set-url"@, "--push"@, "upstream"@, "nopushurl"@], true)]
    } else {
        Seq::empty()
    }) + add_remote_spec("origin"@, origin_url_spec(remote_org_spec(setup, username), repo), key) + (
    if setup.remote_push_default_origin {
        seq![(seq!["config"@, "remote.pushDefault"@, "origin"@], false)]
    } else {
        Seq::empty()
    })
}

/// The runs that set the remotes of one repository.
pub fn set_remotes_calls(
    setup: &RemoteSetup,
    username: &str,
    email: &str,
    key: Option<&str>,
    repo: &str,
) -> (r: Vec<GitCall>)
    ensures
        calls_view(r@) == set_remotes_spec(
            *setup,
            username@,
            email@,
            match key {
                Some(k) => Some(k@),
                None => None,
            },
            repo@,
        ),
{
    let mut out: Vec<GitCall> = Vec::new();
    push_call(&mut out, call(set_config_args("user.name", username), false));
    push_call(&mut out, call(set_config_args("user.email", email), false));
    push_call(&mut out, call(rename_remote_args("origin", "upstream"), true));
    if setup.remote_no_push_upstream {
        push_call(&mut out, call(set_remote_push_url_args("upstream", "nopushurl"), true));
    }
    let org = remote_org(setup, username);
    let url = origin_url(org.as_str(), repo);
    let mut added = add_remote_calls("origin", url.as_str(), key);
    let ghost before = out@;
    let ghost added_s = added@;
    out.append(&mut added);
    assert(calls_view(out@) =~= calls_view(before) + calls_view(added_s));
    if setup.remote_push_default_origin {
        push_call(&mut out, call(set_config_args("remote.pushDefault", "origin"), false));
    }
    proof {
        reveal_strlit("origin");
        let kv = match key {
            Some(k) => Some(k@),
            None => None,
        };
        let s = set_remotes_spec(*setup, username@, email@, kv, repo@);
        assert(calls_view(out@) =~= s);
    }
    out
}

/// Whether an operation limited to the repositories named in `only` (all of
/// them when it is empty) takes the repository `name`.
pub fn wants_repo(only: &Vec<String>, name: &str) -> (r: bool)
    ensures
        r == (only@.len() == 0 || views(only@).contains(name@)),
{
    if only.len() == 0 {
        return true;
    }
    let mut i: usize = 0;
    while i < only.len()
        invariant
            i <= only@.len(),
            forall|j: int| 0 <= j < i ==> only@[j]@ != name@,
        decreases only.len() - i,
    {
        if str_eq(only[i].as_str(), name) {
            assert(views(only@)[i as int] == name@);
            return true;
        }
        i = i + 1;
    }
    proof {
        if views(only@).contains(name@) {
            let j = choose|j: int| 0 <= j < views(only@).len() && views(only@)[j] == name@;
            assert(only@[j]@ == name@);
        }
    }
    false
}

/// The runs that mark (`enable`) or unmark each of `files` unchanged.
pub fn ignore_ts_calls(files: &Vec<String>, enable: bool) -> (r: Vec<GitCall>)
    ensures
        r@.len() == files@.len(),
        forall|i: int|
            0 <= i < files@.len() ==> call_view(#[trigger] r@[i]) == (
                seq![
                    "update-index"@,
                    if enable {
                        "--assume-unchanged"@
                    } else {
                        "--no-assume-unchanged"@
                    },
                    files@[i]@,
                ],
                false,
            ),
{
    let mut out: Vec<GitCall> = Vec::new();
    let mut i: usize = 0;
    while i < files.len()
        invariant
            i <= files@.len(),
            out@.len() == i,
            forall|j: int|
                0 <= j < i ==> call_view(#[trigger] out@[j]) == (
                    seq![
                        "update-index"@,
                        if enable {
                            "--assume-unchanged"@
                        } else {
                            "--no-assume-unchanged"@
                        },
                        files@[j]@,
                    ],
                    false,
                ),
        decreases files.len() - i,
    {
        out.push(call(assume_unchanged_args(files[i].as_str(), enable), false));
        i = i + 1;
    }
    out
}

/// The branch shown for a repository: its current branch, or `(detached)`.
pub fn branch_label(current: Option<String>) -> (r: String)
    ensures
        r@ == match current {
            Some(b) => b@,
            None => "(detached)"@,
        },
{
    match current {
        Some(b) => b,
        None => owned("(detached)"),
    }
}

/// What an operation does in one repository: its path, its name, and the
/// runs of `git` there.
pub struct RepoPlan {
    /// The repository's path.
    pub repo: String,
    /// The repository's name.
    pub name: String,
    /// The runs of `git`, in order.
    pub calls: Vec<GitCall>,
}

/// A key file as plain values.
pub open spec fn key_view(k: Option<&str>) -> Option<Seq<char>> {
    match k {
        Some(s) => Some(s@),
        None => None,
    }
}

/// Setting the remotes of every repository of `repos` (see
/// `set_remotes_spec`), with the fork organisation of the configuration, on a platform whose main separator is `sep`.
pub fn set_remotes_for_all(
    config: &Config,
    username: &str,
    email: &str,
    key_file: Option<&str>,
    repos: &Vec<String>,
    sep: char,
) -> (r: Vec<RepoPlan>)
    ensures
        r@.len() == repos@.len(),
        forall|i: int|
            0 <= i < repos@.len() ==> {
                &&& (#[trigger] r@[i]).repo@ == repos@[i]@
                &&& r@[i].name@ == repo_name_spec(repos@[i]@, sep)
                &&& calls_view(r@[i].calls@) == set_remotes_spec(
                    config.task.remote_setup,
                    username@,
                    email@,
                    key_view(key_file),
                    repo_name_spec(repos@[i]@, sep),
                )
            },
{
    let mut out: Vec<RepoPlan> = Vec::new();
    let mut i: usize = 0;
    while i < repos.len()
        invariant
            i <= repos@.len(),
            out@.len() == i,
            forall|j: int|
                0 <= j < i ==> {
                    &&& (#[trigger] out@[j]).repo@ == repos@[j]@
                    &&& out@[j].name@ == repo_name_spec(repos@[j]@, sep)
                    &&& calls_view(out@[j].calls@) == set_remotes_spec(
                        config.task.remote_setup,
                        username@,
                        email@,
                        key_view(key_file),
                        repo_name_spec(repos@[j]@, sep),
                    )
                },
        decreases repos.len() - i,
    {
        let name = repo_name(repos[i].as_str(), sep);
        let calls = set_remotes_calls(
            &config.task.remote_setup,
            username,
            email,
            key_file,
            name.as_str(),
        );
        out.push(RepoPlan { repo: repos[i].clone(), name, calls });
        i = i + 1;
    }
    out
}

/// Whether an operation limited to the repositories named in `only` (all of
/// them when it is empty) takes the repository at `path`.
pub open spec fn wanted_repo(only: Seq<Seq<char>>, sep: char) -> spec_fn(Seq<char>) -> bool {
    |path: Seq<char>| only.len() == 0 || only.contains(repo_name_spec(path, sep))
}

/// The repository paths of `plans`, in order.
pub open spec fn plan_repos(plans: Seq<RepoPlan>) -> Seq<Seq<char>> {
    plans.map_values(|p: RepoPlan| p.repo@)
}

/// Adding the remote `name` at `username`'s fork to the repositories of
/// `repos` that `only` names (all of them when it is empty), in the order of
/// `repos`.
pub fn add_remote_to_repos(
    config: &Config,
    name: &str,
    username: &str,
    key_file: Option<&str>,
    only: &Vec<String>,
    repos: &Vec<String>,
    sep: char,
) -> (r: Vec<RepoPlan>)
    ensures
        plan_repos(r@) == views(repos@).filter(wanted_repo(views(only@), sep)),
        forall|k: int|
            0 <= k < r@.len() ==> {
                &&& (only@.len() == 0 || views(only@).contains((#[trigger] r@[k]).name@))
                &&& r@[k].name@ == repo_name_spec(r@[k].repo@, sep)
                &&& calls_view(r@[k].calls@) == add_remote_spec(
                    name@,
                    fork_url_spec(config.task.git_url_prefix@, username@, r@[k].name@),
                    key_view(key_file),
                )
            },
{
    let mut out: Vec<RepoPlan> = Vec::new();
    let mut i: usize = 0;
    while i < repos.len()
        invariant
            i <= repos@.len(),
            plan_repos(out@) == views(repos@).take(i as int).filter(wanted_repo(views(only@), sep)),
            forall|k: int|
                0 <= k < out@.len() ==> {
                    &&& (only@.len() == 0 || views(only@).contains((#[trigger] out@[k]).name@))
                    &&& out@[k].name@ == repo_name_spec(out@[k].repo@, sep)
                    &&& calls_view(out@[k].calls@) == add_remote_spec(
                        name@,
                        fork_url_spec(config.task.git_url_prefix@, username@, out@[k].name@),
                        key_view(key_file),
                    )
                },
        decreases repos.len() - i,
    {
        let ghost pred = wanted_repo(views(only@), sep);
        let ghost before = out@;
        proof {
            reveal(Seq::filter);
            assert(views(repos@).take(i + 1).drop_last() =~= views(repos@).take(i as int));
            assert(views(repos@).take(i + 1).last() == repos@[i as int]@);
        }
        let rn = repo_name(repos[i].as_str(), sep);
        if wants_repo(only, rn.as_str()) {
            let url = fork_url(config.task.git_url_prefix.as_str(), username, rn.as_str());
            let calls = add_remote_calls(name, url.as_str(), key_file);
            out.push(RepoPlan { repo: repos[i].clone(), name: rn, calls });
            proof {
                assert(pred(repos@[i as int]@));
                assert(plan_repos(out@) =~= plan_repos(before).push(repos@[i as int]@));
            }
        } else {
            proof {
                assert(!pred(repos@[i as int]@));
            }
        }
        i = i + 1;
    }
    proof {
        assert(views(repos@).take(repos@.len() as int) =~= views(repos@));
    }
    out
}

/// The number of files, over all repositories, that `set_ignore_ts` marks.
pub open spec fn ts_total(plans: Seq<RepoPlan>) -> nat
    decreases plans.len(),
{
    if plans.len() == 0 {
        0
    } else {
        ts_total(plans.drop_last()) + plans.last().calls@.len()
    }
}

/// The files found in a repository, all of them.
pub open spec fn found_total(found: Seq<(String, Vec<String>)>) -> nat
    decreases found.len(),
{
    if found.len() == 0 {
        0
    } else {
        found_total(found.drop_last()) + found.last().1@.len()
    }
}

/// The `src` directory of the repository at `repo`.
pub open spec fn src_dir(repo: Seq<char>, sep: char) -> Seq<char> {
    path_join(repo, "src"@, sep)
}

/// The call that marks (`enable`) or unmarks unchanged the file `file`.
pub open spec fn ts_call(enable: bool, file: Seq<char>) -> (Seq<Seq<char>>, bool) {
    (
        seq![
            "update-index"@,
            if enable {
                "--assume-unchanged"@
            } else {
                "--no-assume-unchanged"@
            },
            file,
        ],
        false,
    )
}

/// `plan` marks (`enable`) or unmarks unchanged, one call each, the `.ts`
/// files selected under the `src` directory of the repository at `repo`
/// from the files `found` there.
pub open spec fn repo_planned(plan: RepoPlan, repo: Seq<char>, found: Seq<Seq<char>>, sep: char, enable: bool) -> bool {
    &&& plan.repo@ == repo
    &&& plan.name@ == repo_name_spec(repo, sep)
    &&& exists|files: Seq<Seq<char>>, w: bool|
        {
            &&& ts_selection(src_dir(repo, sep), found, sep, files, w)
            &&& plan.calls@.len() == files.len()
            &&& forall|q: int| 0 <= q < files.len() ==> call_view(#[trigger] plan.calls@[q]) == ts_call(enable, files[q])
        }
}

/// Marking (`enable`) or unmarking unchanged the `.ts` files of each
/// repository of `found` (its path and the files found under its `src`),
/// in path order, and the number of files marked.
pub fn set_ignore_ts(found: &Vec<(String, Vec<String>)>, enable: bool, sep: char) -> (r: (Vec<RepoPlan>, usize))
    requires
        found_total(found@) <= usize::MAX,
    ensures
        r.0@.len() == found@.len(),
        r.1 == ts_total(r.0@),
        forall|i: int|
            0 <= i < found@.len() ==> repo_planned(#[trigger] r.0@[i], found@[i].0@, views(found@[i].1@), sep, enable),
{
    let mut out: Vec<RepoPlan> = Vec::new();
    let mut count: usize = 0;
    let mut i: usize = 0;
    while i < found.len()
        invariant
            i <= found@.len(),
            found_total(found@) <= usize::MAX,
            out@.len() == i,
            count == ts_total(out@),
            ts_total(out@) <= found_total(found@.take(i as int)),
            forall|j: int|
                0 <= j < i ==> repo_planned(#[trigger] out@[j], found@[j].0@, views(found@[j].1@), sep, enable),
        decreases found.len() - i,
    {
        let dir = join_with(found[i].0.as_str(), "src", sep);
        let files = find_ts_files(dir.as_str(), found[i].1.clone(), sep);
        let ghost wi = choose|w: bool| ts_selection(dir@, views(found[i as int].1@), sep, views(files@), w);
        proof {
            lemma_selection_len_bound(views(files@), views(found@[i as int].1@), sep);
            lemma_found_total_take(found@, i as int);
        }
        let calls = ignore_ts_calls(&files, enable);
        let n = calls.len();
        let name = repo_name(found[i].0.as_str(), sep);
        let ghost before = out@;
        let ghost calls_s = calls@;
        let plan = RepoPlan { repo: found[i].0.clone(), name, calls };
        proof {
            let fs = views(files@);
            assert(views(files@).len() == files@.len());
            assert(forall|q: int| 0 <= q < fs.len() ==> fs[q] == files@[q]@);
            assert(dir@ == src_dir(found@[i as int].0@, sep));
            assert(ts_selection(src_dir(found@[i as int].0@, sep), views(found@[i as int].1@), sep, fs, wi));
            assert forall|q: int| 0 <= q < fs.len() implies call_view(#[trigger] plan.calls@[q]) == ts_call(
                enable,
                fs[q],
            ) by {
                assert(plan.calls@[q] == calls_s[q]);
            }
            assert(repo_planned(plan, found@[i as int].0@, views(found@[i as int].1@), sep, enable));
        }
        out.push(plan);
        proof {
            assert(out@.drop_last() =~= before);
            assert forall|j: int| 0 <= j < i implies #[trigger] out@[j] == before[j] by {}
        }
        count = count + n;
        i = i + 1;
    }
    assert(found@.take(found@.len() as int) =~= found@);
    (out, count)
}

proof fn lemma_found_total_take(found: Seq<(String, Vec<String>)>, i: int)
    requires
        0 <= i < found.len(),
    ensures
        found_total(found.take(i + 1)) == found_total(found.take(i)) + found[i].1@.len(),
        found_total(found.take(i + 1)) <= found_total(found),
    decreases found.len(),
{
    assert(found.take(i + 1).drop_last() =~= found.take(i));
    lemma_found_total_prefix(found, i + 1);
}

proof fn lemma_found_total_prefix(found: Seq<(String, Vec<String>)>, n: int)
    requires
        0 <= n <= found.len(),
    ensures
        found_total(found.take(n)) <= found_total(found),
    decreases found.len() - n,
{
    if n < found.len() {
        lemma_found_total_prefix(found, n + 1);
        assert(found.take(n + 1).drop_last() =~= found.take(n));
    } else {
        assert(found.take(n) =~= found);
    }
}

/// A selection of files, ordered by strictly increasing keys, has no more
/// files than it was taken from.
proof fn lemma_selection_len_bound(files: Seq<Seq<char>>, items: Seq<Seq<char>>, sep: char)
    requires
        sorted_keys(path_keys(files, sep)),
        forall|i: int| 0 <= i < files.len() ==> items.contains(#[trigger] files[i]),
    ensures
        files.len() <= items.len(),
{
    let keys = path_keys(files, sep);
    crate::strmap::lemma_sorted_no_dup(keys);
    assert forall|a: int, b: int| 0 <= a < files.len() && 0 <= b < files.len() && a != b implies files[a] != files[b] by {
        assert(keys[a] == path_key(files[a], sep));
        assert(keys[b] == path_key(files[b], sep));
    }
    assert(files.no_duplicates());
    let sorted = files;
    assert(sorted.to_set().subset_of(items.to_set()));
    sorted.unique_seq_to_set();
    items.lemma_cardinality_of_set();
    vstd::set_lib::lemma_len_subset(sorted.to_set(), items.to_set());
}

/// The branch of each repository of `repos`, from what the query of its
/// current branch gave.
pub fn list_branches(repos: &Vec<String>, current: Vec<Option<String>>) -> (r: Vec<(String, String)>)
    requires
        current@.len() == repos@.len(),
    ensures
        r@.len() == repos@.len(),
        forall|i: int|
            0 <= i < repos@.len() ==> (#[trigger] r@[i]).0@ == repos@[i]@ && r@[i].1@ == match current@[i] {
                Some(b) => b@,
                None => "(detached)"@,
            },
{
    let mut out: Vec<(String, String)> = Vec::new();
    let mut i: usize = 0;
    while i < repos.len()
        invariant
            i <= repos@.len(),
            repos@.len() == current@.len(),
            out@.len() == i,
            forall|j: int|
                0 <= j < i ==> (#[trigger] out@[j]).0@ == repos@[j]@ && out@[j].1@ == match current@[j] {
                    Some(b) => b@,
                    None => "(detached)"@,
                },
        decreases repos.len() - i,
    {
        let label = match &current[i] {
            Some(b) => b.clone(),
            None => owned("(detached)"),
        };
        out.push((repos[i].clone(), label));
        i = i + 1;
    }
    out
}

/// The run that fetches `refspec` from the remote at `remote_url`.
pub fn fetch_refspec(remote_url: &str, refspec: &str) -> (r: GitCall)
    ensures
        call_view(r) == (seq!["fetch"@, "--quiet"@, remote_url@, refspec@], false),
{
    call(super::cmd::fetch_refspec_args(remote_url, refspec), false)
}

} // verus!
