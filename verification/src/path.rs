//! Paths as strings.
//!
//! The library keeps filesystem paths as text. Joining follows
//! `std::path::Path::join` for plain paths, drive-letter paths (`C:\\x`) and
//! UNC paths; verbatim (`\\\\?\\`) prefixes are not treated specially.

use vstd::prelude::*;

use crate::text::{chars_of, string_of, string_push, substring};

verus! {

/// The platform the program runs on, known by its main path separator:
/// `\` on Windows, `/` elsewhere. A `Host` is made only by `host()`, so
/// its separator is the platform's.
pub struct Host {
    sep: char,
}

impl Host {
    /// The main path separator of the platform.
    pub closed spec fn separator(&self) -> char {
        self.sep
    }

    /// Whether the platform is Windows, whose main separator is `\`.
    pub open spec fn windows(&self) -> bool {
        self.separator() == '\\'
    }

    /// The main path separator of the platform.
    pub fn sep(&self) -> (c: char)
        ensures
            c == self.separator(),
    {
        self.sep
    }
}

/// The platform this runs on, read from `std::path::MAIN_SEPARATOR`.
#[verifier::external_body]
pub(crate) fn host() -> (h: Host)
    ensures
        h.separator() == '/' || h.separator() == '\\',
{
    Host { sep: std::path::MAIN_SEPARATOR }
}

/// The platform's path separator: `\` on Windows, `/` elsewhere.
pub(crate) fn main_separator() -> (c: char)
    ensures
        c == '/' || c == '\\',
{
    host().sep()
}

/// `std::path::Path::exists`: whether a file or directory is at `path`.
/// It depends on the filesystem.
#[verifier::external_body]
pub(crate) fn path_exists(path: &str) -> bool {
    std::path::Path::new(path).exists()
}

/// Whether `f`, asked about the path `p`, may answer `b`.
pub open spec fn answers<F: Fn(&str) -> bool>(f: F, p: Seq<char>, b: bool) -> bool {
    exists|q: &str| q@ == p && #[trigger] f.ensures((q,), b)
}

/// `r` is the first of `cands` that `f` answered yes for, `f` having
/// answered no for every one before it; `None` when `f` answered no for all
/// of them.
pub open spec fn first_answered<F: Fn(&str) -> bool>(cands: Seq<Seq<char>>, f: F, r: Option<String>) -> bool {
    match r {
        Some(p) => exists|i: int|
            0 <= i < cands.len() && cands[i] == p@ && answers(f, cands[i], true) && forall|j: int|
                0 <= j < i ==> answers(f, #[trigger] cands[j], false),
        None => forall|j: int| 0 <= j < cands.len() ==> answers(f, #[trigger] cands[j], false),
    }
}

/// Whether `c` separates path components on a platform whose main separator
/// is `sep` (`/` always does).
pub open spec fn is_sep(c: char, sep: char) -> bool {
    c == '/' || c == sep
}

/// Whether `c` is an ASCII letter.
pub open spec fn is_ascii_letter(c: char) -> bool {
    (65 <= (c as u32) && (c as u32) <= 90) || (97 <= (c as u32) && (c as u32) <= 122)
}

/// Whether a Windows path starts with a drive prefix such as `C:`.
pub open spec fn has_drive(p: Seq<char>) -> bool {
    p.len() >= 2 && is_ascii_letter(p[0]) && p[1] == ':'
}

/// Whether a path is absolute (`Path::is_absolute`). With `/` as the main
/// separator: it starts with `/`. With `\`: it starts with a drive and a
/// separator (`C:\x`), or with two separators (a UNC path).
pub open spec fn is_absolute(p: Seq<char>, sep: char) -> bool {
    if sep == '\\' {
        (has_drive(p) && p.len() >= 3 && is_sep(p[2], sep)) || (p.len() >= 2 && is_sep(p[0], sep) && is_sep(
            p[1],
            sep,
        ))
    } else {
        p.len() > 0 && is_sep(p[0], sep)
    }
}

/// `base` joined with `rel` (`Path::join`): an absolute `rel`, or one with a
/// drive, replaces `base`; on Windows a `rel` that starts with a separator
/// keeps only the drive of `base`; otherwise the two are joined by one
/// separator.
pub open spec fn path_join(base: Seq<char>, rel: Seq<char>, sep: char) -> Seq<char> {
    if is_absolute(rel, sep) || (sep == '\\' && has_drive(rel)) {
        rel
    } else if sep == '\\' && rel.len() > 0 && is_sep(rel[0], sep) {
        if has_drive(base) {
            base.take(2) + rel
        } else {
            rel
        }
    } else if base.len() == 0 {
        rel
    } else if is_sep(base.last(), sep) {
        base + rel
    } else {
        base.push(sep) + rel
    }
}

fn is_sep_exec(c: char, sep: char) -> (b: bool)
    ensures
        b == is_sep(c, sep),
{
    c == '/' || c == sep
}

fn is_ascii_letter_exec(c: char) -> (b: bool)
    ensures
        b == is_ascii_letter(c),
{
    let u = c as u32;
    (65 <= u && u <= 90) || (97 <= u && u <= 122)
}

fn has_drive_exec(v: &Vec<char>) -> (b: bool)
    ensures
        b == has_drive(v@),
{
    v.len() >= 2 && is_ascii_letter_exec(v[0]) && v[1] == ':'
}

fn absolute_chars(v: &Vec<char>, sep: char) -> (b: bool)
    ensures
        b == is_absolute(v@, sep),
{
    if sep == '\\' {
        (has_drive_exec(v) && v.len() >= 3 && is_sep_exec(v[2], sep)) || (v.len() >= 2 && is_sep_exec(
            v[0],
            sep,
        ) && is_sep_exec(v[1], sep))
    } else {
        v.len() > 0 && is_sep_exec(v[0], sep)
    }
}

/// Whether `p` is absolute on a platform whose main separator is `sep`.
pub fn absolute(p: &str, sep: char) -> (b: bool)
    ensures
        b == is_absolute(p@, sep),
{
    let v = chars_of(p);
    absolute_chars(&v, sep)
}

/// Joins two paths with the platform separator (`Path::join`).
pub fn join(base: &str, rel: &str) -> (r: String)
    ensures
        exists|sep: char| (sep == '/' || sep == '\\') && r@ == path_join(base@, rel@, sep),
{
    let sep = main_separator();
    let r = join_with(base, rel, sep);
    r
}

/// Joins two paths on a platform whose main separator is `sep`.
pub fn join_with(base: &str, rel: &str, sep: char) -> (r: String)
    ensures
        r@ == path_join(base@, rel@, sep),
{
    let bv = chars_of(base);
    let rv = chars_of(rel);
    if absolute_chars(&rv, sep) || (sep == '\\' && has_drive_exec(&rv)) {
        return string_of(&rv);
    }
    if sep == '\\' && rv.len() > 0 && is_sep_exec(rv[0], sep) {
        if has_drive_exec(&bv) {
            let mut r = String::new();
            string_push(&mut r, bv[0]);
            string_push(&mut r, bv[1]);
            r.append(rel);
            assert(r@ =~= bv@.take(2) + rv@);
            return r;
        } else {
            return string_of(&rv);
        }
    }
    if bv.len() == 0 {
        return string_of(&rv);
    }
    let mut r = string_of(&bv);
    if !is_sep_exec(bv[bv.len() - 1], sep) {
        string_push(&mut r, sep);
    }
    r.append(rel);
    r
}

/// The last component of a path (`Path::file_name` for paths whose last
/// component is a normal name): trailing separators are ignored, and an empty
/// name or `..` gives `None`.
pub open spec fn file_name(p: Seq<char>, sep: char) -> Option<Seq<char>> {
    let t = trim_seps(p, sep);
    let name = t.skip(last_sep_end(t, sep));
    if name.len() == 0 || name == seq!['.', '.'] {
        None
    } else {
        Some(name)
    }
}

/// `p` without trailing separators.
pub open spec fn trim_seps(p: Seq<char>, sep: char) -> Seq<char>
    decreases p.len(),
{
    if p.len() > 0 && is_sep(p.last(), sep) {
        trim_seps(p.drop_last(), sep)
    } else {
        p
    }
}

/// The index just after the last separator in `p`, or 0 when it has none.
pub open spec fn last_sep_end(p: Seq<char>, sep: char) -> int
    decreases p.len(),
{
    if p.len() == 0 {
        0
    } else if is_sep(p.last(), sep) {
        p.len() as int
    } else {
        last_sep_end(p.drop_last(), sep)
    }
}

proof fn lemma_last_sep_end_bound(p: Seq<char>, sep: char)
    ensures
        0 <= last_sep_end(p, sep) <= p.len(),
    decreases p.len(),
{
    if p.len() > 0 && !is_sep(p.last(), sep) {
        lemma_last_sep_end_bound(p.drop_last(), sep);
    }
}

/// The last component of `p`.
pub fn file_name_of(p: &str, sep: char) -> (r: Option<String>)
    ensures
        match r {
            Some(s) => file_name(p@, sep) == Some(s@),
            None => file_name(p@, sep) is None,
        },
{
    let v = chars_of(p);
    let mut end: usize = v.len();
    assert(v@.take(end as int) =~= v@);
    while end > 0 && is_sep_exec(v[end - 1], sep)
        invariant
            end <= v.len(),
            v@ == p@,
            trim_seps(p@, sep) == trim_seps(v@.take(end as int), sep),
        decreases end,
    {
        assert(v@.take(end as int).drop_last() =~= v@.take(end as int - 1));
        end = end - 1;
    }
    let ghost t = v@.take(end as int);
    assert(trim_seps(t, sep) == t);
    let mut start: usize = end;
    while start > 0 && !is_sep_exec(v[start - 1], sep)
        invariant
            start <= end <= v.len(),
            t == v@.take(end as int),
            last_sep_end(t, sep) == last_sep_end(v@.take(start as int), sep),
        decreases start,
    {
        assert(v@.take(start as int).drop_last() =~= v@.take(start as int - 1));
        start = start - 1;
    }
    proof {
        if start > 0 {
            assert(v@.take(start as int).last() == v@[start as int - 1]);
        }
        assert(last_sep_end(v@.take(start as int), sep) == start as int);
        assert(t.skip(start as int) =~= v@.subrange(start as int, end as int));
    }
    let name = substring(&v, start, end);
    let nv = chars_of(name.as_str());
    if nv.len() == 0 || (nv.len() == 2 && nv[0] == '.' && nv[1] == '.') {
        proof {
            if nv.len() == 2 {
                assert(name@ =~= seq!['.', '.']);
            }
        }
        None
    } else {
        proof {
            if name@ == seq!['.', '.'] {
                assert(nv@[0] == '.');
            }
        }
        Some(name)
    }
}

/// The file name without its extension (`Path::file_stem`): the part before
/// the last `.`, unless the name starts with its only `.` or is `..`.
pub open spec fn file_stem(p: Seq<char>, sep: char) -> Option<Seq<char>> {
    match file_name(p, sep) {
        Some(n) => {
            let dot = last_dot(n);
            if dot <= 0 {
                Some(n)
            } else {
                Some(n.take(dot))
            }
        },
        None => None,
    }
}

/// The index of the last `.` in `n`, or -1 when it has none.
pub open spec fn last_dot(n: Seq<char>) -> int
    decreases n.len(),
{
    if n.len() == 0 {
        -1
    } else if n.last() == '.' {
        n.len() - 1
    } else {
        last_dot(n.drop_last())
    }
}

proof fn lemma_last_dot_bound(n: Seq<char>)
    ensures
        -1 <= last_dot(n) < n.len(),
    decreases n.len(),
{
    if n.len() > 0 && n.last() != '.' {
        lemma_last_dot_bound(n.drop_last());
    }
}

/// The stem of the last component of `p`.
pub fn file_stem_of(p: &str, sep: char) -> (r: Option<String>)
    ensures
        match r {
            Some(s) => file_stem(p@, sep) == Some(s@),
            None => file_stem(p@, sep) is None,
        },
{
    match file_name_of(p, sep) {
        None => None,
        Some(name) => {
            let v = chars_of(name.as_str());
            let mut i: usize = v.len();
            assert(v@.take(i as int) =~= v@);
            while i > 0 && v[i - 1] != '.'
                invariant
                    i <= v.len(),
                    v@ == name@,
                    last_dot(name@) == last_dot(v@.take(i as int)),
                decreases i,
            {
                assert(v@.take(i as int).drop_last() =~= v@.take(i as int - 1));
                i = i - 1;
            }
            proof {
                if i > 0 {
                    assert(v@.take(i as int).last() == v@[i as int - 1]);
                }
            }
            if i <= 1 {
                Some(name)
            } else {
                Some(substring(&v, 0, i - 1))
            }
        },
    }
}

} // verus!
