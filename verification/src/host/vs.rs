//! Visual Studio installations.
//!
//! `vswhere` lists the installations; the library derives their tool paths
//! and picks among them.

use vstd::prelude::*;

use crate::path::{answers, first_answered, join_with, main_separator, path_join};
use crate::text::{owned, parse_u64, spec_parse_u64, split_on};

verus! {

/// A Visual Studio installation, as `vswhere` describes it.
#[derive(Debug)]
pub struct VsInstallation {
    /// Instance identifier.
    pub instance_id: String,
    /// Installation directory.
    pub installation_path: String,
    /// Version, such as `17.9.34728.123`.
    pub installation_version: String,
    /// Display name.
    pub display_name: String,
    /// Whether the installation is complete.
    pub is_complete: bool,
    /// Whether it is a prerelease.
    pub is_prerelease: bool,
}

impl Clone for VsInstallation {
    fn clone(&self) -> (r: VsInstallation)
        ensures
            r == *self,
    {
        VsInstallation {
            instance_id: self.instance_id.clone(),
            installation_path: self.installation_path.clone(),
            installation_version: self.installation_version.clone(),
            display_name: self.display_name.clone(),
            is_complete: self.is_complete,
            is_prerelease: self.is_prerelease,
        }
    }
}

/// `base` joined with each of `parts` in turn.
pub open spec fn join_all(base: Seq<char>, parts: Seq<Seq<char>>, sep: char) -> Seq<char>
    decreases parts.len(),
{
    if parts.len() == 0 {
        base
    } else {
        path_join(join_all(base, parts.drop_last(), sep), parts.last(), sep)
    }
}

/// A component of a dotted version read as a number, if it is one.
pub open spec fn version_part(s: Seq<char>) -> Option<u32> {
    match spec_parse_u64(s) {
        Some(n) => if n <= u32::MAX {
            Some(n as u32)
        } else {
            None
        },
        None => None,
    }
}

/// The numeric components of a dotted version, in order; the others are
/// skipped.
pub open spec fn version_numbers(parts: Seq<Seq<char>>) -> Seq<u32>
    decreases parts.len(),
{
    if parts.len() == 0 {
        Seq::empty()
    } else {
        match version_part(parts.last()) {
            Some(n) => version_numbers(parts.drop_last()).push(n),
            None => version_numbers(parts.drop_last()),
        }
    }
}

/// The `i`-th number, or 0.
pub open spec fn nth_or_zero(s: Seq<u32>, i: int) -> u32 {
    if 0 <= i < s.len() {
        s[i]
    } else {
        0
    }
}

/// A version as a four-part tuple: the first four numeric components of
/// the dotted text, missing ones as 0.
pub open spec fn version_of(v: Seq<char>) -> (u32, u32, u32, u32) {
    let n = version_numbers(split_on(v, '.'));
    (nth_or_zero(n, 0), nth_or_zero(n, 1), nth_or_zero(n, 2), nth_or_zero(n, 3))
}

/// Whether version `a` is newer than version `b`.
pub open spec fn version_gt(a: (u32, u32, u32, u32), b: (u32, u32, u32, u32)) -> bool {
    a.0 > b.0 || (a.0 == b.0 && (a.1 > b.1 || (a.1 == b.1 && (a.2 > b.2 || (a.2 == b.2 && a.3 > b.3)))))
}

/// The components of a version, most significant first.
pub open spec fn version_parts(v: (u32, u32, u32, u32)) -> Seq<u32> {
    seq![v.0, v.1, v.2, v.3]
}

/// Versions compare as their components do, most significant first: `a` is
/// newer than `b` exactly when, at the first component where they differ,
/// `a`'s is greater. So no version is newer than itself, and of two
/// different versions exactly one is the newer.
pub proof fn lemma_version_gt_lexicographic(a: (u32, u32, u32, u32), b: (u32, u32, u32, u32))
    ensures
        version_gt(a, b) <==> exists|i: int|
            0 <= i < 4 && #[trigger] version_parts(a).take(i) == version_parts(b).take(i) && version_parts(a)[i]
                > version_parts(b)[i],
        !version_gt(a, a),
        a != b ==> (version_gt(a, b) <==> !version_gt(b, a)),
{
    let pa = version_parts(a);
    let pb = version_parts(b);
    if version_gt(a, b) {
        if a.0 > b.0 {
            assert(pa.take(0) =~= pb.take(0));
        } else if a.1 > b.1 {
            assert(pa.take(1) =~= pb.take(1));
        } else if a.2 > b.2 {
            assert(pa.take(2) =~= pb.take(2));
        } else {
            assert(pa.take(3) =~= pb.take(3));
        }
    }
    if exists|i: int| 0 <= i < 4 && #[trigger] pa.take(i) == pb.take(i) && pa[i] > pb[i] {
        let i = choose|i: int| 0 <= i < 4 && #[trigger] pa.take(i) == pb.take(i) && pa[i] > pb[i];
        assert forall|j: int| 0 <= j < i implies pa[j] == pb[j] by {
            assert(pa.take(i)[j] == pb.take(i)[j]);
        }
    }
}

fn newer(a: (u32, u32, u32, u32), b: (u32, u32, u32, u32)) -> (r: bool)
    ensures
        r == version_gt(a, b),
{
    a.0 > b.0 || (a.0 == b.0 && (a.1 > b.1 || (a.1 == b.1 && (a.2 > b.2 || (a.2 == b.2 && a.3 > b.3)))))
}

fn parse_part(s: &Vec<char>) -> (r: Option<u32>)
    ensures
        r == version_part(s@),
{
    let t = crate::text::string_of(s);
    match parse_u64(t.as_str()) {
        Some(n) => if n <= 0xffff_ffff {
            Some(n as u32)
        } else {
            None
        },
        None => None,
    }
}

impl VsInstallation {
    /// The path of the developer shell module.
    pub fn devshell_dll(&self) -> (r: String)
        ensures
            exists|sep: char|
                (sep == '/' || sep == '\\') && r@ == join_all(
                    self.installation_path@,
                    seq!["Common7"@, "Tools"@, "Microsoft.VisualStudio.DevShell.dll"@],
                    sep,
                ),
    {
        let sep = main_separator();
        let a = join_with(self.installation_path.as_str(), "Common7", sep);
        let b = join_with(a.as_str(), "Tools", sep);
        let r = join_with(b.as_str(), "Microsoft.VisualStudio.DevShell.dll", sep);
        proof {
            let parts = seq!["Common7"@, "Tools"@, "Microsoft.VisualStudio.DevShell.dll"@];
            assert(parts.drop_last().drop_last().drop_last() =~= Seq::<Seq<char>>::empty());
            assert(parts.drop_last().drop_last() =~= seq!["Common7"@]);
            assert(parts.drop_last() =~= seq!["Common7"@, "Tools"@]);
            reveal_with_fuel(join_all, 5);
            assert(r@ == join_all(self.installation_path@, parts, sep));
        }
        r
    }

    /// The path of `MSBuild.exe`.
    pub fn msbuild_path(&self) -> (r: String)
        ensures
            exists|sep: char|
                (sep == '/' || sep == '\\') && r@ == join_all(
                    self.installation_path@,
                    seq!["MSBuild"@, "Current"@, "Bin"@, "MSBuild.exe"@],
                    sep,
                ),
    {
        let sep = main_separator();
        let a = join_with(self.installation_path.as_str(), "MSBuild", sep);
        let b = join_with(a.as_str(), "Current", sep);
        let c = join_with(b.as_str(), "Bin", sep);
        let r = join_with(c.as_str(), "MSBuild.exe", sep);
        proof {
            let parts = seq!["MSBuild"@, "Current"@, "Bin"@, "MSBuild.exe"@];
            assert(parts.drop_last().drop_last().drop_last().drop_last() =~= Seq::<Seq<char>>::empty());
            assert(parts.drop_last().drop_last().drop_last() =~= seq!["MSBuild"@]);
            assert(parts.drop_last().drop_last() =~= seq!["MSBuild"@, "Current"@]);
            assert(parts.drop_last() =~= seq!["MSBuild"@, "Current"@, "Bin"@]);
            reveal_with_fuel(join_all, 5);
            assert(r@ == join_all(self.installation_path@, parts, sep));
        }
        r
    }

    /// The path of `devenv.exe`.
    pub fn devenv_path(&self) -> (r: String)
        ensures
            exists|sep: char|
                (sep == '/' || sep == '\\') && r@ == join_all(
                    self.installation_path@,
                    seq!["Common7"@, "IDE"@, "devenv.exe"@],
                    sep,
                ),
    {
        let sep = main_separator();
        let a = join_with(self.installation_path.as_str(), "Common7", sep);
        let b = join_with(a.as_str(), "IDE", sep);
        let r = join_with(b.as_str(), "devenv.exe", sep);
        proof {
            let parts = seq!["Common7"@, "IDE"@, "devenv.exe"@];
            assert(parts.drop_last().drop_last().drop_last() =~= Seq::<Seq<char>>::empty());
            assert(parts.drop_last().drop_last() =~= seq!["Common7"@]);
            assert(parts.drop_last() =~= seq!["Common7"@, "IDE"@]);
            reveal_with_fuel(join_all, 5);
            assert(r@ == join_all(self.installation_path@, parts, sep));
        }
        r
    }

    /// The version as a four-part tuple.
    pub fn version_tuple(&self) -> (r: (u32, u32, u32, u32))
        ensures
            r == version_of(self.installation_version@),
    {
        let v = crate::text::chars_of(self.installation_version.as_str());
        let mut nums: Vec<u32> = Vec::new();
        let mut cur: Vec<char> = Vec::new();
        let ghost mut done: Seq<Seq<char>> = Seq::empty();
        let mut i: usize = 0;
        assert(v@.take(0) =~= Seq::<char>::empty());
        while i < v.len()
            invariant
                i <= v@.len(),
                v@ == self.installation_version@,
                split_on(v@.take(i as int), '.') == done.push(cur@),
                nums@ == version_numbers(done),
            decreases v.len() - i,
        {
            proof {
                assert(v@.take(i + 1).drop_last() =~= v@.take(i as int));
            }
            if v[i] == '.' {
                match parse_part(&cur) {
                    Some(n) => nums.push(n),
                    None => {},
                }
                proof {
                    assert(done.push(cur@).drop_last() =~= done);
                    done = done.push(cur@);
                }
                cur = Vec::new();
                assert(split_on(v@.take(i + 1), '.') =~= done.push(cur@));
            } else {
                cur.push(v[i]);
                assert(split_on(v@.take(i + 1), '.') =~= done.push(cur@));
            }
            i = i + 1;
        }
        match parse_part(&cur) {
            Some(n) => nums.push(n),
            None => {},
        }
        proof {
            assert(v@.take(v@.len() as int) =~= v@);
            assert(done.push(cur@).drop_last() =~= done);
        }
        let a = if nums.len() > 0 { nums[0] } else { 0 };
        let b = if nums.len() > 1 { nums[1] } else { 0 };
        let c = if nums.len() > 2 { nums[2] } else { 0 };
        let d = if nums.len() > 3 { nums[3] } else { 0 };
        (a, b, c, d)
    }
}

/// Whether an installation can be used: complete and not a prerelease.
pub open spec fn usable(v: VsInstallation) -> bool {
    v.is_complete && !v.is_prerelease
}

/// The usable installations of `l`, in order.
pub open spec fn usable_list(l: Seq<VsInstallation>) -> Seq<VsInstallation>
    decreases l.len(),
{
    if l.len() == 0 {
        Seq::empty()
    } else if usable(l.last()) {
        usable_list(l.drop_last()).push(l.last())
    } else {
        usable_list(l.drop_last())
    }
}

/// Whether the installation at position `a` of `f` comes before the one
/// at `b`: a newer version first, and the earlier one among equal versions.
pub open spec fn comes_before(f: Seq<VsInstallation>, a: int, b: int) -> bool {
    let va = version_of(f[a].installation_version@);
    let vb = version_of(f[b].installation_version@);
    version_gt(va, vb) || (va == vb && a < b)
}

/// `r` is `f` ordered newest first, keeping the order of equal versions:
/// `r[k]` is `f[order[k]]` for an arrangement `order` of the positions of
/// `f`.
pub open spec fn sorted_newest_first(r: Seq<VsInstallation>, f: Seq<VsInstallation>) -> bool {
    exists|order: Seq<int>|
        {
            &&& order.len() == f.len()
            &&& r.len() == f.len()
            &&& forall|k: int| 0 <= k < order.len() ==> 0 <= #[trigger] order[k] < f.len()
            &&& forall|k: int, l: int| 0 <= k < l < order.len() ==> order[k] != order[l]
            &&& forall|k: int| 0 <= k < r.len() ==> #[trigger] r[k] == f[order[k]]
            &&& forall|k: int, l: int|
                0 <= k < l < order.len() ==> comes_before(f, #[trigger] order[k], #[trigger] order[l])
        }
}

/// The installations that can be used, newest first; among equal versions
/// the listed order is kept.
pub fn select_installations(list: Vec<VsInstallation>) -> (r: Vec<VsInstallation>)
    ensures
        sorted_newest_first(r@, usable_list(list@)),
{
    let mut f: Vec<VsInstallation> = Vec::new();
    let mut i: usize = 0;
    while i < list.len()
        invariant
            i <= list@.len(),
            f@ == usable_list(list@.take(i as int)),
        decreases list.len() - i,
    {
        proof {
            assert(list@.take(i + 1).drop_last() =~= list@.take(i as int));
        }
        if list[i].is_complete && !list[i].is_prerelease {
            f.push(list[i].clone());
        }
        i = i + 1;
    }
    proof {
        assert(list@.take(list@.len() as int) =~= list@);
    }
    let ghost fs = f@;
    let mut out: Vec<VsInstallation> = Vec::new();
    let ghost mut order: Seq<int> = Seq::empty();
    let mut n: usize = 0;
    while n < f.len()
        invariant
            fs == f@,
            n <= f@.len(),
            out@.len() == n,
            order.len() == n,
            forall|k: int| 0 <= k < order.len() ==> 0 <= #[trigger] order[k] < n,
            forall|k: int, l: int| 0 <= k < l < order.len() ==> order[k] != order[l],
            forall|k: int| 0 <= k < out@.len() ==> #[trigger] out@[k] == fs[order[k]],
            forall|k: int, l: int|
                0 <= k < l < order.len() ==> comes_before(fs, #[trigger] order[k], #[trigger] order[l]),
        decreases f.len() - n,
    {
        let x = f[n].clone();
        let vx = x.version_tuple();
        let mut p: usize = 0;
        while p < out.len() && !newer(vx, out[p].version_tuple())
            invariant
                p <= out@.len(),
                vx == version_of(fs[n as int].installation_version@),
                x == fs[n as int],
                forall|k: int| 0 <= k < p ==> !version_gt(vx, version_of(#[trigger] out@[k].installation_version@)),
            decreases out.len() - p,
        {
            p = p + 1;
        }
        let ghost old_out = out@;
        let ghost old_order = order;
        out.insert(p, x);
        proof {
            order = old_order.insert(p as int, n as int);
            assert forall|k: int| 0 <= k < out@.len() implies #[trigger] out@[k] == fs[order[k]] by {
                if k < p {
                    assert(out@[k] == old_out[k]);
                } else if k > p {
                    assert(out@[k] == old_out[k - 1]);
                }
            }
            assert forall|k: int, l: int| 0 <= k < l < order.len() implies comes_before(
                fs,
                #[trigger] order[k],
                #[trigger] order[l],
            ) by {
                if l < p {
                    assert(order[k] == old_order[k] && order[l] == old_order[l]);
                } else if l == p {
                    assert(order[k] == old_order[k]);
                    assert(out@[k] == old_out[k]);
                    assert(!version_gt(vx, version_of(old_out[k].installation_version@)));
                } else if k < p {
                    assert(order[k] == old_order[k] && order[l] == old_order[l - 1]);
                } else if k == p {
                    assert(order[l] == old_order[l - 1]);
                    assert(old_out[p as int] == fs[old_order[p as int]]);
                    if l - 1 > p {
                        assert(comes_before(fs, old_order[p as int], old_order[l - 1]));
                    }
                } else {
                    assert(order[k] == old_order[k - 1] && order[l] == old_order[l - 1]);
                }
            }
            assert forall|k: int, l: int| 0 <= k < l < order.len() implies order[k] != order[l] by {
                if k < p && l < p {
                } else if k < p && l == p {
                } else if k < p {
                    assert(order[l] == old_order[l - 1]);
                } else if k == p {
                    assert(order[l] == old_order[l - 1]);
                } else {
                    assert(order[k] == old_order[k - 1] && order[l] == old_order[l - 1]);
                }
            }
            assert forall|k: int| 0 <= k < order.len() implies 0 <= #[trigger] order[k] < n + 1 by {
                if k < p {
                } else if k > p {
                    assert(order[k] == old_order[k - 1]);
                }
            }
        }
        n = n + 1;
    }
    proof {
        assert(sorted_newest_first(out@, usable_list(list@)));
    }
    out
}

/// The standard places of `vswhere.exe`, in the order they are tried.
pub open spec fn vswhere_places() -> Seq<Seq<char>> {
    seq![
        "C:\\Program Files (x86)\\Microsoft Visual Studio\\Installer\\vswhere.exe"@,
        "C:\\Program Files\\Microsoft Visual Studio\\Installer\\vswhere.exe"@,
    ]
}

/// Where `vswhere.exe` is installed, in the order the places are tried.
pub fn vswhere_candidates() -> (r: Vec<String>)
    ensures
        crate::text::views(r@) == vswhere_places(),
{
    let r = vec![
        owned("C:\\Program Files (x86)\\Microsoft Visual Studio\\Installer\\vswhere.exe"),
        owned("C:\\Program Files\\Microsoft Visual Studio\\Installer\\vswhere.exe"),
    ];
    assert(crate::text::views(r@) =~= seq![
        "C:\\Program Files (x86)\\Microsoft Visual Studio\\Installer\\vswhere.exe"@,
        "C:\\Program Files\\Microsoft Visual Studio\\Installer\\vswhere.exe"@,
    ]);
    r
}

/// The places where `vswhere.exe` is looked for, in order: the given path,
/// where one is given, then the standard places.
pub open spec fn vswhere_search(override_path: Option<Seq<char>>) -> Seq<Seq<char>> {
    match override_path {
        Some(o) => seq![o] + vswhere_places(),
        None => vswhere_places(),
    }
}

/// The error when `vswhere.exe` is found nowhere.
pub open spec fn vswhere_missing_text() -> Seq<char> {
    "vswhere.exe not found in standard VS Installer directories"@
}

/// Finds `vswhere.exe`: of the given path, where one is given, and then the
/// standard places, the first where `found` finds something.
///
/// # Errors
///
/// Returns a message if it is found nowhere.
pub fn find_vswhere<F: Fn(&str) -> bool>(override_path: Option<&str>, found: F) -> (r: Result<String, String>)
    requires
        forall|p: &str| #[trigger] found.requires((p,)),
    ensures
        match r {
            Ok(p) => first_answered(
                vswhere_search(
                    match override_path {
                        Some(o) => Some(o@),
                        None => None,
                    },
                ),
                found,
                Some(p),
            ),
            Err(e) => first_answered(
                vswhere_search(
                    match override_path {
                        Some(o) => Some(o@),
                        None => None,
                    },
                ),
                found,
                None::<String>,
            ) && e@ == vswhere_missing_text(),
        },
{
    let ghost ov: Option<Seq<char>> = match override_path {
        Some(o) => Some(o@),
        None => None,
    };
    let mut c: Vec<String> = Vec::new();
    match override_path {
        Some(p) => c.push(owned(p)),
        None => {},
    }
    let mut places = vswhere_candidates();
    c.append(&mut places);
    let ghost cands = vswhere_search(ov);
    assert(crate::text::views(c@) =~= cands);
    let mut i: usize = 0;
    while i < c.len()
        invariant
            i <= c@.len(),
            forall|p: &str| #[trigger] found.requires((p,)),
            crate::text::views(c@) == cands,
            cands == vswhere_search(ov),
            ov == match override_path {
                Some(o) => Some(o@),
                None => None::<Seq<char>>,
            },
            forall|j: int| 0 <= j < i ==> answers(found, #[trigger] cands[j], false),
        decreases c.len() - i,
    {
        let cs: &str = c[i].as_str();
        let yes = found(cs);
        proof {
            assert(crate::text::views(c@)[i as int] == cs@);
            assert(answers(found, cands[i as int], yes));
        }
        if yes {
            let p = c[i].clone();
            proof {
                assert(cands[i as int] == p@);
                assert(first_answered(cands, found, Some(p)));
            }
            return Ok(p);
        }
        i = i + 1;
    }
    proof {
        assert(first_answered(cands, found, None::<String>));
    }
    Err(owned("vswhere.exe not found in standard VS Installer directories"))
}

/// The usable installations of a list are complete, not prereleases, and
/// taken from the list.
pub proof fn lemma_usable_list(l: Seq<VsInstallation>)
    ensures
        forall|k: int|
            0 <= k < usable_list(l).len() ==> (#[trigger] usable_list(l)[k]).is_complete && !usable_list(l)[k].is_prerelease
                && l.contains(usable_list(l)[k]),
    decreases l.len(),
{
    if l.len() > 0 {
        lemma_usable_list(l.drop_last());
        let u = usable_list(l);
        let p = usable_list(l.drop_last());
        assert forall|k: int| 0 <= k < u.len() implies (#[trigger] u[k]).is_complete && !u[k].is_prerelease && l.contains(u[k]) by {
            if k < p.len() {
                assert(u[k] == p[k]);
                let j = choose|j: int| 0 <= j < l.drop_last().len() && l.drop_last()[j] == p[k];
                assert(l[j] == p[k]);
            } else {
                assert(u[k] == l.last());
                assert(l[l.len() - 1] == l.last());
            }
        }
    }
}

/// Every installation that the selection keeps is complete, not a
/// prerelease, and one of those listed.
pub proof fn lemma_selection_usable(r: Seq<VsInstallation>, l: Seq<VsInstallation>)
    requires
        sorted_newest_first(r, usable_list(l)),
    ensures
        r.len() == usable_list(l).len(),
        forall|k: int| 0 <= k < r.len() ==> (#[trigger] r[k]).is_complete && !r[k].is_prerelease && l.contains(r[k]),
{
    let f = usable_list(l);
    lemma_usable_list(l);
    let order = choose|order: Seq<int>|
        {
            &&& order.len() == f.len()
            &&& r.len() == f.len()
            &&& forall|k: int| 0 <= k < order.len() ==> 0 <= #[trigger] order[k] < f.len()
            &&& forall|k: int, l: int| 0 <= k < l < order.len() ==> order[k] != order[l]
            &&& forall|k: int| 0 <= k < r.len() ==> #[trigger] r[k] == f[order[k]]
            &&& forall|k: int, l: int|
                0 <= k < l < order.len() ==> comes_before(f, #[trigger] order[k], #[trigger] order[l])
        };
    assert forall|k: int| 0 <= k < r.len() implies (#[trigger] r[k]).is_complete && !r[k].is_prerelease && l.contains(r[k]) by {
        assert(r[k] == f[order[k]]);
        assert(0 <= order[k] < f.len());
    }
}

/// Of the installations that can be used, none is newer than one that
/// comes before it in the selection: the first is the newest.
pub proof fn lemma_newest_first(r: Seq<VsInstallation>, f: Seq<VsInstallation>, k: int, l: int)
    requires
        sorted_newest_first(r, f),
        0 <= k < l < r.len(),
    ensures
        !version_gt(version_of(r[l].installation_version@), version_of(r[k].installation_version@)),
{
    let order = choose|order: Seq<int>|
        {
            &&& order.len() == f.len()
            &&& r.len() == f.len()
            &&& forall|k: int| 0 <= k < order.len() ==> 0 <= #[trigger] order[k] < f.len()
            &&& forall|k: int, l: int| 0 <= k < l < order.len() ==> order[k] != order[l]
            &&& forall|k: int| 0 <= k < r.len() ==> #[trigger] r[k] == f[order[k]]
            &&& forall|k: int, l: int|
                0 <= k < l < order.len() ==> comes_before(f, #[trigger] order[k], #[trigger] order[l])
        };
    assert(comes_before(f, order[k], order[l]));
    assert(r[k] == f[order[k]]);
    assert(r[l] == f[order[l]]);
    lemma_version_gt_lexicographic(version_of(r[k].installation_version@), version_of(r[l].installation_version@));
}

/// The installation to use: the newest usable one (the first listed among
/// equally new ones), or an error when none is usable.
pub fn find_latest(list: Vec<VsInstallation>) -> (r: Result<VsInstallation, String>)
    ensures
        usable_list(list@).len() == 0 ==> (r matches Err(e) && e@
            == "No Visual Studio installations found with C++ tools"@),
        usable_list(list@).len() > 0 ==> (r matches Ok(v) && exists|s: Seq<VsInstallation>|
            sorted_newest_first(s, usable_list(list@)) && s.len() > 0 && v == s[0]),
{
    let ghost f = usable_list(list@);
    let sel = select_installations(list);
    if sel.len() == 0 {
        Err(owned("No Visual Studio installations found with C++ tools"))
    } else {
        let v = sel[0].clone();
        proof {
            assert(sorted_newest_first(sel@, f));
        }
        Ok(v)
    }
}

} // verus!
