//! Listing the configuration as `key = value` lines.
//!
//! Every option is listed under its dotted name, in key order, with the
//! names padded to a common width. The Transifex API key is never shown: a
//! set key is listed as `[hidden]`.

use vstd::prelude::*;

use super::types::{build_configuration_text, install_message_text, string_map_view, TransifexConfig};
use super::Config;
use crate::strmap::{sorted_keys, StrMap};
use crate::text::{bool_text, bool_to_string, byte_len, char_count, concat2, dec, owned, u64_to_string, utf8_len, views};

verus! {

/// The text of an optional path: empty where it is unset.
pub open spec fn path_text(o: Option<String>) -> Seq<char> {
    match o {
        Some(p) => p@,
        None => Seq::empty(),
    }
}

/// `m` with the `global.*` options of `c`.
pub open spec fn with_global(m: Map<Seq<char>, Seq<char>>, c: Config) -> Map<Seq<char>, Seq<char>> {
    m.insert("global.dry"@, bool_text(c.global.dry)).insert(
        "global.redownload"@,
        bool_text(c.global.clean_download_actions.redownload),
    ).insert("global.reextract"@, bool_text(c.global.clean_download_actions.reextract)).insert(
        "global.output_log_level"@,
        dec(c.global.output_log_level.level() as nat),
    ).insert("global.file_log_level"@, dec(c.global.file_log_level.level() as nat)).insert(
        "global.log_file"@,
        c.global.log_file@,
    ).insert("global.ignore_uncommitted"@, bool_text(c.global.ignore_uncommitted))
}

/// `m` with the `cmake.*` options of `c` (the host only where it is set).
pub open spec fn with_cmake(m: Map<Seq<char>, Seq<char>>, c: Config) -> Map<Seq<char>, Seq<char>> {
    let m1 = m.insert("cmake.install_message"@, install_message_text(c.cmake.install_message));
    if c.cmake.host@.len() > 0 {
        m1.insert("cmake.host"@, c.cmake.host@)
    } else {
        m1
    }
}

/// `m` with the `task.*` options of `c` (the fallback branch and the remote
/// organization only where they are set).
pub open spec fn with_task(m: Map<Seq<char>, Seq<char>>, c: Config) -> Map<Seq<char>, Seq<char>> {
    let m1 = m.insert("task.enabled"@, bool_text(c.task.enabled)).insert("task.mo_org"@, c.task.mo_org@).insert(
        "task.mo_branch"@,
        c.task.mo_branch@,
    );
    let m2 = if c.task.mo_fallback@.len() > 0 {
        m1.insert("task.mo_fallback"@, c.task.mo_fallback@)
    } else {
        m1
    };
    let m3 = m2.insert("task.no_pull"@, bool_text(c.task.git_behavior.no_pull)).insert(
        "task.configuration"@,
        build_configuration_text(c.task.configuration),
    ).insert("task.git_url_prefix"@, c.task.git_url_prefix@).insert(
        "task.git_shallow"@,
        bool_text(c.task.git_clone.git_shallow),
    );
    let m4 = if c.task.remote_setup.remote_org@.len() > 0 {
        m3.insert("task.remote_org"@, c.task.remote_setup.remote_org@)
    } else {
        m3
    };
    m4.insert("task.remote_no_push_upstream"@, bool_text(c.task.remote_setup.remote_no_push_upstream)).insert(
        "task.remote_push_default_origin"@,
        bool_text(c.task.remote_setup.remote_push_default_origin),
    )
}

/// `m` with the `tools.*` options of `c`.
pub open spec fn with_tools(m: Map<Seq<char>, Seq<char>>, c: Config) -> Map<Seq<char>, Seq<char>> {
    m.insert("tools.7z"@, c.tools.sevenz@).insert("tools.cmake"@, c.tools.cmake@).insert(
        "tools.msbuild"@,
        c.tools.msbuild@,
    ).insert("tools.tx"@, c.tools.tx@).insert("tools.lrelease"@, c.tools.lrelease@).insert(
        "tools.iscc"@,
        c.tools.iscc@,
    )
}

/// `m` with the `transifex.*` options of `c`; a set API key is shown as
/// `[hidden]`.
pub open spec fn with_transifex(m: Map<Seq<char>, Seq<char>>, c: Config) -> Map<Seq<char>, Seq<char>> {
    let m1 = m.insert("transifex.enabled"@, bool_text(c.transifex.enabled));
    let m2 = if c.transifex.key@.len() > 0 {
        m1.insert("transifex.key"@, "[hidden]"@)
    } else {
        m1
    };
    m2.insert("transifex.team"@, c.transifex.team@).insert("transifex.project"@, c.transifex.project@).insert(
        "transifex.url"@,
        c.transifex.url@,
    ).insert("transifex.minimum"@, dec(c.transifex.minimum as nat)).insert(
        "transifex.force"@,
        bool_text(c.transifex.actions.force),
    ).insert("transifex.configure"@, bool_text(c.transifex.actions.configure)).insert(
        "transifex.pull"@,
        bool_text(c.transifex.actions.pull),
    )
}

/// The stylesheet options: `versions.<name>` for each stylesheet whose name
/// is among the first `n` in key order.
pub open spec fn stylesheet_options(c: Config, n: int) -> Map<Seq<char>, Seq<char>> {
    Map::new(
        |k: Seq<char>|
            k.len() >= 9 && k.take(9) == "versions."@ && c.versions.stylesheets.keys().take(n).contains(
                k.skip(9),
            ),
        |k: Seq<char>| c.versions.stylesheets.lookup(k.skip(9))->Some_0@,
    )
}

/// `m` with the `versions.*` options of `c`, stylesheets included.
pub open spec fn with_versions(m: Map<Seq<char>, Seq<char>>, c: Config) -> Map<Seq<char>, Seq<char>> {
    m.insert("versions.vs_toolset"@, c.versions.vs_toolset@).insert("versions.sdk"@, c.versions.sdk@).insert(
        "versions.usvfs"@,
        c.versions.usvfs@,
    ).insert("versions.explorerpp"@, c.versions.explorerpp@).union_prefer_right(
        stylesheet_options(c, c.versions.stylesheets.keys().len() as int),
    )
}

/// `m` with the `paths.*` options of `c`; an unset path shows as empty.
pub open spec fn with_paths(m: Map<Seq<char>, Seq<char>>, c: Config) -> Map<Seq<char>, Seq<char>> {
    m.insert("paths.prefix"@, path_text(c.paths.prefix)).insert("paths.cache"@, path_text(c.paths.cache)).insert(
        "paths.build"@,
        path_text(c.paths.build),
    ).insert("paths.install"@, path_text(c.paths.install)).insert(
        "paths.install_bin"@,
        path_text(c.paths.install_bin),
    ).insert("paths.install_installer"@, path_text(c.paths.install_installer)).insert(
        "paths.install_libs"@,
        path_text(c.paths.install_libs),
    ).insert("paths.install_pdbs"@, path_text(c.paths.install_pdbs)).insert(
        "paths.install_stylesheets"@,
        path_text(c.paths.install_stylesheets),
    ).insert("paths.install_licenses"@, path_text(c.paths.install_licenses)).insert(
        "paths.install_translations"@,
        path_text(c.paths.install_translations),
    ).insert("paths.licenses"@, path_text(c.paths.licenses)).insert("paths.vcpkg"@, path_text(c.paths.vcpkg)).insert(
        "paths.qt_install"@,
        path_text(c.paths.qt_install),
    ).insert("paths.qt_bin"@, path_text(c.paths.qt_bin)).insert(
        "paths.qt_translations"@,
        path_text(c.paths.qt_translations),
    )
}

/// All options of `c`, by dotted name.
pub open spec fn options(c: Config) -> Map<Seq<char>, Seq<char>> {
    with_paths(
        with_versions(
            with_transifex(with_tools(with_task(with_cmake(with_global(Map::empty(), c), c), c), c), c),
            c,
        ),
        c,
    )
}

/// The largest UTF-8 length among `ks`, or 0.
pub open spec fn max_utf8_len(ks: Seq<Seq<char>>) -> nat
    decreases ks.len(),
{
    if ks.len() == 0 {
        0
    } else {
        let rest = max_utf8_len(ks.drop_last());
        if utf8_len(ks.last()) > rest {
            utf8_len(ks.last())
        } else {
            rest
        }
    }
}

/// One option line: the name padded with spaces to `width` characters, then
/// ` = ` and the value.
pub open spec fn option_line(k: Seq<char>, v: Seq<char>, width: nat) -> Seq<char> {
    let pad: nat = if width > k.len() {
        (width - k.len()) as nat
    } else {
        0
    };
    k + Seq::new(pad, |i: int| ' ') + " = "@ + v
}

/// The lines listing `m` in the order of `ks`, padded to the widest name.
pub open spec fn option_lines(ks: Seq<Seq<char>>, m: Map<Seq<char>, Seq<char>>) -> Seq<Seq<char>> {
    ks.map_values(|k: Seq<char>| option_line(k, m[k], max_utf8_len(ks)))
}

/// Adding the stylesheet at position `i` adds its one option.
proof fn lemma_stylesheet_step(c: Config, i: int, key: Seq<char>, name: Seq<char>, val: Seq<char>)
    requires
        0 <= i < c.versions.stylesheets.keys().len(),
        name == c.versions.stylesheets.keys()[i],
        key == "versions."@ + name,
        c.versions.stylesheets.lookup(name) matches Some(v) && v@ == val,
    ensures
        stylesheet_options(c, i + 1) == stylesheet_options(c, i).insert(key, val),
{
    let ks = c.versions.stylesheets.keys();
    reveal_strlit("versions.");
    assert("versions."@.len() == 9);
    assert(key.take(9) =~= "versions."@);
    assert(key.skip(9) =~= name);
    assert forall|k: Seq<char>|
        #[trigger] stylesheet_options(c, i + 1).dom().contains(k) <==> (stylesheet_options(c, i).dom().contains(k)
            || k == key) by {
        if k.len() >= 9 && k.take(9) == "versions."@ {
            let x = k.skip(9);
            if ks.take(i + 1).contains(x) {
                let j = choose|j: int| 0 <= j < i + 1 && #[trigger] ks.take(i + 1)[j] == x;
                if j < i {
                    assert(ks.take(i)[j] == x);
                } else {
                    assert(k =~= k.take(9) + k.skip(9));
                }
            }
            if ks.take(i).contains(x) {
                let j = choose|j: int| 0 <= j < i && #[trigger] ks.take(i)[j] == x;
                assert(ks.take(i + 1)[j] == x);
            }
        }
        if k == key {
            assert(ks.take(i + 1)[i] == name);
        }
    }
    assert(stylesheet_options(c, i + 1) =~= stylesheet_options(c, i).insert(key, val));
}

fn put(m: &mut StrMap<String>, k: &str, v: String)
    ensures
        string_map_view(*final(m)) == string_map_view(*old(m)).insert(k@, v@),
{
    let key = owned(k);
    m.insert(key, v);
    assert(string_map_view(*m) =~= string_map_view(*old(m)).insert(k@, v@));
}

fn opt_text(o: &Option<String>) -> (r: String)
    ensures
        r@ == path_text(*o),
{
    match o {
        Some(p) => p.clone(),
        None => String::new(),
    }
}

impl Config {
    fn format_global_options(&self, m: &mut StrMap<String>)
        ensures
            string_map_view(*final(m)) == with_global(string_map_view(*old(m)), *self),
    {
        put(m, "global.dry", bool_to_string(self.global.dry));
        put(m, "global.redownload", bool_to_string(self.global.clean_download_actions.redownload));
        put(m, "global.reextract", bool_to_string(self.global.clean_download_actions.reextract));
        put(m, "global.output_log_level", u64_to_string(self.global.output_log_level.as_u8() as u64));
        put(m, "global.file_log_level", u64_to_string(self.global.file_log_level.as_u8() as u64));
        put(m, "global.log_file", self.global.log_file.clone());
        put(m, "global.ignore_uncommitted", bool_to_string(self.global.ignore_uncommitted));
    }

    fn format_cmake_options(&self, m: &mut StrMap<String>)
        ensures
            string_map_view(*final(m)) == with_cmake(string_map_view(*old(m)), *self),
    {
        put(m, "cmake.install_message", self.cmake.install_message.to_string());
        if char_count(self.cmake.host.as_str()) > 0 {
            put(m, "cmake.host", self.cmake.host.clone());
        }
    }

    fn format_task_options(&self, m: &mut StrMap<String>)
        ensures
            string_map_view(*final(m)) == with_task(string_map_view(*old(m)), *self),
    {
        put(m, "task.enabled", bool_to_string(self.task.enabled));
        put(m, "task.mo_org", self.task.mo_org.clone());
        put(m, "task.mo_branch", self.task.mo_branch.clone());
        if char_count(self.task.mo_fallback.as_str()) > 0 {
            put(m, "task.mo_fallback", self.task.mo_fallback.clone());
        }
        put(m, "task.no_pull", bool_to_string(self.task.git_behavior.no_pull));
        put(m, "task.configuration", self.task.configuration.to_string());
        put(m, "task.git_url_prefix", self.task.git_url_prefix.clone());
        put(m, "task.git_shallow", bool_to_string(self.task.git_clone.git_shallow));
        if char_count(self.task.remote_setup.remote_org.as_str()) > 0 {
            put(m, "task.remote_org", self.task.remote_setup.remote_org.clone());
        }
        put(m, "task.remote_no_push_upstream", bool_to_string(self.task.remote_setup.remote_no_push_upstream));
        put(m, "task.remote_push_default_origin", bool_to_string(self.task.remote_setup.remote_push_default_origin));
    }

    fn format_tools_options(&self, m: &mut StrMap<String>)
        ensures
            string_map_view(*final(m)) == with_tools(string_map_view(*old(m)), *self),
    {
        put(m, "tools.7z", self.tools.sevenz.clone());
        put(m, "tools.cmake", self.tools.cmake.clone());
        put(m, "tools.msbuild", self.tools.msbuild.clone());
        put(m, "tools.tx", self.tools.tx.clone());
        put(m, "tools.lrelease", self.tools.lrelease.clone());
        put(m, "tools.iscc", self.tools.iscc.clone());
    }

    fn format_transifex_options(&self, m: &mut StrMap<String>)
        ensures
            string_map_view(*final(m)) == with_transifex(string_map_view(*old(m)), *self),
    {
        put(m, "transifex.enabled", bool_to_string(self.transifex.enabled));
        if char_count(self.transifex.key.as_str()) > 0 {
            put(m, "transifex.key", owned("[hidden]"));
        }
        put(m, "transifex.team", self.transifex.team.clone());
        put(m, "transifex.project", self.transifex.project.clone());
        put(m, "transifex.url", self.transifex.url.clone());
        put(m, "transifex.minimum", u64_to_string(self.transifex.minimum as u64));
        put(m, "transifex.force", bool_to_string(self.transifex.actions.force));
        put(m, "transifex.configure", bool_to_string(self.transifex.actions.configure));
        put(m, "transifex.pull", bool_to_string(self.transifex.actions.pull));
    }

    fn format_paths_options(&self, m: &mut StrMap<String>)
        ensures
            string_map_view(*final(m)) == with_paths(string_map_view(*old(m)), *self),
    {
        put(m, "paths.prefix", opt_text(&self.paths.prefix));
        put(m, "paths.cache", opt_text(&self.paths.cache));
        put(m, "paths.build", opt_text(&self.paths.build));
        put(m, "paths.install", opt_text(&self.paths.install));
        put(m, "paths.install_bin", opt_text(&self.paths.install_bin));
        put(m, "paths.install_installer", opt_text(&self.paths.install_installer));
        put(m, "paths.install_libs", opt_text(&self.paths.install_libs));
        put(m, "paths.install_pdbs", opt_text(&self.paths.install_pdbs));
        put(m, "paths.install_stylesheets", opt_text(&self.paths.install_stylesheets));
        put(m, "paths.install_licenses", opt_text(&self.paths.install_licenses));
        put(m, "paths.install_translations", opt_text(&self.paths.install_translations));
        put(m, "paths.licenses", opt_text(&self.paths.licenses));
        put(m, "paths.vcpkg", opt_text(&self.paths.vcpkg));
        put(m, "paths.qt_install", opt_text(&self.paths.qt_install));
        put(m, "paths.qt_bin", opt_text(&self.paths.qt_bin));
        put(m, "paths.qt_translations", opt_text(&self.paths.qt_translations));
    }

    fn format_versions_options(&self, m: &mut StrMap<String>)
        ensures
            string_map_view(*final(m)) == with_versions(string_map_view(*old(m)), *self),
    {
        put(m, "versions.vs_toolset", self.versions.vs_toolset.clone());
        put(m, "versions.sdk", self.versions.sdk.clone());
        put(m, "versions.usvfs", self.versions.usvfs.clone());
        put(m, "versions.explorerpp", self.versions.explorerpp.clone());
        let ghost m0 = string_map_view(*m);
        proof {
            assert(stylesheet_options(*self, 0) =~= Map::empty());
            assert(m0.union_prefer_right(stylesheet_options(*self, 0)) =~= m0);
        }
        let n = self.versions.stylesheets.len();
        let mut i: usize = 0;
        while i < n
            invariant
                n == self.versions.stylesheets.keys().len(),
                n == self.versions.stylesheets.vals().len(),
                sorted_keys(self.versions.stylesheets.keys()),
                i <= n,
                string_map_view(*m) == m0.union_prefer_right(stylesheet_options(*self, i as int)),
            decreases n - i,
        {
            let name = self.versions.stylesheets.key_at(i);
            let val = self.versions.stylesheets.val_at(i);
            let key = concat2("versions.", name.as_str());
            put(m, key.as_str(), val.clone());
            proof {
                self.versions.stylesheets.lemma_index_of(i as int);
                lemma_stylesheet_step(*self, i as int, key@, name@, val@);
                assert(string_map_view(*m) =~= m0.union_prefer_right(stylesheet_options(*self, i + 1)));
            }
            i = i + 1;
        }
    }

    /// Format configuration options for display.
    ///
    /// One line per option, in key order: the dotted name padded with spaces
    /// to the longest name, then ` = ` and the value. A set Transifex API key
    /// is shown as `[hidden]`.
    pub fn format_options(&self) -> (r: Vec<String>)
        ensures
            exists|ks: Seq<Seq<char>>|
                sorted_keys(ks) && ks.to_set() == options(*self).dom() && views(r@) == option_lines(
                    ks,
                    options(*self),
                ),
    {
        let mut m: StrMap<String> = StrMap::new();
        proof {
            assert(string_map_view(m) =~= Map::empty());
        }
        self.format_global_options(&mut m);
        self.format_cmake_options(&mut m);
        self.format_task_options(&mut m);
        self.format_tools_options(&mut m);
        self.format_transifex_options(&mut m);
        self.format_versions_options(&mut m);
        self.format_paths_options(&mut m);
        let ghost opts = options(*self);
        assert(string_map_view(m) == opts);
        let n = m.len();
        let ghost ks = m.keys();
        let mut w: u128 = 0;
        let mut i: usize = 0;
        while i < n
            invariant
                n == ks.len(),
                ks == m.keys(),
                i <= n,
                w == max_utf8_len(ks.take(i as int)),
            decreases n - i,
        {
            proof {
                assert(ks.take(i + 1).drop_last() =~= ks.take(i as int));
            }
            let b = byte_len(m.key_at(i).as_str());
            if b > w {
                w = b;
            }
            i = i + 1;
        }
        proof {
            assert(ks.take(n as int) =~= ks);
        }
        let mut out: Vec<String> = Vec::new();
        let mut i: usize = 0;
        while i < n
            invariant
                n == ks.len(),
                n == m.vals().len(),
                ks == m.keys(),
                sorted_keys(ks),
                string_map_view(m) == opts,
                w == max_utf8_len(ks),
                i <= n,
                views(out@) == option_lines(ks, opts).take(i as int),
            decreases n - i,
        {
            let k = m.key_at(i);
            let v = m.val_at(i);
            let mut line = k.clone();
            let c = char_count(k.as_str());
            let pad: u128 = if w > c as u128 {
                w - c as u128
            } else {
                0
            };
            let mut j: u128 = 0;
            while j < pad
                invariant
                    j <= pad,
                    line@ == k@ + Seq::new(j as nat, |x: int| ' '),
                decreases pad - j,
            {
                crate::text::string_push(&mut line, ' ');
                proof {
                    assert(line@ =~= k@ + Seq::new((j + 1) as nat, |x: int| ' '));
                }
                j = j + 1;
            }
            line.append(" = ");
            line.append(v.as_str());
            proof {
                m.lemma_index_of(i as int);
                assert(opts[ks[i as int]] == v@);
                assert(line@ == option_line(ks[i as int], opts[ks[i as int]], w as nat));
            }
            let ghost before = views(out@);
            let ghost line_view = line@;
            out.push(line);
            proof {
                assert(views(out@) =~= before.push(line_view));
                assert(option_lines(ks, opts).take(i + 1) =~= option_lines(ks, opts).take(i as int).push(
                    option_lines(ks, opts)[i as int],
                ));
            }
            i = i + 1;
        }
        proof {
            assert(option_lines(ks, opts).take(n as int) =~= option_lines(ks, opts));
            assert(ks.to_set() =~= opts.dom());
        }
        out
    }
}

/// Listing the options is deterministic: the listing of a configuration is
/// one sequence of lines, whichever sorted order of its names is taken.
pub proof fn lemma_option_listing_unique(c: Config, ks1: Seq<Seq<char>>, ks2: Seq<Seq<char>>)
    requires
        sorted_keys(ks1),
        ks1.to_set() == options(c).dom(),
        sorted_keys(ks2),
        ks2.to_set() == options(c).dom(),
    ensures
        option_lines(ks1, options(c)) == option_lines(ks2, options(c)),
{
    crate::strmap::lemma_sorted_unique(ks1, ks2);
}

/// A set Transifex API key is listed as `[hidden]`, and which key is set
/// does not change the listing.
pub proof fn lemma_key_hidden(c1: Config, c2: Config)
    requires
        c1.transifex.key@.len() > 0,
        c2.transifex.key@.len() > 0,
        c2 == (Config { transifex: TransifexConfig { key: c2.transifex.key, ..c1.transifex }, ..c1 }),
    ensures
        options(c1).dom().contains("transifex.key"@),
        options(c1)["transifex.key"@] == "[hidden]"@,
        options(c1) == options(c2),
{
    reveal_strlit("transifex.key");
    assert("transifex.key"@.len() == 13);
    reveal_strlit("transifex.team");
    assert("transifex.team"@.len() == 14);
    reveal_strlit("transifex.project");
    assert("transifex.project"@.len() == 17);
    reveal_strlit("transifex.url");
    assert("transifex.url"@.len() == 13);
    reveal_strlit("transifex.minimum");
    assert("transifex.minimum"@.len() == 17);
    reveal_strlit("transifex.force");
    assert("transifex.force"@.len() == 15);
    reveal_strlit("transifex.configure");
    assert("transifex.configure"@.len() == 19);
    reveal_strlit("transifex.pull");
    assert("transifex.pull"@.len() == 14);
    reveal_strlit("versions.vs_toolset");
    assert("versions.vs_toolset"@.len() == 19);
    reveal_strlit("versions.sdk");
    assert("versions.sdk"@.len() == 12);
    reveal_strlit("versions.usvfs");
    assert("versions.usvfs"@.len() == 14);
    reveal_strlit("versions.explorerpp");
    assert("versions.explorerpp"@.len() == 19);
    reveal_strlit("versions.");
    assert("versions."@.len() == 9);
    reveal_strlit("paths.prefix");
    assert("paths.prefix"@.len() == 12);
    reveal_strlit("paths.cache");
    assert("paths.cache"@.len() == 11);
    reveal_strlit("paths.build");
    assert("paths.build"@.len() == 11);
    reveal_strlit("paths.install");
    assert("paths.install"@.len() == 13);
    reveal_strlit("paths.install_bin");
    assert("paths.install_bin"@.len() == 17);
    reveal_strlit("paths.install_installer");
    assert("paths.install_installer"@.len() == 23);
    reveal_strlit("paths.install_libs");
    assert("paths.install_libs"@.len() == 18);
    reveal_strlit("paths.install_pdbs");
    assert("paths.install_pdbs"@.len() == 18);
    reveal_strlit("paths.install_stylesheets");
    assert("paths.install_stylesheets"@.len() == 25);
    reveal_strlit("paths.install_licenses");
    assert("paths.install_licenses"@.len() == 22);
    reveal_strlit("paths.install_translations");
    assert("paths.install_translations"@.len() == 26);
    reveal_strlit("paths.licenses");
    assert("paths.licenses"@.len() == 14);
    reveal_strlit("paths.vcpkg");
    assert("paths.vcpkg"@.len() == 11);
    reveal_strlit("paths.qt_install");
    assert("paths.qt_install"@.len() == 16);
    reveal_strlit("paths.qt_bin");
    assert("paths.qt_bin"@.len() == 12);
    reveal_strlit("paths.qt_translations");
    assert("paths.qt_translations"@.len() == 21);
    assert("transifex.key"@[10] == 'k');
    assert("transifex.url"@[10] == 'u');
    assert("transifex.team"@[0] == 't');
    assert("versions.usvfs"@[0] == 'v');
    assert("transifex.minimum"@[10] == 'm');
    assert("transifex.project"@[10] == 'p');
    assert("transifex.configure"@[0] == 't');
    assert("versions.vs_toolset"@[0] == 'v');
    assert("transifex.configure"@[0] == 't');
    assert("versions.explorerpp"@[0] == 'v');
    assert("transifex.pull"@[10] == 'p');
    assert("transifex.team"@[10] == 't');
    assert("transifex.pull"@[0] == 't');
    assert("versions.usvfs"@[0] == 'v');
    assert("versions.explorerpp"@[9] == 'e');
    assert("versions.vs_toolset"@[9] == 'v');
    assert("paths.prefix"@[0] == 'p');
    assert("versions.sdk"@[0] == 'v');
    assert("paths.prefix"@[6] == 'p');
    assert("paths.qt_bin"@[6] == 'q');
    assert("paths.cache"@[6] == 'c');
    assert("paths.vcpkg"@[6] == 'v');
    assert("paths.build"@[6] == 'b');
    assert("paths.cache"@[6] == 'c');
    assert("paths.build"@[6] == 'b');
    assert("paths.vcpkg"@[6] == 'v');
    assert("paths.install"@[0] == 'p');
    assert("transifex.key"@[0] == 't');
    assert("paths.install"@[0] == 'p');
    assert("transifex.url"@[0] == 't');
    assert("paths.install_bin"@[0] == 'p');
    assert("transifex.project"@[0] == 't');
    assert("paths.install_bin"@[0] == 'p');
    assert("transifex.minimum"@[0] == 't');
    assert("paths.install_libs"@[14] == 'l');
    assert("paths.install_pdbs"@[14] == 'p');
    assert("paths.licenses"@[0] == 'p');
    assert("transifex.team"@[0] == 't');
    assert("paths.licenses"@[0] == 'p');
    assert("transifex.pull"@[0] == 't');
    assert("paths.licenses"@[0] == 'p');
    assert("versions.usvfs"@[0] == 'v');
    assert("paths.qt_bin"@[0] == 'p');
    assert("versions.sdk"@[0] == 'v');
    assert forall|k: Seq<char>| k.len() >= 9 && k.take(9) == "versions."@ implies k != "transifex.key"@ by {
        if k == "transifex.key"@ {
            assert(k.take(9)[0] == k[0]);
            assert("versions."@[0] == 'v');
            assert("transifex.key"@[0] == 't');
        }
    }
    assert(options(c1) =~= options(c2));
}

} // verus!
