//! The decisions of the `release` command: archive names, where releases
//! go, which version they carry, and which checks stop them.

use vstd::prelude::*;

use crate::cli::release::{DevbuildArgs, OfficialArgs};
use crate::config::Config;
use crate::path::{file_name, join_with, last_dot, main_separator, path_exists, path_join};
use crate::strmap::{sorted_keys, sorted_unique};
use crate::text::{concat2, concat3, dec, join, join_seq, lower_seq, opt_view, owned, u64_to_string, views};

verus! {

/// Whether an optional part is given and not empty.
pub open spec fn present(o: Option<Seq<char>>) -> bool {
    o matches Some(s) && s.len() > 0
}

/// The name of a release archive: `Mod.Organizer`, the version, the suffix
/// and the kind of archive where they are given and not empty, joined by
/// `-`, with `.7z` after them.
pub open spec fn archive_name_spec(version: Seq<char>, suffix: Option<Seq<char>>, what: Option<Seq<char>>) -> Seq<
    char,
> {
    "Mod.Organizer-"@ + version + (if present(suffix) {
        "-"@ + suffix->0
    } else {
        Seq::empty()
    }) + (if present(what) {
        "-"@ + what->0
    } else {
        Seq::empty()
    }) + ".7z"@
}

fn str_opt_view(o: Option<&str>) -> (r: Ghost<Option<Seq<char>>>)
    ensures
        r@ == match o {
            Some(s) => Some(s@),
            None => None,
        },
{
    Ghost(
        match o {
            Some(s) => Some(s@),
            None => None,
        },
    )
}

/// The name of the archive of `version`, with `suffix` and `what`.
pub fn archive_name(version: &str, suffix: Option<&str>, what: Option<&str>) -> (r: String)
    ensures
        r@ == archive_name_spec(
            version@,
            match suffix {
                Some(s) => Some(s@),
                None => None,
            },
            match what {
                Some(s) => Some(s@),
                None => None,
            },
        ),
{
    let mut r = concat2("Mod.Organizer-", version);
    match suffix {
        Some(s) => {
            if crate::text::char_count(s) > 0 {
                r.append("-");
                r.append(s);
            }
        },
        None => {},
    }
    match what {
        Some(w) => {
            if crate::text::char_count(w) > 0 {
                r.append("-");
                r.append(w);
            }
        },
        None => {},
    }
    r.append(".7z");
    r
}

/// The directory under `prefix` that takes releases, or the error when the
/// prefix is not set.
fn releases_under_prefix(config: &Config) -> (r: Result<String, String>)
    ensures
        match config.paths.prefix {
            Some(p) => r matches Ok(d) && exists|sep: char|
                (sep == '/' || sep == '\\') && d@ == path_join(p@, "releases"@, sep),
            None => r matches Err(e) && e@ == "paths.prefix not configured"@,
        },
{
    match &config.paths.prefix {
        Some(p) => {
            let sep = main_separator();
            Ok(join_with(p.as_str(), "releases", sep))
        },
        None => Err(owned("paths.prefix not configured")),
    }
}

/// Where a devbuild goes: the directory given, else `releases` under the
/// prefix.
pub fn resolve_output_dir(args: &DevbuildArgs, config: &Config) -> (r: Result<String, String>)
    ensures
        match args.output_dir {
            Some(d) => r matches Ok(o) && o@ == d@,
            None => match config.paths.prefix {
                Some(p) => r matches Ok(d) && exists|sep: char|
                    (sep == '/' || sep == '\\') && d@ == path_join(p@, "releases"@, sep),
                None => r matches Err(e) && e@ == "paths.prefix not configured"@,
            },
        },
{
    match &args.output_dir {
        Some(d) => Ok(d.clone()),
        None => releases_under_prefix(config),
    }
}

/// Where an official release goes: the directory given, else `releases`
/// under the prefix.
pub fn resolve_official_output_dir(args: &OfficialArgs, config: &Config) -> (r: Result<String, String>)
    ensures
        match args.output_dir {
            Some(d) => r matches Ok(o) && o@ == d@,
            None => match config.paths.prefix {
                Some(p) => r matches Ok(d) && exists|sep: char|
                    (sep == '/' || sep == '\\') && d@ == path_join(p@, "releases"@, sep),
                None => r matches Err(e) && e@ == "paths.prefix not configured"@,
            },
        },
{
    match &args.output_dir {
        Some(d) => Ok(d.clone()),
        None => releases_under_prefix(config),
    }
}

/// The `modorganizer_super` directory under the build directory.
pub fn modorganizer_super_dir(config: &Config) -> (r: Result<String, String>)
    ensures
        match config.paths.build {
            Some(b) => r matches Ok(d) && exists|sep: char|
                (sep == '/' || sep == '\\') && d@ == path_join(b@, "modorganizer_super"@, sep),
            None => r matches Err(e) && e@ == "paths.build not configured"@,
        },
{
    match &config.paths.build {
        Some(b) => {
            let sep = main_separator();
            Ok(join_with(b.as_str(), "modorganizer_super", sep))
        },
        None => Err(owned("paths.build not configured")),
    }
}

/// `version.rc` of ModOrganizer under the build directory `b`.
pub open spec fn rc_path_spec(b: Seq<char>, sep: char) -> Seq<char> {
    path_join(
        path_join(path_join(path_join(b, "modorganizer_super"@, sep), "modorganizer"@, sep), "src"@, sep),
        "version.rc"@,
        sep,
    )
}

/// The default place of `version.rc`:
/// `modorganizer_super/modorganizer/src/version.rc` under the build
/// directory.
pub fn default_rc_path(config: &Config) -> (r: Result<String, String>)
    ensures
        match config.paths.build {
            Some(b) => r matches Ok(d) && exists|sep: char|
                (sep == '/' || sep == '\\') && d@ == rc_path_spec(b@, sep),
            None => r matches Err(e) && e@ == "paths.build not configured"@,
        },
{
    match &config.paths.build {
        Some(b) => {
            let sep = main_separator();
            let a = join_with(b.as_str(), "modorganizer_super", sep);
            let c = join_with(a.as_str(), "modorganizer", sep);
            let d = join_with(c.as_str(), "src", sep);
            let r = join_with(d.as_str(), "version.rc", sep);
            assert(r@ == rc_path_spec(b@, sep));
            Ok(r)
        },
        None => Err(owned("paths.build not configured")),
    }
}

/// The `version.rc` that a devbuild reads: the one given, else the default.
pub fn rc_path_for(args: &DevbuildArgs, config: &Config) -> (r: Result<String, String>)
    ensures
        match args.rc_path {
            Some(p) => r matches Ok(o) && o@ == p@,
            None => match config.paths.build {
                Some(b) => r matches Ok(d) && exists|sep: char|
                    (sep == '/' || sep == '\\') && d@ == rc_path_spec(b@, sep),
                None => r matches Err(e) && e@ == "paths.build not configured"@,
            },
        },
{
    match &args.rc_path {
        Some(p) => Ok(p.clone()),
        None => default_rc_path(config),
    }
}

/// The refusal to overwrite an archive.
pub open spec fn exists_error_text(path: Seq<char>) -> Seq<char> {
    "output file already exists: "@ + path + " (use --force to overwrite)"@
}

/// Whether an archive may be written at `path`, given whether something is
/// there: always with `force`, else only where nothing is.
pub fn output_file_check(path: &str, found: bool, force: bool) -> (r: Result<(), String>)
    ensures
        (found && !force) ==> (r matches Err(e) && e@ == exists_error_text(path@)),
        !(found && !force) ==> r is Ok,
{
    if found && !force {
        let mut e = concat2("output file already exists: ", path);
        e.append(" (use --force to overwrite)");
        Err(e)
    } else {
        Ok(())
    }
}

/// Checks that an archive may be written at `path`: with `force` it may;
/// without, only where nothing is yet.
pub fn ensure_output_file(path: &str, force: bool) -> (r: Result<(), String>)
    ensures
        force ==> r is Ok,
        r matches Err(e) ==> e@ == exists_error_text(path@),
{
    let found = path_exists(path);
    output_file_check(path, found, force)
}

/// What is done about the output directory.
#[derive(Debug, Clone, Copy, PartialEq, Eq)]
pub enum OutputDirAction {
    /// It is there and a directory: nothing to do.
    Ready,
    /// Something that is not a directory is there.
    NotADirectory,
    /// It is missing, and a dry run only says it would create it.
    WouldCreate,
    /// It is missing and is created.
    Create,
}

/// What is done about the output directory, given whether something is
/// there and whether that is a directory.
pub fn output_dir_action(found: bool, is_dir: bool, dry_run: bool) -> (r: OutputDirAction)
    ensures
        r == if found {
            if is_dir {
                OutputDirAction::Ready
            } else {
                OutputDirAction::NotADirectory
            }
        } else if dry_run {
            OutputDirAction::WouldCreate
        } else {
            OutputDirAction::Create
        },
{
    if found {
        if is_dir {
            OutputDirAction::Ready
        } else {
            OutputDirAction::NotADirectory
        }
    } else if dry_run {
        OutputDirAction::WouldCreate
    } else {
        OutputDirAction::Create
    }
}

/// The error when the output path is not a directory.
pub fn not_a_directory_text(path: &str) -> (r: String)
    ensures
        r@ == "output path is not a directory: "@ + path@,
{
    concat2("output path is not a directory: ", path)
}

/// The pattern of the line of `version.rc` that holds the version.
pub open spec fn rc_version_pattern() -> Seq<char> {
    "(?m)^#define\\s+VER_FILEVERSION_STR\\s+\"(.+)\\\\0\""@
}

/// What the `regex` crate gives for `pattern` on `text`: `None` when the
/// pattern does not compile, else the text of capture group `group` of the
/// leftmost match, if there is a match and the group took part in it.
pub uninterp spec fn regex_capture(pattern: Seq<char>, text: Seq<char>, group: usize) -> Option<Option<Seq<char>>>;

/// `regex::Regex::new(pattern)` then `captures(text)` and `get(group)`:
/// `Err` with the error's text when the pattern does not compile, else the
/// captured text, if any. The result is `regex_capture` of the arguments.
#[verifier::external_body]
fn regex_first_capture(pattern: &str, text: &str, group: usize) -> (r: Result<Option<String>, String>)
    ensures
        match r {
            Ok(c) => regex_capture(pattern@, text@, group) == Some(opt_view(c)),
            Err(_) => regex_capture(pattern@, text@, group) is None,
        },
{
    let re = match regex::Regex::new(pattern) {
        Ok(re) => re,
        Err(e) => return Err(e.to_string()),
    };
    let caps = match re.captures(text) {
        Some(c) => c,
        None => return Ok(None),
    };
    match caps.get(group) {
        Some(m) => Ok(Some(m.as_str().to_string())),
        None => Ok(None),
    }
}

/// The version in a `version.rc`, from what the pattern captured in it.
pub fn version_from_capture(capture: Result<Option<String>, String>, rc_path: &str) -> (r: Result<String, String>)
    ensures
        match capture {
            Ok(Some(v)) => r matches Ok(s) && s@ == v@,
            Ok(None) => r matches Err(e) && e@ == "version string not found in "@ + rc_path@,
            Err(_) => r matches Err(e) && e@ == "failed to compile version.rc regex"@,
        },
{
    match capture {
        Ok(Some(v)) => Ok(v),
        Ok(None) => Err(concat2("version string not found in ", rc_path)),
        Err(_) => Err(owned("failed to compile version.rc regex")),
    }
}

/// Reads `VER_FILEVERSION_STR` from the text of a `version.rc`: the text
/// between the quotes, before the closing `\0`, on the first line
/// `#define VER_FILEVERSION_STR "..."`.
pub fn parse_version_from_rc_content(content: &str, rc_path: &str) -> (r: Result<String, String>)
    ensures
        match regex_capture(rc_version_pattern(), content@, 1) {
            Some(Some(v)) => r matches Ok(s) && s@ == v,
            Some(None) => r matches Err(e) && e@ == "version string not found in "@ + rc_path@,
            None => r matches Err(e) && e@ == "failed to compile version.rc regex"@,
        },
{
    let pattern = "(?m)^#define\\s+VER_FILEVERSION_STR\\s+\"(.+)\\\\0\"";
    let capture = regex_first_capture(pattern, content, 1);
    proof {
        assert(pattern@ == rc_version_pattern());
    }
    version_from_capture(capture, rc_path)
}

/// Where the version of a devbuild comes from.
#[derive(Debug, Clone, PartialEq, Eq)]
pub enum VersionPlan {
    /// The version given on the command line.
    Given(String),
    /// `ModOrganizer.exe`.
    Exe,
    /// `version.rc`.
    Rc,
    /// `ModOrganizer.exe`, then `version.rc` when that fails (Windows).
    ExeThenRc,
}

/// Where the version of a devbuild comes from: the one given, else the
/// source asked for (the executable before `version.rc`), else on Windows
/// the executable and then `version.rc`, elsewhere `version.rc`.
pub fn version_plan(args: &DevbuildArgs, windows: bool) -> (r: VersionPlan)
    ensures
        match args.version {
            Some(v) => r matches VersionPlan::Given(g) && g@ == v@,
            None => if args.version_source.version_from_exe {
                r == VersionPlan::Exe
            } else if args.version_source.version_from_rc {
                r == VersionPlan::Rc
            } else if windows {
                r == VersionPlan::ExeThenRc
            } else {
                r == VersionPlan::Rc
            },
        },
{
    match &args.version {
        Some(v) => VersionPlan::Given(v.clone()),
        None => if args.version_source.version_from_exe {
            VersionPlan::Exe
        } else if args.version_source.version_from_rc {
            VersionPlan::Rc
        } else if windows {
            VersionPlan::ExeThenRc
        } else {
            VersionPlan::Rc
        },
    }
}

/// The error when neither the executable nor `version.rc` gave a version.
pub fn version_error_both(exe_error: &str, rc_error: &str) -> (r: String)
    ensures
        r@ == "failed to determine version; exe error: "@ + exe_error@ + "; rc error: "@ + rc_error@,
{
    let mut r = concat3("failed to determine version; exe error: ", exe_error, "; rc error: ");
    r.append(rc_error);
    r
}

/// The version written in a file's fixed version information, from its two
/// 32-bit halves: `major.minor.patch`, and `.build` when that is not zero.
pub open spec fn exe_version_spec(ms: u32, ls: u32) -> Seq<char> {
    let major = ms as nat / 65536;
    let minor = ms as nat % 65536;
    let patch = ls as nat / 65536;
    let build = ls as nat % 65536;
    dec(major) + "."@ + dec(minor) + "."@ + dec(patch) + if build == 0 {
        Seq::empty()
    } else {
        "."@ + dec(build)
    }
}

/// The version text of a file version whose halves are `ms` and `ls`.
pub fn exe_version_text(ms: u32, ls: u32) -> (r: String)
    ensures
        r@ == exe_version_spec(ms, ls),
{
    let major = (ms >> 16u32) & 0xFFFFu32;
    let minor = ms & 0xFFFFu32;
    let patch = (ls >> 16u32) & 0xFFFFu32;
    let build = ls & 0xFFFFu32;
    assert(major == ms / 65536 && minor == ms % 65536) by (bit_vector)
        requires
            major == (ms >> 16u32) & 0xFFFFu32,
            minor == ms & 0xFFFFu32,
    ;
    assert(patch == ls / 65536 && build == ls % 65536) by (bit_vector)
        requires
            patch == (ls >> 16u32) & 0xFFFFu32,
            build == ls & 0xFFFFu32,
    ;
    let mut r = u64_to_string(major as u64);
    r.append(".");
    let t = u64_to_string(minor as u64);
    r.append(t.as_str());
    r.append(".");
    let t = u64_to_string(patch as u64);
    r.append(t.as_str());
    if build != 0 {
        r.append(".");
        let t = u64_to_string(build as u64);
        r.append(t.as_str());
    }
    r
}

/// The address checked for the release branch of `repo`: the prefix, the
/// organisation, `/repo.git`, written one after the other.
pub fn official_repo_url(prefix: &str, org: &str, repo: &str) -> (r: String)
    ensures
        r@ == prefix@ + org@ + "/"@ + repo@ + ".git"@,
{
    let mut r = concat3(prefix, org, "/");
    r.append(repo);
    r.append(".git");
    r
}

/// The error of an official release when some repositories lack the
/// branch: `None` when none does.
pub fn missing_branch_error(branch: &str, missing: &Vec<String>) -> (r: Option<String>)
    ensures
        missing@.len() == 0 ==> r is None,
        missing@.len() > 0 ==> (r matches Some(e) && e@ == "branch '"@ + branch@ + "' not found for repositories: "@
            + join_seq(views(missing@), ", "@)),
{
    if missing.len() == 0 {
        return None;
    }
    let mut e = concat3("branch '", branch, "' not found for repositories: ");
    let l = join(missing, ", ");
    e.append(l.as_str());
    Some(e)
}

/// The error of an official release when there is no repository.
pub fn no_repositories_text() -> (r: String)
    ensures
        r@ == "no repositories found under paths.build; run build/fetch first"@,
{
    owned("no repositories found under paths.build; run build/fetch first")
}

/// The extension of the last component of `p` (`Path::extension`): after
/// its last `.`, unless the name starts with its only `.` or has none.
pub open spec fn extension(p: Seq<char>, sep: char) -> Option<Seq<char>> {
    match file_name(p, sep) {
        Some(n) => if last_dot(n) <= 0 {
            None
        } else {
            Some(n.skip(last_dot(n) + 1))
        },
        None => None,
    }
}

/// Whether the file at `p` is an installer: its extension is `exe`, in any
/// case.
pub open spec fn is_installer(p: Seq<char>, sep: char) -> bool {
    extension(p, sep) matches Some(e) && lower_seq(e) == "exe"@
}

fn is_installer_exec(p: &str, sep: char) -> (r: bool)
    ensures
        r == is_installer(p@, sep),
{
    match crate::path::file_name_of(p, sep) {
        None => false,
        Some(name) => {
            let v = crate::text::chars_of(name.as_str());
            let mut i: usize = v.len();
            assert(v@.take(i as int) =~= v@);
            while i > 0 && v[i - 1] != '.'
                invariant
                    i <= v@.len(),
                    v@ == name@,
                    last_dot(name@) == last_dot(v@.take(i as int)),
                decreases i,
            {
                assert(v@.take(i as int).drop_last() =~= v@.take(i as int - 1));
                i = i - 1;
            }
            proof {
                if i > 0 {
                    assert(v@.take(i as int).last() == v@[i as int - 1]);
                }
            }
            if i <= 1 {
                return false;
            }
            let ext = crate::text::substring(&v, i, v.len());
            assert(ext@ =~= name@.skip(last_dot(name@) + 1));
            proof {
                reveal_strlit("exe");
                assert(lower_seq("exe"@) =~= "exe"@);
            }
            crate::text::eq_ignore_ascii_case(ext.as_str(), "exe")
        },
    }
}

/// The installers to copy out of the installer directory, whose entries are
/// `entries` (path and whether it is a file): the files whose extension is
/// `exe` in any case, in path order, each once.
pub fn installer_files(entries: Vec<(String, bool)>, sep: char) -> (r: Vec<String>)
    ensures
        sorted_keys(views(r@)),
        views(r@).to_set() == Set::new(
            |p: Seq<char>|
                exists|i: int| 0 <= i < entries@.len() && entries@[i].0@ == p && entries@[i].1 && is_installer(p, sep),
        ),
{
    let mut keep: Vec<String> = Vec::new();
    let mut i: usize = 0;
    while i < entries.len()
        invariant
            i <= entries@.len(),
            views(keep@).to_set() == Set::new(
                |p: Seq<char>|
                    exists|j: int| 0 <= j < i && entries@[j].0@ == p && entries@[j].1 && is_installer(p, sep),
            ),
        decreases entries.len() - i,
    {
        let ghost prev = views(keep@);
        if entries[i].1 && is_installer_exec(entries[i].0.as_str(), sep) {
            keep.push(entries[i].0.clone());
            proof {
                assert(views(keep@) =~= prev.push(entries@[i as int].0@));
                prev.lemma_push_to_set_commute(entries@[i as int].0@);
            }
        }
        assert(views(keep@).to_set() =~= Set::new(
            |p: Seq<char>|
                exists|j: int| 0 <= j < i + 1 && entries@[j].0@ == p && entries@[j].1 && is_installer(p, sep),
        ));
        i = i + 1;
    }
    sorted_unique(keep)
}

/// What the archives of binaries and PDBs leave out.
pub open spec fn install_excludes_spec() -> Seq<Seq<char>> {
    seq!["__pycache__"@]
}

/// What the source archive leaves out: hidden entries, third-party and
/// generated directories, and built or generated files.
pub open spec fn src_excludes_spec() -> Seq<Seq<char>> {
    seq!["\\..*"@, "explorer++"@, "stylesheets"@, "transifex-translations"@, "*.log"@, "*.tlog"@, "*.dll"@, "*.exe"@, "*.lib"@, "*.obj"@, "*.ts"@, "*.aps"@, "bin"@, "lib"@, "vsbuild"@, "vsbuild32"@, "vsbuild64"@]
}

/// What the archives of binaries and PDBs leave out.
pub fn install_excludes() -> (r: Vec<String>)
    ensures
        views(r@) == install_excludes_spec(),
{
    let r = crate::git::cmd::strings(&["__pycache__"]);
    assert(views(r@) =~= install_excludes_spec());
    r
}

/// What the source archive leaves out.
pub fn src_excludes() -> (r: Vec<String>)
    ensures
        views(r@) == src_excludes_spec(),
{
    let r = crate::git::cmd::strings(&["\\..*", "explorer++", "stylesheets", "transifex-translations", "*.log", "*.tlog", "*.dll", "*.exe", "*.lib", "*.obj", "*.ts", "*.aps", "bin", "lib", "vsbuild", "vsbuild32", "vsbuild64"]);
    assert(views(r@) =~= src_excludes_spec());
    r
}

/// The archives that a release packs.
#[derive(Debug, Clone, Copy, PartialEq, Eq, Structural)]
pub enum ArchiveKind {
    /// The installed binaries.
    Bin,
    /// The installed PDBs.
    Pdbs,
    /// The sources of the super repository.
    Src,
}

/// The archives to pack, in the order they are packed: binaries, PDBs,
/// sources.
pub open spec fn archive_kinds_spec(bin: bool, pdbs: bool, src: bool) -> Seq<ArchiveKind> {
    (if bin {
        seq![ArchiveKind::Bin]
    } else {
        Seq::empty()
    }) + (if pdbs {
        seq![ArchiveKind::Pdbs]
    } else {
        Seq::empty()
    }) + (if src {
        seq![ArchiveKind::Src]
    } else {
        Seq::empty()
    })
}

/// The archives to pack for the chosen outputs, in packing order.
pub fn archive_kinds(bin: bool, pdbs: bool, src: bool) -> (r: Vec<ArchiveKind>)
    ensures
        r@ == archive_kinds_spec(bin, pdbs, src),
{
    let mut r: Vec<ArchiveKind> = Vec::new();
    if bin {
        r.push(ArchiveKind::Bin);
    }
    if pdbs {
        r.push(ArchiveKind::Pdbs);
    }
    if src {
        r.push(ArchiveKind::Src);
    }
    assert(r@ =~= archive_kinds_spec(bin, pdbs, src));
    r
}

/// What an archive's name carries after the version and suffix.
pub open spec fn archive_what_spec(kind: ArchiveKind) -> Option<Seq<char>> {
    match kind {
        ArchiveKind::Bin => None,
        ArchiveKind::Pdbs => Some("pdbs"@),
        ArchiveKind::Src => Some("src"@),
    }
}

/// The file name of the archive of `kind` for `version` and `suffix`.
pub fn archive_file_name(version: &str, suffix: Option<&str>, kind: ArchiveKind) -> (r: String)
    ensures
        r@ == archive_name_spec(
            version@,
            match suffix {
                Some(s) => Some(s@),
                None => None,
            },
            archive_what_spec(kind),
        ),
{
    proof {
        reveal_strlit("pdbs");
        reveal_strlit("src");
    }
    match kind {
        ArchiveKind::Bin => archive_name(version, suffix, None),
        ArchiveKind::Pdbs => archive_name(version, suffix, Some("pdbs")),
        ArchiveKind::Src => archive_name(version, suffix, Some("src")),
    }
}

/// The configured path that `field` names, or the error that it is not
/// configured.
pub open spec fn configured(o: Option<String>, field: Seq<char>) -> Result<Seq<char>, Seq<char>> {
    match o {
        Some(p) => Ok(p@),
        None => Err("paths."@ + field + " not configured"@),
    }
}

/// The view of a path result.
pub open spec fn result_view(r: Result<String, String>) -> Result<Seq<char>, Seq<char>> {
    match r {
        Ok(s) => Ok(s@),
        Err(e) => Err(e@),
    }
}

fn configured_path(o: &Option<String>, missing: &str) -> (r: Result<String, String>)
    ensures
        match o {
            Some(p) => r matches Ok(q) && q@ == p@,
            None => r matches Err(e) && e@ == missing@,
        },
{
    match o {
        Some(p) => Ok(p.clone()),
        None => Err(owned(missing)),
    }
}

/// The directory that the archive of `kind` packs: `paths.install_bin`,
/// `paths.install_pdbs`, or `modorganizer_super` under the build directory.
pub fn archive_source(config: &Config, kind: ArchiveKind) -> (r: Result<String, String>)
    ensures
        kind == ArchiveKind::Bin ==> result_view(r) == configured(config.paths.install_bin, "install_bin"@),
        kind == ArchiveKind::Pdbs ==> result_view(r) == configured(config.paths.install_pdbs, "install_pdbs"@),
        kind == ArchiveKind::Src ==> match config.paths.build {
            Some(b) => r matches Ok(d) && exists|sep: char|
                (sep == '/' || sep == '\\') && d@ == path_join(b@, "modorganizer_super"@, sep),
            None => r matches Err(e) && e@ == "paths.build not configured"@,
        },
{
    proof {
        reveal_strlit("paths.install_bin not configured");
        reveal_strlit("paths.install_pdbs not configured");
        reveal_strlit("install_bin");
        reveal_strlit("install_pdbs");
        reveal_strlit("paths.");
        reveal_strlit(" not configured");
        assert("paths."@ + "install_bin"@ + " not configured"@ =~= "paths.install_bin not configured"@);
        assert("paths."@ + "install_pdbs"@ + " not configured"@ =~= "paths.install_pdbs not configured"@);
    }
    match kind {
        ArchiveKind::Bin => configured_path(&config.paths.install_bin, "paths.install_bin not configured"),
        ArchiveKind::Pdbs => configured_path(&config.paths.install_pdbs, "paths.install_pdbs not configured"),
        ArchiveKind::Src => modorganizer_super_dir(config),
    }
}

/// The directory that the installers are copied from.
pub fn installer_source(config: &Config) -> (r: Result<String, String>)
    ensures
        result_view(r) == configured(config.paths.install_installer, "install_installer"@),
{
    proof {
        reveal_strlit("paths.install_installer not configured");
        reveal_strlit("install_installer");
        reveal_strlit("paths.");
        reveal_strlit(" not configured");
        assert("paths."@ + "install_installer"@ + " not configured"@ =~= "paths.install_installer not configured"@);
    }
    configured_path(&config.paths.install_installer, "paths.install_installer not configured")
}

/// What the archive of `kind` leaves out.
pub fn archive_excludes(kind: ArchiveKind) -> (r: Vec<String>)
    ensures
        views(r@) == (if kind == ArchiveKind::Src {
            src_excludes_spec()
        } else {
            install_excludes_spec()
        }),
{
    match kind {
        ArchiveKind::Src => src_excludes(),
        _ => install_excludes(),
    }
}

/// How messages name the directory that the archive of `kind` packs.
pub open spec fn archive_label_spec(kind: ArchiveKind) -> Seq<char> {
    match kind {
        ArchiveKind::Bin => "install/bin"@,
        ArchiveKind::Pdbs => "install/pdbs"@,
        ArchiveKind::Src => "modorganizer_super"@,
    }
}

/// How messages name the directory that the archive of `kind` packs.
pub fn archive_label(kind: ArchiveKind) -> (r: String)
    ensures
        r@ == archive_label_spec(kind),
{
    match kind {
        ArchiveKind::Bin => owned("install/bin"),
        ArchiveKind::Pdbs => owned("install/pdbs"),
        ArchiveKind::Src => owned("modorganizer_super"),
    }
}

/// The error when the directory to archive is missing.
pub fn missing_archive_dir_text(label: &str, dir: &str) -> (r: String)
    ensures
        r@ == label@ + " directory not found: "@ + dir@,
{
    concat3(label, " directory not found: ", dir)
}

} // verus!
