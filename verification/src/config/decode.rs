//! Reading a `Config` from a configuration value tree.
//!
//! Each section is a table. Sections with fixed fields reject keys they do
//! not know (`cmake`, `tools`, `paths`, and each `tasks.<name>` table); the
//! sections `global`, `task` and `transifex` ignore unknown keys, and in
//! `versions` every key besides the four version fields names a stylesheet.
//! Fields read directly convert their value as `config::Value` does; the
//! fields grouped in a nested struct (the download, git and transifex
//! toggles, and `remote_org`) accept only a value of their own kind. A
//! missing field keeps its default.

use vstd::prelude::*;

use super::merge::TaskConfigOverride;
use super::paths::PathsConfig;
use super::types::{
    BuildConfiguration, CleanDownloadActions, CmakeConfig, CmakeInstallMessage, GlobalConfig, TaskConfig,
    ToolsConfig, TransifexConfig, VersionsConfig,
};
use super::value::{
    coerce_bool, coerce_string, coerce_u8, strict_bool, strict_string, variant_name, ConfigValue,
};
use super::Config;
use crate::error::ConfigError;
use crate::logging::LogLevel;
use crate::strmap::StrMap;
use crate::text::{concat2, opt_view, owned, str_eq};

verus! {

/// The entries of a table.
pub type Entries = Vec<(String, ConfigValue)>;

/// The value of the last entry of `t` under the key `k`.
pub open spec fn table_get(t: Seq<(String, ConfigValue)>, k: Seq<char>) -> Option<ConfigValue>
    decreases t.len(),
{
    if t.len() == 0 {
        None
    } else if t.last().0@ == k {
        Some(t.last().1)
    } else {
        table_get(t.drop_last(), k)
    }
}

/// Reading one more entry changes only the key of that entry.
pub proof fn lemma_table_get_step(t: Seq<(String, ConfigValue)>, i: int)
    requires
        0 <= i < t.len(),
    ensures
        forall|k: Seq<char>| #[trigger] table_get(t.take(i + 1), k) == if t[i].0@ == k {
            Some(t[i].1)
        } else {
            table_get(t.take(i), k)
        },
{
    assert(t.take(i + 1).drop_last() =~= t.take(i));
}

/// A boolean field read with conversion, or `d` where it is missing.
pub open spec fn bool_or(t: Seq<(String, ConfigValue)>, k: Seq<char>, d: bool) -> bool {
    match table_get(t, k) {
        Some(v) => match coerce_bool(v) {
            Some(b) => b,
            None => d,
        },
        None => d,
    }
}

/// A boolean field that must hold a boolean, or `d` where it is missing.
pub open spec fn strict_bool_or(t: Seq<(String, ConfigValue)>, k: Seq<char>, d: bool) -> bool {
    match table_get(t, k) {
        Some(v) => match strict_bool(v) {
            Some(b) => b,
            None => d,
        },
        None => d,
    }
}

/// A string field read with conversion, or `d` where it is missing.
pub open spec fn string_or(t: Seq<(String, ConfigValue)>, k: Seq<char>, d: Seq<char>) -> Seq<char> {
    match table_get(t, k) {
        Some(v) => match coerce_string(v) {
            Some(s) => s,
            None => d,
        },
        None => d,
    }
}

/// A string field that must hold a string, or `d` where it is missing.
pub open spec fn strict_string_or(t: Seq<(String, ConfigValue)>, k: Seq<char>, d: Seq<char>) -> Seq<char> {
    match table_get(t, k) {
        Some(v) => match strict_string(v) {
            Some(s) => s,
            None => d,
        },
        None => d,
    }
}

/// An 8-bit field read with conversion, or `d` where it is missing.
pub open spec fn u8_or(t: Seq<(String, ConfigValue)>, k: Seq<char>, d: u8) -> u8 {
    match table_get(t, k) {
        Some(v) => match coerce_u8(v) {
            Some(n) => n,
            None => d,
        },
        None => d,
    }
}

/// An optional boolean field: missing or nil gives `None`.
pub open spec fn opt_bool(t: Seq<(String, ConfigValue)>, k: Seq<char>) -> Option<bool> {
    match table_get(t, k) {
        Some(ConfigValue::Nil) => None,
        Some(v) => coerce_bool(v),
        None => None,
    }
}

/// An optional string field: missing or nil gives `None`.
pub open spec fn opt_string(t: Seq<(String, ConfigValue)>, k: Seq<char>) -> Option<Seq<char>> {
    match table_get(t, k) {
        Some(ConfigValue::Nil) => None,
        Some(v) => coerce_string(v),
        None => None,
    }
}

/// The build configuration a variant name selects.
pub open spec fn build_configuration_named(n: Seq<char>) -> Option<BuildConfiguration> {
    if n == "Debug"@ {
        Some(BuildConfiguration::Debug)
    } else if n == "Release"@ {
        Some(BuildConfiguration::Release)
    } else if n == "RelWithDebInfo"@ {
        Some(BuildConfiguration::RelWithDebInfo)
    } else {
        None
    }
}

/// The install message setting a variant name selects.
pub open spec fn install_message_named(n: Seq<char>) -> Option<CmakeInstallMessage> {
    if n == "always"@ {
        Some(CmakeInstallMessage::Always)
    } else if n == "lazy"@ {
        Some(CmakeInstallMessage::Lazy)
    } else if n == "never"@ {
        Some(CmakeInstallMessage::Never)
    } else {
        None
    }
}

/// A value read as a build configuration.
pub open spec fn as_build_configuration(v: ConfigValue) -> Option<BuildConfiguration> {
    match variant_name(v) {
        Some(n) => build_configuration_named(n),
        None => None,
    }
}

/// A value read as an install message setting.
pub open spec fn as_install_message(v: ConfigValue) -> Option<CmakeInstallMessage> {
    match variant_name(v) {
        Some(n) => install_message_named(n),
        None => None,
    }
}

/// A build configuration field, or `d` where it is missing.
pub open spec fn configuration_or(t: Seq<(String, ConfigValue)>, k: Seq<char>, d: BuildConfiguration) -> BuildConfiguration {
    match table_get(t, k) {
        Some(v) => match as_build_configuration(v) {
            Some(c) => c,
            None => d,
        },
        None => d,
    }
}

/// An optional build configuration field.
pub open spec fn opt_configuration(t: Seq<(String, ConfigValue)>, k: Seq<char>) -> Option<BuildConfiguration> {
    match table_get(t, k) {
        Some(ConfigValue::Nil) => None,
        Some(v) => as_build_configuration(v),
        None => None,
    }
}

/// Whether a value can be read as an optional boolean.
pub open spec fn opt_bool_ok(v: ConfigValue) -> bool {
    v is Nil || coerce_bool(v) is Some
}

/// Whether a value can be read as an optional string.
pub open spec fn opt_string_ok(v: ConfigValue) -> bool {
    v is Nil || coerce_string(v) is Some
}

/// The entries of a table value (none for any other value).
pub open spec fn entries_of(v: ConfigValue) -> Seq<(String, ConfigValue)> {
    match v {
        ConfigValue::Table(t) => t@,
        _ => Seq::empty(),
    }
}

// ---------------------------------------------------------------- [global]

/// Whether an entry of `[global]` can be read.
pub open spec fn global_entry_ok(k: Seq<char>, v: ConfigValue) -> bool {
    if k == "dry"@ || k == "ignore_uncommitted"@ {
        coerce_bool(v) is Some
    } else if k == "redownload"@ || k == "reextract"@ {
        strict_bool(v) is Some
    } else if k == "output_log_level"@ || k == "file_log_level"@ {
        match coerce_u8(v) {
            Some(n) => n <= 6,
            None => false,
        }
    } else if k == "log_file"@ {
        coerce_string(v) is Some
    } else {
        true
    }
}

/// Whether every entry of `[global]` can be read.
pub open spec fn global_ok(t: Seq<(String, ConfigValue)>) -> bool {
    forall|i: int| 0 <= i < t.len() ==> global_entry_ok(#[trigger] t[i].0@, t[i].1)
}

/// `g` is the `[global]` section read from `t`.
pub open spec fn is_global(g: GlobalConfig, t: Seq<(String, ConfigValue)>) -> bool {
    &&& g.dry == bool_or(t, "dry"@, false)
    &&& g.clean_download_actions.redownload == strict_bool_or(t, "redownload"@, false)
    &&& g.clean_download_actions.reextract == strict_bool_or(t, "reextract"@, false)
    &&& g.output_log_level.level() == u8_or(t, "output_log_level"@, 3)
    &&& g.file_log_level.level() == u8_or(t, "file_log_level"@, 5)
    &&& g.log_file@ == string_or(t, "log_file"@, "mob.log"@)
    &&& g.ignore_uncommitted == bool_or(t, "ignore_uncommitted"@, false)
}

// ---------------------------------------------------------------- [cmake]

/// Whether an entry of `[cmake]` can be read.
pub open spec fn cmake_entry_ok(k: Seq<char>, v: ConfigValue) -> bool {
    if k == "install_message"@ {
        as_install_message(v) is Some
    } else if k == "host"@ {
        coerce_string(v) is Some
    } else {
        false
    }
}

/// Whether every entry of `[cmake]` can be read.
pub open spec fn cmake_ok(t: Seq<(String, ConfigValue)>) -> bool {
    forall|i: int| 0 <= i < t.len() ==> cmake_entry_ok(#[trigger] t[i].0@, t[i].1)
}

/// `c` is the `[cmake]` section read from `t`.
pub open spec fn is_cmake(c: CmakeConfig, t: Seq<(String, ConfigValue)>) -> bool {
    &&& c.install_message == match table_get(t, "install_message"@) {
        Some(v) => match as_install_message(v) {
            Some(m) => m,
            None => CmakeInstallMessage::Never,
        },
        None => CmakeInstallMessage::Never,
    }
    &&& c.host@ == string_or(t, "host"@, Seq::empty())
}

// ---------------------------------------------------------------- [task]

/// Whether an entry of `[task]` can be read.
pub open spec fn task_entry_ok(k: Seq<char>, v: ConfigValue) -> bool {
    if k == "enabled"@ {
        coerce_bool(v) is Some
    } else if k == "mo_org"@ || k == "mo_branch"@ || k == "mo_fallback"@ || k == "git_url_prefix"@ {
        coerce_string(v) is Some
    } else if k == "configuration"@ {
        as_build_configuration(v) is Some
    } else if k == "no_pull"@ || k == "git_shallow"@ || k == "remote_no_push_upstream"@ || k
        == "remote_push_default_origin"@ {
        strict_bool(v) is Some
    } else if k == "remote_org"@ {
        strict_string(v) is Some
    } else {
        true
    }
}

/// Whether every entry of `[task]` can be read.
pub open spec fn task_ok(t: Seq<(String, ConfigValue)>) -> bool {
    forall|i: int| 0 <= i < t.len() ==> task_entry_ok(#[trigger] t[i].0@, t[i].1)
}

/// `c` is the `[task]` section read from `t`.
pub open spec fn is_task(c: TaskConfig, t: Seq<(String, ConfigValue)>) -> bool {
    &&& c.enabled == bool_or(t, "enabled"@, true)
    &&& c.mo_org@ == string_or(t, "mo_org"@, "ModOrganizer2"@)
    &&& c.mo_branch@ == string_or(t, "mo_branch"@, "master"@)
    &&& c.mo_fallback@ == string_or(t, "mo_fallback"@, Seq::empty())
    &&& c.git_behavior.no_pull == strict_bool_or(t, "no_pull"@, false)
    &&& c.configuration == configuration_or(t, "configuration"@, BuildConfiguration::RelWithDebInfo)
    &&& c.git_url_prefix@ == string_or(t, "git_url_prefix"@, "https://github.com/"@)
    &&& c.git_clone.git_shallow == strict_bool_or(t, "git_shallow"@, true)
    &&& c.remote_setup.remote_org@ == strict_string_or(t, "remote_org"@, Seq::empty())
    &&& c.remote_setup.remote_no_push_upstream == strict_bool_or(t, "remote_no_push_upstream"@, false)
    &&& c.remote_setup.remote_push_default_origin == strict_bool_or(t, "remote_push_default_origin"@, false)
}

// ---------------------------------------------------------------- [tasks.<name>]

/// Whether an entry of a task override can be read.
pub open spec fn override_entry_ok(k: Seq<char>, v: ConfigValue) -> bool {
    if k == "enabled"@ || k == "no_pull"@ || k == "git_shallow"@ || k == "remote_no_push_upstream"@ || k
        == "remote_push_default_origin"@ {
        opt_bool_ok(v)
    } else if k == "mo_org"@ || k == "mo_branch"@ || k == "mo_fallback"@ || k == "git_url_prefix"@ || k
        == "remote_org"@ {
        opt_string_ok(v)
    } else if k == "configuration"@ {
        v is Nil || as_build_configuration(v) is Some
    } else {
        false
    }
}

/// Whether every entry of a task override can be read.
pub open spec fn override_ok(t: Seq<(String, ConfigValue)>) -> bool {
    forall|i: int| 0 <= i < t.len() ==> override_entry_ok(#[trigger] t[i].0@, t[i].1)
}

/// `o` is the task override read from `t`.
pub open spec fn is_override(o: TaskConfigOverride, t: Seq<(String, ConfigValue)>) -> bool {
    &&& o.enabled == opt_bool(t, "enabled"@)
    &&& opt_view(o.mo_org) == opt_string(t, "mo_org"@)
    &&& opt_view(o.mo_branch) == opt_string(t, "mo_branch"@)
    &&& opt_view(o.mo_fallback) == opt_string(t, "mo_fallback"@)
    &&& o.no_pull == opt_bool(t, "no_pull"@)
    &&& o.configuration == opt_configuration(t, "configuration"@)
    &&& opt_view(o.git_url_prefix) == opt_string(t, "git_url_prefix"@)
    &&& o.git_shallow == opt_bool(t, "git_shallow"@)
    &&& opt_view(o.remote_org) == opt_string(t, "remote_org"@)
    &&& o.remote_no_push_upstream == opt_bool(t, "remote_no_push_upstream"@)
    &&& o.remote_push_default_origin == opt_bool(t, "remote_push_default_origin"@)
}

/// Whether every task override in `[tasks]` can be read.
pub open spec fn tasks_ok(t: Seq<(String, ConfigValue)>) -> bool {
    forall|i: int| 0 <= i < t.len() ==> (#[trigger] t[i].1 is Table && override_ok(entries_of(t[i].1)))
}

/// `m` is the map of task overrides read from `t`.
pub open spec fn is_tasks(m: StrMap<TaskConfigOverride>, t: Seq<(String, ConfigValue)>) -> bool {
    forall|k: Seq<char>| match #[trigger] table_get(t, k) {
        Some(v) => m.lookup(k) matches Some(o) && is_override(o, entries_of(v)),
        None => m.lookup(k) is None,
    }
}

// ---------------------------------------------------------------- [aliases]

/// The strings of an array of values, read with conversion.
pub open spec fn strings_of(a: Seq<ConfigValue>) -> Seq<Seq<char>> {
    a.map_values(|v: ConfigValue| coerce_string(v)->Some_0)
}

/// The elements of an array value (none for any other value).
pub open spec fn elements_of(v: ConfigValue) -> Seq<ConfigValue> {
    match v {
        ConfigValue::Array(a) => a@,
        _ => Seq::empty(),
    }
}

/// Whether every alias in `[aliases]` is a list of strings.
pub open spec fn aliases_ok(t: Seq<(String, ConfigValue)>) -> bool {
    forall|i: int| 0 <= i < t.len() ==> {
        &&& #[trigger] t[i].1 is Array
        &&& forall|j: int| 0 <= j < elements_of(t[i].1).len() ==> coerce_string(
            #[trigger] elements_of(t[i].1)[j],
        ) is Some
    }
}

/// The views of a list of strings.
pub open spec fn string_list_view(v: Vec<String>) -> Seq<Seq<char>> {
    v@.map_values(|s: String| s@)
}

/// `m` is the map of aliases read from `t`.
pub open spec fn is_aliases(m: StrMap<Vec<String>>, t: Seq<(String, ConfigValue)>) -> bool {
    forall|k: Seq<char>| match #[trigger] table_get(t, k) {
        Some(v) => m.lookup(k) matches Some(l) && string_list_view(l) == strings_of(elements_of(v)),
        None => m.lookup(k) is None,
    }
}

// ---------------------------------------------------------------- [tools]

/// Whether a key names a tool.
pub open spec fn is_tool_key(k: Seq<char>) -> bool {
    k == "7z"@ || k == "cmake"@ || k == "msbuild"@ || k == "tx"@ || k == "lrelease"@ || k == "iscc"@
}

/// Whether an entry of `[tools]` can be read.
pub open spec fn tools_entry_ok(k: Seq<char>, v: ConfigValue) -> bool {
    is_tool_key(k) && coerce_string(v) is Some
}

/// Whether every entry of `[tools]` can be read.
pub open spec fn tools_ok(t: Seq<(String, ConfigValue)>) -> bool {
    forall|i: int| 0 <= i < t.len() ==> tools_entry_ok(#[trigger] t[i].0@, t[i].1)
}

/// `c` is the `[tools]` section read from `t`.
pub open spec fn is_tools(c: ToolsConfig, t: Seq<(String, ConfigValue)>) -> bool {
    &&& c.sevenz@ == string_or(t, "7z"@, "7z.exe"@)
    &&& c.cmake@ == string_or(t, "cmake"@, "cmake.exe"@)
    &&& c.msbuild@ == string_or(t, "msbuild"@, "msbuild.exe"@)
    &&& c.tx@ == string_or(t, "tx"@, "tx.exe"@)
    &&& c.lrelease@ == string_or(t, "lrelease"@, "lrelease.exe"@)
    &&& c.iscc@ == string_or(t, "iscc"@, "ISCC.exe"@)
}

// ---------------------------------------------------------------- [transifex]

/// Whether an entry of `[transifex]` can be read.
pub open spec fn transifex_entry_ok(k: Seq<char>, v: ConfigValue) -> bool {
    if k == "enabled"@ {
        coerce_bool(v) is Some
    } else if k == "key"@ || k == "team"@ || k == "project"@ || k == "url"@ {
        coerce_string(v) is Some
    } else if k == "minimum"@ {
        coerce_u8(v) is Some
    } else if k == "force"@ || k == "configure"@ || k == "pull"@ {
        strict_bool(v) is Some
    } else {
        true
    }
}

/// Whether every entry of `[transifex]` can be read.
pub open spec fn transifex_ok(t: Seq<(String, ConfigValue)>) -> bool {
    forall|i: int| 0 <= i < t.len() ==> transifex_entry_ok(#[trigger] t[i].0@, t[i].1)
}

/// `c` is the `[transifex]` section read from `t`.
pub open spec fn is_transifex(c: TransifexConfig, t: Seq<(String, ConfigValue)>) -> bool {
    &&& c.enabled == bool_or(t, "enabled"@, true)
    &&& c.key@ == string_or(t, "key"@, Seq::empty())
    &&& c.team@ == string_or(t, "team"@, "mod-organizer-2-team"@)
    &&& c.project@ == string_or(t, "project"@, "mod-organizer-2"@)
    &&& c.url@ == string_or(t, "url"@, "https://app.transifex.com"@)
    &&& c.minimum == u8_or(t, "minimum"@, 60)
    &&& c.actions.force == strict_bool_or(t, "force"@, false)
    &&& c.actions.configure == strict_bool_or(t, "configure"@, true)
    &&& c.actions.pull == strict_bool_or(t, "pull"@, true)
}

// ---------------------------------------------------------------- [versions]

/// Whether a key names one of the fixed version fields.
pub open spec fn is_version_key(k: Seq<char>) -> bool {
    k == "vs_toolset"@ || k == "sdk"@ || k == "usvfs"@ || k == "explorerpp"@
}

/// Whether every entry of `[versions]` can be read.
pub open spec fn versions_ok(t: Seq<(String, ConfigValue)>) -> bool {
    forall|i: int| 0 <= i < t.len() ==> if is_version_key(#[trigger] t[i].0@) {
        coerce_string(t[i].1) is Some
    } else {
        strict_string(t[i].1) is Some
    }
}

/// `c` is the `[versions]` section read from `t`: every other key names a
/// stylesheet.
pub open spec fn is_versions(c: VersionsConfig, t: Seq<(String, ConfigValue)>) -> bool {
    &&& c.vs_toolset@ == string_or(t, "vs_toolset"@, "14.3"@)
    &&& c.sdk@ == string_or(t, "sdk"@, "10.0.26100.0"@)
    &&& c.usvfs@ == string_or(t, "usvfs"@, "master"@)
    &&& c.explorerpp@ == string_or(t, "explorerpp"@, "1.4.0"@)
    &&& forall|k: Seq<char>| #[trigger] opt_view(c.stylesheets.lookup(k)) == if is_version_key(k) {
        None
    } else {
        match table_get(t, k) {
            Some(v) => strict_string(v),
            None => None,
        }
    }
}

// ---------------------------------------------------------------- [paths]

/// Whether a key names a path.
pub open spec fn is_path_key(k: Seq<char>) -> bool {
    k == "prefix"@ || k == "cache"@ || k == "licenses"@ || k == "build"@ || k == "install"@ || k
        == "install_bin"@ || k == "install_installer"@ || k == "install_libs"@ || k == "install_pdbs"@ || k
        == "install_stylesheets"@ || k == "install_licenses"@ || k == "install_translations"@ || k == "vcpkg"@
        || k == "qt_install"@ || k == "qt_bin"@ || k == "qt_translations"@
}

/// Whether an entry of `[paths]` can be read.
pub open spec fn paths_entry_ok(k: Seq<char>, v: ConfigValue) -> bool {
    is_path_key(k) && opt_string_ok(v)
}

/// Whether every entry of `[paths]` can be read.
pub open spec fn paths_ok(t: Seq<(String, ConfigValue)>) -> bool {
    forall|i: int| 0 <= i < t.len() ==> paths_entry_ok(#[trigger] t[i].0@, t[i].1)
}

/// `p` is the `[paths]` section read from `t`.
pub open spec fn is_paths(p: PathsConfig, t: Seq<(String, ConfigValue)>) -> bool {
    &&& opt_view(p.prefix) == opt_string(t, "prefix"@)
    &&& opt_view(p.cache) == opt_string(t, "cache"@)
    &&& opt_view(p.licenses) == opt_string(t, "licenses"@)
    &&& opt_view(p.build) == opt_string(t, "build"@)
    &&& opt_view(p.install) == opt_string(t, "install"@)
    &&& opt_view(p.install_bin) == opt_string(t, "install_bin"@)
    &&& opt_view(p.install_installer) == opt_string(t, "install_installer"@)
    &&& opt_view(p.install_libs) == opt_string(t, "install_libs"@)
    &&& opt_view(p.install_pdbs) == opt_string(t, "install_pdbs"@)
    &&& opt_view(p.install_stylesheets) == opt_string(t, "install_stylesheets"@)
    &&& opt_view(p.install_licenses) == opt_string(t, "install_licenses"@)
    &&& opt_view(p.install_translations) == opt_string(t, "install_translations"@)
    &&& opt_view(p.vcpkg) == opt_string(t, "vcpkg"@)
    &&& opt_view(p.qt_install) == opt_string(t, "qt_install"@)
    &&& opt_view(p.qt_bin) == opt_string(t, "qt_bin"@)
    &&& opt_view(p.qt_translations) == opt_string(t, "qt_translations"@)
}

// ---------------------------------------------------------------- reading values

fn type_error(section: &str, key: &str, v: &ConfigValue, expected: &str) -> (e: ConfigError)
    ensures
        e matches ConfigError::InvalidValue { section: s, key: k, message: m } && s@ == section@ && k@ == key@
            && m@ == "invalid type: "@ + super::value::describe_text(*v) + ", expected "@ + expected@,
{
    let mut m = owned("invalid type: ");
    let d = v.describe();
    m.append(d.as_str());
    m.append(", expected ");
    m.append(expected);
    ConfigError::InvalidValue { section: owned(section), key: owned(key), message: m }
}

fn unknown_field(section: &str, key: &str, expected: &str) -> (e: ConfigError)
    ensures
        e matches ConfigError::InvalidValue { section: s, key: k, message: m } && s@ == section@ && k@ == key@
            && m@ == "unknown field `"@ + key@ + "`, expected "@ + expected@,
{
    let mut m = concat2("unknown field `", key);
    m.append("`, expected ");
    m.append(expected);
    ConfigError::InvalidValue { section: owned(section), key: owned(key), message: m }
}

fn read_bool(v: &ConfigValue, section: &str, key: &str) -> (r: Result<bool, ConfigError>)
    ensures
        match coerce_bool(*v) {
            Some(b) => r == Ok::<bool, ConfigError>(b),
            None => r is Err,
        },
{
    match v.as_bool() {
        Some(b) => Ok(b),
        None => Err(type_error(section, key, v, "a boolean")),
    }
}

fn read_strict_bool(v: &ConfigValue, section: &str, key: &str) -> (r: Result<bool, ConfigError>)
    ensures
        match strict_bool(*v) {
            Some(b) => r == Ok::<bool, ConfigError>(b),
            None => r is Err,
        },
{
    match v.as_strict_bool() {
        Some(b) => Ok(b),
        None => Err(type_error(section, key, v, "a boolean")),
    }
}

fn read_string(v: &ConfigValue, section: &str, key: &str) -> (r: Result<String, ConfigError>)
    ensures
        match coerce_string(*v) {
            Some(s) => r matches Ok(x) && x@ == s,
            None => r is Err,
        },
{
    match v.as_string() {
        Some(s) => Ok(s),
        None => Err(type_error(section, key, v, "a string")),
    }
}

fn read_strict_string(v: &ConfigValue, section: &str, key: &str) -> (r: Result<String, ConfigError>)
    ensures
        match strict_string(*v) {
            Some(s) => r matches Ok(x) && x@ == s,
            None => r is Err,
        },
{
    match v.as_strict_string() {
        Some(s) => Ok(s),
        None => Err(type_error(section, key, v, "a string")),
    }
}

fn read_u8(v: &ConfigValue, section: &str, key: &str) -> (r: Result<u8, ConfigError>)
    ensures
        match coerce_u8(*v) {
            Some(n) => r == Ok::<u8, ConfigError>(n),
            None => r is Err,
        },
{
    match v.as_u8() {
        Some(n) => Ok(n),
        None => Err(type_error(section, key, v, "an unsigned 8 bit integer")),
    }
}

fn read_level(v: &ConfigValue, section: &str, key: &str) -> (r: Result<LogLevel, ConfigError>)
    ensures
        match coerce_u8(*v) {
            Some(n) => if n <= 6 {
                r matches Ok(l) && l.level() == n
            } else {
                r is Err
            },
            None => r is Err,
        },
{
    match read_u8(v, section, key) {
        Ok(n) => LogLevel::new(n),
        Err(e) => Err(e),
    }
}

fn read_configuration(v: &ConfigValue, section: &str, key: &str) -> (r: Result<BuildConfiguration, ConfigError>)
    ensures
        match as_build_configuration(*v) {
            Some(c) => r == Ok::<BuildConfiguration, ConfigError>(c),
            None => r is Err,
        },
{
    match v.variant() {
        Some(n) => {
            if str_eq(n.as_str(), "Debug") {
                Ok(BuildConfiguration::Debug)
            } else if str_eq(n.as_str(), "Release") {
                Ok(BuildConfiguration::Release)
            } else if str_eq(n.as_str(), "RelWithDebInfo") {
                Ok(BuildConfiguration::RelWithDebInfo)
            } else {
                let mut m = owned("enum BuildConfiguration does not have variant constructor ");
                m.append(n.as_str());
                Err(ConfigError::InvalidValue { section: owned(section), key: owned(key), message: m })
            }
        },
        None => Err(
            ConfigError::InvalidValue {
                section: owned(section),
                key: owned(key),
                message: owned(
                    "value of enum BuildConfiguration should be represented by either string or table with exactly one key",
                ),
            },
        ),
    }
}

fn read_install_message(v: &ConfigValue, section: &str, key: &str) -> (r: Result<CmakeInstallMessage, ConfigError>)
    ensures
        match as_install_message(*v) {
            Some(c) => r == Ok::<CmakeInstallMessage, ConfigError>(c),
            None => r is Err,
        },
{
    match v.variant() {
        Some(n) => {
            if str_eq(n.as_str(), "always") {
                Ok(CmakeInstallMessage::Always)
            } else if str_eq(n.as_str(), "lazy") {
                Ok(CmakeInstallMessage::Lazy)
            } else if str_eq(n.as_str(), "never") {
                Ok(CmakeInstallMessage::Never)
            } else {
                let mut m = owned("enum CmakeInstallMessage does not have variant constructor ");
                m.append(n.as_str());
                Err(ConfigError::InvalidValue { section: owned(section), key: owned(key), message: m })
            }
        },
        None => Err(
            ConfigError::InvalidValue {
                section: owned(section),
                key: owned(key),
                message: owned(
                    "value of enum CmakeInstallMessage should be represented by either string or table with exactly one key",
                ),
            },
        ),
    }
}

fn read_opt_bool(v: &ConfigValue, section: &str, key: &str) -> (r: Result<Option<bool>, ConfigError>)
    ensures
        r is Ok <==> opt_bool_ok(*v),
        r matches Ok(o) ==> o == (if v is Nil {
            None
        } else {
            coerce_bool(*v)
        }),
{
    match v {
        ConfigValue::Nil => Ok(None),
        _ => match read_bool(v, section, key) {
            Ok(b) => Ok(Some(b)),
            Err(e) => Err(e),
        },
    }
}

fn read_opt_string(v: &ConfigValue, section: &str, key: &str) -> (r: Result<Option<String>, ConfigError>)
    ensures
        r is Ok <==> opt_string_ok(*v),
        r matches Ok(o) ==> opt_view(o) == (if v is Nil {
            None
        } else {
            coerce_string(*v)
        }),
{
    match v {
        ConfigValue::Nil => Ok(None),
        _ => match read_string(v, section, key) {
            Ok(s) => Ok(Some(s)),
            Err(e) => Err(e),
        },
    }
}

fn read_opt_configuration(v: &ConfigValue, section: &str, key: &str) -> (r: Result<
    Option<BuildConfiguration>,
    ConfigError,
>)
    ensures
        r is Ok <==> (v is Nil || as_build_configuration(*v) is Some),
        r matches Ok(o) ==> o == (if v is Nil {
            None
        } else {
            as_build_configuration(*v)
        }),
{
    match v {
        ConfigValue::Nil => Ok(None),
        _ => match read_configuration(v, section, key) {
            Ok(c) => Ok(Some(c)),
            Err(e) => Err(e),
        },
    }
}

// ---------------------------------------------------------------- reading sections

/// Reads the `[global]` section.
///
/// # Errors
///
/// Returns `ConfigError::InvalidValue` if a field holds a value of the wrong
/// kind or a log level above 6.
pub fn decode_global(t: &Entries) -> (r: Result<GlobalConfig, ConfigError>)
    ensures
        r is Ok <==> global_ok(t@),
        r matches Ok(g) ==> is_global(g, t@),
{
    let mut g = GlobalConfig::default();
    let mut i: usize = 0;
    while i < t.len()
        invariant
            i <= t@.len(),
            forall|j: int| 0 <= j < i ==> global_entry_ok(#[trigger] t@[j].0@, t@[j].1),
            is_global(g, t@.take(i as int)),
        decreases t.len() - i,
    {
        proof {
            lemma_table_get_step(t@, i as int);
            reveal_strlit("dry");
            assert("dry"@.len() == 3);
            reveal_strlit("redownload");
            assert("redownload"@.len() == 10);
            reveal_strlit("reextract");
            assert("reextract"@.len() == 9);
            reveal_strlit("output_log_level");
            assert("output_log_level"@.len() == 16);
            reveal_strlit("file_log_level");
            assert("file_log_level"@.len() == 14);
            reveal_strlit("log_file");
            assert("log_file"@.len() == 8);
            reveal_strlit("ignore_uncommitted");
            assert("ignore_uncommitted"@.len() == 18);
        }
        let key = t[i].0.as_str();
        let v = &t[i].1;
        if str_eq(key, "dry") {
            match read_bool(v, "global", key) {
                Ok(b) => g.dry = b,
                Err(e) => return Err(e),
            }
        } else if str_eq(key, "ignore_uncommitted") {
            match read_bool(v, "global", key) {
                Ok(b) => g.ignore_uncommitted = b,
                Err(e) => return Err(e),
            }
        } else if str_eq(key, "redownload") {
            match read_strict_bool(v, "global", key) {
                Ok(b) => g.clean_download_actions = CleanDownloadActions {
                    redownload: b,
                    reextract: g.clean_download_actions.reextract,
                },
                Err(e) => return Err(e),
            }
        } else if str_eq(key, "reextract") {
            match read_strict_bool(v, "global", key) {
                Ok(b) => g.clean_download_actions = CleanDownloadActions {
                    redownload: g.clean_download_actions.redownload,
                    reextract: b,
                },
                Err(e) => return Err(e),
            }
        } else if str_eq(key, "output_log_level") {
            match read_level(v, "global", key) {
                Ok(l) => g.output_log_level = l,
                Err(e) => return Err(e),
            }
        } else if str_eq(key, "file_log_level") {
            match read_level(v, "global", key) {
                Ok(l) => g.file_log_level = l,
                Err(e) => return Err(e),
            }
        } else if str_eq(key, "log_file") {
            match read_string(v, "global", key) {
                Ok(s) => g.log_file = s,
                Err(e) => return Err(e),
            }
        }
        i = i + 1;
    }
    proof {
        assert(t@.take(t@.len() as int) =~= t@);
    }
    Ok(g)
}

/// Reads the `[cmake]` section.
///
/// # Errors
///
/// Returns `ConfigError::InvalidValue` for an unknown key or a value of the
/// wrong kind.
pub fn decode_cmake(t: &Entries) -> (r: Result<CmakeConfig, ConfigError>)
    ensures
        r is Ok <==> cmake_ok(t@),
        r matches Ok(c) ==> is_cmake(c, t@),
{
    let mut c = CmakeConfig::default();
    let mut i: usize = 0;
    while i < t.len()
        invariant
            i <= t@.len(),
            forall|j: int| 0 <= j < i ==> cmake_entry_ok(#[trigger] t@[j].0@, t@[j].1),
            is_cmake(c, t@.take(i as int)),
        decreases t.len() - i,
    {
        proof {
            lemma_table_get_step(t@, i as int);
            reveal_strlit("install_message");
            assert("install_message"@.len() == 15);
            reveal_strlit("host");
            assert("host"@.len() == 4);
        }
        let key = t[i].0.as_str();
        let v = &t[i].1;
        if str_eq(key, "install_message") {
            match read_install_message(v, "cmake", key) {
                Ok(x) => c.install_message = x,
                Err(e) => return Err(e),
            }
        } else if str_eq(key, "host") {
            match read_string(v, "cmake", key) {
                Ok(x) => c.host = x,
                Err(e) => return Err(e),
            }
        } else {
            return Err(unknown_field("cmake", key, "`install_message` or `host`"));
        }
        i = i + 1;
    }
    proof {
        assert(t@.take(t@.len() as int) =~= t@);
    }
    Ok(c)
}

/// Reads the `[task]` section.
///
/// # Errors
///
/// Returns `ConfigError::InvalidValue` if a field holds a value of the wrong
/// kind.
pub fn decode_task(t: &Entries) -> (r: Result<TaskConfig, ConfigError>)
    ensures
        r is Ok <==> task_ok(t@),
        r matches Ok(c) ==> is_task(c, t@),
{
    let mut c = TaskConfig::default();
    let mut i: usize = 0;
    while i < t.len()
        invariant
            i <= t@.len(),
            forall|j: int| 0 <= j < i ==> task_entry_ok(#[trigger] t@[j].0@, t@[j].1),
            is_task(c, t@.take(i as int)),
        decreases t.len() - i,
    {
        proof {
            lemma_table_get_step(t@, i as int);
            reveal_strlit("enabled");
            assert("enabled"@.len() == 7);
            reveal_strlit("mo_org");
            assert("mo_org"@.len() == 6);
            reveal_strlit("mo_branch");
            assert("mo_branch"@.len() == 9);
            reveal_strlit("mo_fallback");
            assert("mo_fallback"@.len() == 11);
            reveal_strlit("git_url_prefix");
            assert("git_url_prefix"@.len() == 14);
            reveal_strlit("configuration");
            assert("configuration"@.len() == 13);
            reveal_strlit("no_pull");
            assert("no_pull"@.len() == 7);
            reveal_strlit("git_shallow");
            assert("git_shallow"@.len() == 11);
            reveal_strlit("remote_no_push_upstream");
            assert("remote_no_push_upstream"@.len() == 23);
            reveal_strlit("remote_push_default_origin");
            assert("remote_push_default_origin"@.len() == 26);
            reveal_strlit("remote_org");
            assert("remote_org"@.len() == 10);
            assert("enabled"@[0] == 'e');
            assert("no_pull"@[0] == 'n');
            assert("git_shallow"@[0] == 'g');
            assert("mo_fallback"@[0] == 'm');
        }
        let key = t[i].0.as_str();
        let v = &t[i].1;
        if str_eq(key, "enabled") {
            match read_bool(v, "task", key) {
                Ok(x) => c.enabled = x,
                Err(e) => return Err(e),
            }
        } else if str_eq(key, "mo_org") {
            match read_string(v, "task", key) {
                Ok(x) => c.mo_org = x,
                Err(e) => return Err(e),
            }
        } else if str_eq(key, "mo_branch") {
            match read_string(v, "task", key) {
                Ok(x) => c.mo_branch = x,
                Err(e) => return Err(e),
            }
        } else if str_eq(key, "mo_fallback") {
            match read_string(v, "task", key) {
                Ok(x) => c.mo_fallback = x,
                Err(e) => return Err(e),
            }
        } else if str_eq(key, "git_url_prefix") {
            match read_string(v, "task", key) {
                Ok(x) => c.git_url_prefix = x,
                Err(e) => return Err(e),
            }
        } else if str_eq(key, "configuration") {
            match read_configuration(v, "task", key) {
                Ok(x) => c.configuration = x,
                Err(e) => return Err(e),
            }
        } else if str_eq(key, "no_pull") {
            match read_strict_bool(v, "task", key) {
                Ok(x) => c.git_behavior.no_pull = x,
                Err(e) => return Err(e),
            }
        } else if str_eq(key, "git_shallow") {
            match read_strict_bool(v, "task", key) {
                Ok(x) => c.git_clone.git_shallow = x,
                Err(e) => return Err(e),
            }
        } else if str_eq(key, "remote_no_push_upstream") {
            match read_strict_bool(v, "task", key) {
                Ok(x) => c.remote_setup.remote_no_push_upstream = x,
                Err(e) => return Err(e),
            }
        } else if str_eq(key, "remote_push_default_origin") {
            match read_strict_bool(v, "task", key) {
                Ok(x) => c.remote_setup.remote_push_default_origin = x,
                Err(e) => return Err(e),
            }
        } else if str_eq(key, "remote_org") {
            match read_strict_string(v, "task", key) {
                Ok(x) => c.remote_setup.remote_org = x,
                Err(e) => return Err(e),
            }
        }
        i = i + 1;
    }
    proof {
        assert(t@.take(t@.len() as int) =~= t@);
    }
    Ok(c)
}

/// Reads one `[tasks.<name>]` override table.
///
/// # Errors
///
/// Returns `ConfigError::InvalidValue` for an unknown key or a value of the
/// wrong kind.
pub fn decode_override(t: &Entries) -> (r: Result<TaskConfigOverride, ConfigError>)
    ensures
        r is Ok <==> override_ok(t@),
        r matches Ok(c) ==> is_override(c, t@),
{
    let mut c = TaskConfigOverride::default();
    let mut i: usize = 0;
    while i < t.len()
        invariant
            i <= t@.len(),
            forall|j: int| 0 <= j < i ==> override_entry_ok(#[trigger] t@[j].0@, t@[j].1),
            is_override(c, t@.take(i as int)),
        decreases t.len() - i,
    {
        proof {
            lemma_table_get_step(t@, i as int);
            reveal_strlit("enabled");
            assert("enabled"@.len() == 7);
            reveal_strlit("mo_org");
            assert("mo_org"@.len() == 6);
            reveal_strlit("mo_branch");
            assert("mo_branch"@.len() == 9);
            reveal_strlit("mo_fallback");
            assert("mo_fallback"@.len() == 11);
            reveal_strlit("git_url_prefix");
            assert("git_url_prefix"@.len() == 14);
            reveal_strlit("configuration");
            assert("configuration"@.len() == 13);
            reveal_strlit("no_pull");
            assert("no_pull"@.len() == 7);
            reveal_strlit("git_shallow");
            assert("git_shallow"@.len() == 11);
            reveal_strlit("remote_no_push_upstream");
            assert("remote_no_push_upstream"@.len() == 23);
            reveal_strlit("remote_push_default_origin");
            assert("remote_push_default_origin"@.len() == 26);
            reveal_strlit("remote_org");
            assert("remote_org"@.len() == 10);
            assert("enabled"@[0] == 'e');
            assert("no_pull"@[0] == 'n');
            assert("git_shallow"@[0] == 'g');
            assert("mo_fallback"@[0] == 'm');
        }
        let key = t[i].0.as_str();
        let v = &t[i].1;
        if str_eq(key, "enabled") {
            match read_opt_bool(v, "tasks", key) {
                Ok(x) => c.enabled = x,
                Err(e) => return Err(e),
            }
        } else if str_eq(key, "mo_org") {
            match read_opt_string(v, "tasks", key) {
                Ok(x) => c.mo_org = x,
                Err(e) => return Err(e),
            }
        } else if str_eq(key, "mo_branch") {
            match read_opt_string(v, "tasks", key) {
                Ok(x) => c.mo_branch = x,
                Err(e) => return Err(e),
            }
        } else if str_eq(key, "mo_fallback") {
            match read_opt_string(v, "tasks", key) {
                Ok(x) => c.mo_fallback = x,
                Err(e) => return Err(e),
            }
        } else if str_eq(key, "git_url_prefix") {
            match read_opt_string(v, "tasks", key) {
                Ok(x) => c.git_url_prefix = x,
                Err(e) => return Err(e),
            }
        } else if str_eq(key, "configuration") {
            match read_opt_configuration(v, "tasks", key) {
                Ok(x) => c.configuration = x,
                Err(e) => return Err(e),
            }
        } else if str_eq(key, "no_pull") {
            match read_opt_bool(v, "tasks", key) {
                Ok(x) => c.no_pull = x,
                Err(e) => return Err(e),
            }
        } else if str_eq(key, "git_shallow") {
            match read_opt_bool(v, "tasks", key) {
                Ok(x) => c.git_shallow = x,
                Err(e) => return Err(e),
            }
        } else if str_eq(key, "remote_no_push_upstream") {
            match read_opt_bool(v, "tasks", key) {
                Ok(x) => c.remote_no_push_upstream = x,
                Err(e) => return Err(e),
            }
        } else if str_eq(key, "remote_push_default_origin") {
            match read_opt_bool(v, "tasks", key) {
                Ok(x) => c.remote_push_default_origin = x,
                Err(e) => return Err(e),
            }
        } else if str_eq(key, "remote_org") {
            match read_opt_string(v, "tasks", key) {
                Ok(x) => c.remote_org = x,
                Err(e) => return Err(e),
            }
        } else {
            return Err(unknown_field("tasks", key, "one of `enabled`, `mo_org`, `mo_branch`, `mo_fallback`, `no_pull`, `configuration`, `git_url_prefix`, `git_shallow`, `remote_org`, `remote_no_push_upstream`, `remote_push_default_origin`"));
        }
        i = i + 1;
    }
    proof {
        assert(t@.take(t@.len() as int) =~= t@);
    }
    Ok(c)
}

/// Reads the `[tools]` section.
///
/// # Errors
///
/// Returns `ConfigError::InvalidValue` for an unknown key or a value of the
/// wrong kind.
pub fn decode_tools(t: &Entries) -> (r: Result<ToolsConfig, ConfigError>)
    ensures
        r is Ok <==> tools_ok(t@),
        r matches Ok(c) ==> is_tools(c, t@),
{
    let mut c = ToolsConfig::default();
    let mut i: usize = 0;
    while i < t.len()
        invariant
            i <= t@.len(),
            forall|j: int| 0 <= j < i ==> tools_entry_ok(#[trigger] t@[j].0@, t@[j].1),
            is_tools(c, t@.take(i as int)),
        decreases t.len() - i,
    {
        proof {
            lemma_table_get_step(t@, i as int);
            reveal_strlit("7z");
            assert("7z"@.len() == 2);
            reveal_strlit("cmake");
            assert("cmake"@.len() == 5);
            reveal_strlit("msbuild");
            assert("msbuild"@.len() == 7);
            reveal_strlit("tx");
            assert("tx"@.len() == 2);
            reveal_strlit("lrelease");
            assert("lrelease"@.len() == 8);
            reveal_strlit("iscc");
            assert("iscc"@.len() == 4);
            assert("7z"@[0] == '7');
            assert("tx"@[0] == 't');
        }
        let key = t[i].0.as_str();
        let v = &t[i].1;
        if str_eq(key, "7z") {
            match read_string(v, "tools", key) {
                Ok(x) => c.sevenz = x,
                Err(e) => return Err(e),
            }
        } else if str_eq(key, "cmake") {
            match read_string(v, "tools", key) {
                Ok(x) => c.cmake = x,
                Err(e) => return Err(e),
            }
        } else if str_eq(key, "msbuild") {
            match read_string(v, "tools", key) {
                Ok(x) => c.msbuild = x,
                Err(e) => return Err(e),
            }
        } else if str_eq(key, "tx") {
            match read_string(v, "tools", key) {
                Ok(x) => c.tx = x,
                Err(e) => return Err(e),
            }
        } else if str_eq(key, "lrelease") {
            match read_string(v, "tools", key) {
                Ok(x) => c.lrelease = x,
                Err(e) => return Err(e),
            }
        } else if str_eq(key, "iscc") {
            match read_string(v, "tools", key) {
                Ok(x) => c.iscc = x,
                Err(e) => return Err(e),
            }
        } else {
            return Err(unknown_field("tools", key, "one of `7z`, `cmake`, `msbuild`, `tx`, `lrelease`, `iscc`"));
        }
        i = i + 1;
    }
    proof {
        assert(t@.take(t@.len() as int) =~= t@);
    }
    Ok(c)
}

/// Reads the `[transifex]` section.
///
/// # Errors
///
/// Returns `ConfigError::InvalidValue` if a field holds a value of the wrong
/// kind.
pub fn decode_transifex(t: &Entries) -> (r: Result<TransifexConfig, ConfigError>)
    ensures
        r is Ok <==> transifex_ok(t@),
        r matches Ok(c) ==> is_transifex(c, t@),
{
    let mut c = TransifexConfig::default();
    let mut i: usize = 0;
    while i < t.len()
        invariant
            i <= t@.len(),
            forall|j: int| 0 <= j < i ==> transifex_entry_ok(#[trigger] t@[j].0@, t@[j].1),
            is_transifex(c, t@.take(i as int)),
        decreases t.len() - i,
    {
        proof {
            lemma_table_get_step(t@, i as int);
            reveal_strlit("enabled");
            assert("enabled"@.len() == 7);
            reveal_strlit("key");
            assert("key"@.len() == 3);
            reveal_strlit("team");
            assert("team"@.len() == 4);
            reveal_strlit("project");
            assert("project"@.len() == 7);
            reveal_strlit("url");
            assert("url"@.len() == 3);
            reveal_strlit("minimum");
            assert("minimum"@.len() == 7);
            reveal_strlit("force");
            assert("force"@.len() == 5);
            reveal_strlit("configure");
            assert("configure"@.len() == 9);
            reveal_strlit("pull");
            assert("pull"@.len() == 4);
            assert("enabled"@[0] == 'e');
            assert("project"@[0] == 'p');
            assert("enabled"@[0] == 'e');
            assert("minimum"@[0] == 'm');
            assert("key"@[0] == 'k');
            assert("url"@[0] == 'u');
            assert("minimum"@[0] == 'm');
            assert("project"@[0] == 'p');
            assert("pull"@[0] == 'p');
            assert("team"@[0] == 't');
        }
        let key = t[i].0.as_str();
        let v = &t[i].1;
        if str_eq(key, "enabled") {
            match read_bool(v, "transifex", key) {
                Ok(x) => c.enabled = x,
                Err(e) => return Err(e),
            }
        } else if str_eq(key, "key") {
            match read_string(v, "transifex", key) {
                Ok(x) => c.key = x,
                Err(e) => return Err(e),
            }
        } else if str_eq(key, "team") {
            match read_string(v, "transifex", key) {
                Ok(x) => c.team = x,
                Err(e) => return Err(e),
            }
        } else if str_eq(key, "project") {
            match read_string(v, "transifex", key) {
                Ok(x) => c.project = x,
                Err(e) => return Err(e),
            }
        } else if str_eq(key, "url") {
            match read_string(v, "transifex", key) {
                Ok(x) => c.url = x,
                Err(e) => return Err(e),
            }
        } else if str_eq(key, "minimum") {
            match read_u8(v, "transifex", key) {
                Ok(x) => c.minimum = x,
                Err(e) => return Err(e),
            }
        } else if str_eq(key, "force") {
            match read_strict_bool(v, "transifex", key) {
                Ok(x) => c.actions.force = x,
                Err(e) => return Err(e),
            }
        } else if str_eq(key, "configure") {
            match read_strict_bool(v, "transifex", key) {
                Ok(x) => c.actions.configure = x,
                Err(e) => return Err(e),
            }
        } else if str_eq(key, "pull") {
            match read_strict_bool(v, "transifex", key) {
                Ok(x) => c.actions.pull = x,
                Err(e) => return Err(e),
            }
        }
        i = i + 1;
    }
    proof {
        assert(t@.take(t@.len() as int) =~= t@);
    }
    Ok(c)
}

/// Reads the `[paths]` section.
///
/// # Errors
///
/// Returns `ConfigError::InvalidValue` for an unknown key or a value of the
/// wrong kind.
pub fn decode_paths(t: &Entries) -> (r: Result<PathsConfig, ConfigError>)
    ensures
        r is Ok <==> paths_ok(t@),
        r matches Ok(c) ==> is_paths(c, t@),
{
    let mut c = PathsConfig::default();
    let mut i: usize = 0;
    while i < t.len()
        invariant
            i <= t@.len(),
            forall|j: int| 0 <= j < i ==> paths_entry_ok(#[trigger] t@[j].0@, t@[j].1),
            is_paths(c, t@.take(i as int)),
        decreases t.len() - i,
    {
        proof {
            lemma_table_get_step(t@, i as int);
            reveal_strlit("prefix");
            assert("prefix"@.len() == 6);
            reveal_strlit("cache");
            assert("cache"@.len() == 5);
            reveal_strlit("licenses");
            assert("licenses"@.len() == 8);
            reveal_strlit("build");
            assert("build"@.len() == 5);
            reveal_strlit("install");
            assert("install"@.len() == 7);
            reveal_strlit("install_bin");
            assert("install_bin"@.len() == 11);
            reveal_strlit("install_installer");
            assert("install_installer"@.len() == 17);
            reveal_strlit("install_libs");
            assert("install_libs"@.len() == 12);
            reveal_strlit("install_pdbs");
            assert("install_pdbs"@.len() == 12);
            reveal_strlit("install_stylesheets");
            assert("install_stylesheets"@.len() == 19);
            reveal_strlit("install_licenses");
            assert("install_licenses"@.len() == 16);
            reveal_strlit("install_translations");
            assert("install_translations"@.len() == 20);
            reveal_strlit("vcpkg");
            assert("vcpkg"@.len() == 5);
            reveal_strlit("qt_install");
            assert("qt_install"@.len() == 10);
            reveal_strlit("qt_bin");
            assert("qt_bin"@.len() == 6);
            reveal_strlit("qt_translations");
            assert("qt_translations"@.len() == 15);
            assert("prefix"@[0] == 'p');
            assert("qt_bin"@[0] == 'q');
            assert("cache"@[0] == 'c');
            assert("vcpkg"@[0] == 'v');
            assert("build"@[0] == 'b');
            assert("cache"@[0] == 'c');
            assert("build"@[0] == 'b');
            assert("vcpkg"@[0] == 'v');
            assert("install_libs"@[8] == 'l');
            assert("install_pdbs"@[8] == 'p');
        }
        let key = t[i].0.as_str();
        let v = &t[i].1;
        if str_eq(key, "prefix") {
            match read_opt_string(v, "paths", key) {
                Ok(x) => c.prefix = x,
                Err(e) => return Err(e),
            }
        } else if str_eq(key, "cache") {
            match read_opt_string(v, "paths", key) {
                Ok(x) => c.cache = x,
                Err(e) => return Err(e),
            }
        } else if str_eq(key, "licenses") {
            match read_opt_string(v, "paths", key) {
                Ok(x) => c.licenses = x,
                Err(e) => return Err(e),
            }
        } else if str_eq(key, "build") {
            match read_opt_string(v, "paths", key) {
                Ok(x) => c.build = x,
                Err(e) => return Err(e),
            }
        } else if str_eq(key, "install") {
            match read_opt_string(v, "paths", key) {
                Ok(x) => c.install = x,
                Err(e) => return Err(e),
            }
        } else if str_eq(key, "install_bin") {
            match read_opt_string(v, "paths", key) {
                Ok(x) => c.install_bin = x,
                Err(e) => return Err(e),
            }
        } else if str_eq(key, "install_installer") {
            match read_opt_string(v, "paths", key) {
                Ok(x) => c.install_installer = x,
                Err(e) => return Err(e),
            }
        } else if str_eq(key, "install_libs") {
            match read_opt_string(v, "paths", key) {
                Ok(x) => c.install_libs = x,
                Err(e) => return Err(e),
            }
        } else if str_eq(key, "install_pdbs") {
            match read_opt_string(v, "paths", key) {
                Ok(x) => c.install_pdbs = x,
                Err(e) => return Err(e),
            }
        } else if str_eq(key, "install_stylesheets") {
            match read_opt_string(v, "paths", key) {
                Ok(x) => c.install_stylesheets = x,
                Err(e) => return Err(e),
            }
        } else if str_eq(key, "install_licenses") {
            match read_opt_string(v, "paths", key) {
                Ok(x) => c.install_licenses = x,
                Err(e) => return Err(e),
            }
        } else if str_eq(key, "install_translations") {
            match read_opt_string(v, "paths", key) {
                Ok(x) => c.install_translations = x,
                Err(e) => return Err(e),
            }
        } else if str_eq(key, "vcpkg") {
            match read_opt_string(v, "paths", key) {
                Ok(x) => c.vcpkg = x,
                Err(e) => return Err(e),
            }
        } else if str_eq(key, "qt_install") {
            match read_opt_string(v, "paths", key) {
                Ok(x) => c.qt_install = x,
                Err(e) => return Err(e),
            }
        } else if str_eq(key, "qt_bin") {
            match read_opt_string(v, "paths", key) {
                Ok(x) => c.qt_bin = x,
                Err(e) => return Err(e),
            }
        } else if str_eq(key, "qt_translations") {
            match read_opt_string(v, "paths", key) {
                Ok(x) => c.qt_translations = x,
                Err(e) => return Err(e),
            }
        } else {
            return Err(unknown_field("paths", key, "one of `prefix`, `cache`, `licenses`, `build`, `install`, `install_bin`, `install_installer`, `install_libs`, `install_pdbs`, `install_stylesheets`, `install_licenses`, `install_translations`, `vcpkg`, `qt_install`, `qt_bin`, `qt_translations`"));
        }
        i = i + 1;
    }
    proof {
        assert(t@.take(t@.len() as int) =~= t@);
    }
    Ok(c)
}


/// Reads the `[tasks]` section: one override table per task name or pattern.
///
/// # Errors
///
/// Returns `ConfigError::InvalidValue` if an entry is not a table or an
/// override cannot be read.
pub fn decode_tasks(t: &Entries) -> (r: Result<StrMap<TaskConfigOverride>, ConfigError>)
    ensures
        r is Ok <==> tasks_ok(t@),
        r matches Ok(m) ==> is_tasks(m, t@),
{
    let mut m: StrMap<TaskConfigOverride> = StrMap::new();
    let mut i: usize = 0;
    while i < t.len()
        invariant
            i <= t@.len(),
            forall|j: int| 0 <= j < i ==> (#[trigger] t@[j].1 is Table && override_ok(entries_of(t@[j].1))),
            is_tasks(m, t@.take(i as int)),
        decreases t.len() - i,
    {
        proof {
            lemma_table_get_step(t@, i as int);
        }
        let v = &t[i].1;
        match v {
            ConfigValue::Table(inner) => match decode_override(inner) {
                Ok(o) => {
                    let k = t[i].0.clone();
                    m.insert(k, o);
                },
                Err(e) => return Err(e),
            },
            _ => return Err(type_error("tasks", t[i].0.as_str(), v, "struct TaskConfigOverride")),
        }
        i = i + 1;
    }
    proof {
        assert(t@.take(t@.len() as int) =~= t@);
    }
    Ok(m)
}

fn decode_string_list(a: &Vec<ConfigValue>, key: &str) -> (r: Result<Vec<String>, ConfigError>)
    ensures
        r is Ok <==> forall|j: int| 0 <= j < a@.len() ==> coerce_string(#[trigger] a@[j]) is Some,
        r matches Ok(l) ==> string_list_view(l) == strings_of(a@),
{
    let mut out: Vec<String> = Vec::new();
    let mut i: usize = 0;
    while i < a.len()
        invariant
            i <= a@.len(),
            out@.len() == i,
            forall|j: int| 0 <= j < i ==> coerce_string(#[trigger] a@[j]) is Some,
            forall|j: int| 0 <= j < i ==> Some(#[trigger] out@[j]@) == coerce_string(a@[j]),
        decreases a.len() - i,
    {
        match read_string(&a[i], "aliases", key) {
            Ok(s) => out.push(s),
            Err(e) => return Err(e),
        }
        i = i + 1;
    }
    assert(string_list_view(out) =~= strings_of(a@));
    Ok(out)
}

/// Reads the `[aliases]` section: one list of task names or patterns per
/// alias.
///
/// # Errors
///
/// Returns `ConfigError::InvalidValue` if an alias is not a list of strings.
pub fn decode_aliases(t: &Entries) -> (r: Result<StrMap<Vec<String>>, ConfigError>)
    ensures
        r is Ok <==> aliases_ok(t@),
        r matches Ok(m) ==> is_aliases(m, t@),
{
    let mut m: StrMap<Vec<String>> = StrMap::new();
    let mut i: usize = 0;
    while i < t.len()
        invariant
            i <= t@.len(),
            forall|j: int| 0 <= j < i ==> {
                &&& #[trigger] t@[j].1 is Array
                &&& forall|l: int| 0 <= l < elements_of(t@[j].1).len() ==> coerce_string(
                    #[trigger] elements_of(t@[j].1)[l],
                ) is Some
            },
            is_aliases(m, t@.take(i as int)),
        decreases t.len() - i,
    {
        proof {
            lemma_table_get_step(t@, i as int);
        }
        let v = &t[i].1;
        match v {
            ConfigValue::Array(a) => match decode_string_list(a, t[i].0.as_str()) {
                Ok(l) => {
                    let k = t[i].0.clone();
                    m.insert(k, l);
                },
                Err(e) => {
                    proof {
                        let l = choose|l: int| 0 <= l < a@.len() && !(coerce_string(#[trigger] a@[l]) is Some);
                        assert(elements_of(t@[i as int].1)[l] == a@[l]);
                    }
                    return Err(e);
                },
            },
            _ => return Err(type_error("aliases", t[i].0.as_str(), v, "a sequence")),
        }
        i = i + 1;
    }
    proof {
        assert(t@.take(t@.len() as int) =~= t@);
    }
    Ok(m)
}

/// Reads the `[versions]` section. Every key besides `vs_toolset`, `sdk`,
/// `usvfs` and `explorerpp` names a stylesheet and must hold a string.
///
/// # Errors
///
/// Returns `ConfigError::InvalidValue` if a value has the wrong kind.
pub fn decode_versions(t: &Entries) -> (r: Result<VersionsConfig, ConfigError>)
    ensures
        r is Ok <==> versions_ok(t@),
        r matches Ok(c) ==> is_versions(c, t@),
{
    let mut c = VersionsConfig {
        vs_toolset: owned("14.3"),
        sdk: owned("10.0.26100.0"),
        usvfs: owned("master"),
        explorerpp: owned("1.4.0"),
        stylesheets: StrMap::new(),
    };
    let mut i: usize = 0;
    while i < t.len()
        invariant
            i <= t@.len(),
            forall|j: int| 0 <= j < i ==> if is_version_key(#[trigger] t@[j].0@) {
                coerce_string(t@[j].1) is Some
            } else {
                strict_string(t@[j].1) is Some
            },
            is_versions(c, t@.take(i as int)),
        decreases t.len() - i,
    {
        proof {
            lemma_table_get_step(t@, i as int);
            reveal_strlit("vs_toolset");
            assert("vs_toolset"@.len() == 10);
            reveal_strlit("sdk");
            assert("sdk"@.len() == 3);
            reveal_strlit("usvfs");
            assert("usvfs"@.len() == 5);
            reveal_strlit("explorerpp");
            assert("explorerpp"@.len() == 10);
            assert("explorerpp"@[0] == 'e');
            assert("vs_toolset"@[0] == 'v');
        }
        let key = t[i].0.as_str();
        let v = &t[i].1;
        if str_eq(key, "vs_toolset") {
            match read_string(v, "versions", key) {
                Ok(x) => c.vs_toolset = x,
                Err(e) => return Err(e),
            }
        } else if str_eq(key, "sdk") {
            match read_string(v, "versions", key) {
                Ok(x) => c.sdk = x,
                Err(e) => return Err(e),
            }
        } else if str_eq(key, "usvfs") {
            match read_string(v, "versions", key) {
                Ok(x) => c.usvfs = x,
                Err(e) => return Err(e),
            }
        } else if str_eq(key, "explorerpp") {
            match read_string(v, "versions", key) {
                Ok(x) => c.explorerpp = x,
                Err(e) => return Err(e),
            }
        } else {
            match read_strict_string(v, "versions", key) {
                Ok(x) => {
                    let k = t[i].0.clone();
                    c.stylesheets.insert(k, x);
                },
                Err(e) => return Err(e),
            }
        }
        i = i + 1;
    }
    proof {
        assert(t@.take(t@.len() as int) =~= t@);
    }
    Ok(c)
}


// ---------------------------------------------------------------- the whole configuration

/// The entries of the section `name` of the root table (none where it is
/// missing).
pub open spec fn section(t: Seq<(String, ConfigValue)>, name: Seq<char>) -> Seq<(String, ConfigValue)> {
    match table_get(t, name) {
        Some(v) => entries_of(v),
        None => Seq::empty(),
    }
}

/// Whether an entry of the root table is a known section that can be read.
pub open spec fn root_entry_ok(k: Seq<char>, v: ConfigValue) -> bool {
    &&& v is Table
    &&& if k == "global"@ {
        global_ok(entries_of(v))
    } else if k == "cmake"@ {
        cmake_ok(entries_of(v))
    } else if k == "aliases"@ {
        aliases_ok(entries_of(v))
    } else if k == "task"@ {
        task_ok(entries_of(v))
    } else if k == "tasks"@ {
        tasks_ok(entries_of(v))
    } else if k == "tools"@ {
        tools_ok(entries_of(v))
    } else if k == "transifex"@ {
        transifex_ok(entries_of(v))
    } else if k == "versions"@ {
        versions_ok(entries_of(v))
    } else if k == "paths"@ {
        paths_ok(entries_of(v))
    } else {
        false
    }
}

/// Whether every entry of a root table can be read.
pub open spec fn root_ok(t: Seq<(String, ConfigValue)>) -> bool {
    forall|i: int| 0 <= i < t.len() ==> root_entry_ok(#[trigger] t[i].0@, t[i].1)
}

/// Whether a configuration can be read from `v`: it is a table of known
/// sections, each of which can be read.
pub open spec fn config_ok(v: ConfigValue) -> bool {
    v is Table && root_ok(entries_of(v))
}

/// `c` holds the version defaults.
pub open spec fn is_default_versions(c: VersionsConfig) -> bool {
    &&& c.vs_toolset@ == "14.3"@
    &&& c.sdk@ == "10.0.26100.0"@
    &&& c.usvfs@ == "master"@
    &&& c.explorerpp@ == "1.4.0"@
    &&& super::types::string_map_view(c.stylesheets) == super::types::default_stylesheets()
}

/// `c` is the configuration read from the root entries `t`: each section is
/// read from its table, and a missing section keeps its defaults.
pub open spec fn is_config(c: Config, t: Seq<(String, ConfigValue)>) -> bool {
    &&& is_global(c.global, section(t, "global"@))
    &&& is_cmake(c.cmake, section(t, "cmake"@))
    &&& is_aliases(c.aliases, section(t, "aliases"@))
    &&& is_task(c.task, section(t, "task"@))
    &&& is_tasks(c.tasks, section(t, "tasks"@))
    &&& is_tools(c.tools, section(t, "tools"@))
    &&& is_transifex(c.transifex, section(t, "transifex"@))
    &&& match table_get(t, "versions"@) {
        Some(v) => is_versions(c.versions, entries_of(v)),
        None => is_default_versions(c.versions),
    }
    &&& is_paths(c.paths, section(t, "paths"@))
}

fn decode_root(t: &Entries) -> (r: Result<Config, ConfigError>)
    ensures
        r is Ok <==> root_ok(t@),
        r matches Ok(c) ==> is_config(c, t@),
{
    let mut c = Config::default();
    let mut i: usize = 0;
    while i < t.len()
        invariant
            i <= t@.len(),
            forall|j: int| 0 <= j < i ==> root_entry_ok(#[trigger] t@[j].0@, t@[j].1),
            is_config(c, t@.take(i as int)),
        decreases t.len() - i,
    {
        proof {
            lemma_table_get_step(t@, i as int);
            reveal_strlit("global");
            assert("global"@.len() == 6);
            reveal_strlit("cmake");
            assert("cmake"@.len() == 5);
            reveal_strlit("aliases");
            assert("aliases"@.len() == 7);
            reveal_strlit("task");
            assert("task"@.len() == 4);
            reveal_strlit("tasks");
            assert("tasks"@.len() == 5);
            reveal_strlit("tools");
            assert("tools"@.len() == 5);
            reveal_strlit("transifex");
            assert("transifex"@.len() == 9);
            reveal_strlit("versions");
            assert("versions"@.len() == 8);
            reveal_strlit("paths");
            assert("paths"@.len() == 5);
            assert("cmake"@[0] == 'c');
            assert("tasks"@[0] == 't');
            assert("cmake"@[0] == 'c');
            assert("tools"@[0] == 't');
            assert("cmake"@[0] == 'c');
            assert("paths"@[0] == 'p');
            assert("tasks"@[1] == 'a');
            assert("tools"@[1] == 'o');
            assert("paths"@[0] == 'p');
            assert("tasks"@[0] == 't');
            assert("paths"@[0] == 'p');
            assert("tools"@[0] == 't');
        }
        let key = t[i].0.as_str();
        let v = &t[i].1;
        let inner = match v {
            ConfigValue::Table(inner) => inner,
            _ => {
                return Err(type_error("", key, v, "a map"));
            },
        };
        if str_eq(key, "global") {
            match decode_global(inner) {
                Ok(x) => c.global = x,
                Err(e) => return Err(e),
            }
        } else if str_eq(key, "cmake") {
            match decode_cmake(inner) {
                Ok(x) => c.cmake = x,
                Err(e) => return Err(e),
            }
        } else if str_eq(key, "aliases") {
            match decode_aliases(inner) {
                Ok(x) => c.aliases = x,
                Err(e) => return Err(e),
            }
        } else if str_eq(key, "task") {
            match decode_task(inner) {
                Ok(x) => c.task = x,
                Err(e) => return Err(e),
            }
        } else if str_eq(key, "tasks") {
            match decode_tasks(inner) {
                Ok(x) => c.tasks = x,
                Err(e) => return Err(e),
            }
        } else if str_eq(key, "tools") {
            match decode_tools(inner) {
                Ok(x) => c.tools = x,
                Err(e) => return Err(e),
            }
        } else if str_eq(key, "transifex") {
            match decode_transifex(inner) {
                Ok(x) => c.transifex = x,
                Err(e) => return Err(e),
            }
        } else if str_eq(key, "versions") {
            match decode_versions(inner) {
                Ok(x) => c.versions = x,
                Err(e) => return Err(e),
            }
        } else if str_eq(key, "paths") {
            match decode_paths(inner) {
                Ok(x) => c.paths = x,
                Err(e) => return Err(e),
            }
        } else {
            return Err(
                unknown_field(
                    "",
                    key,
                    "one of `global`, `cmake`, `aliases`, `task`, `tasks`, `tools`, `transifex`, `versions`, `paths`",
                ),
            );
        }
        i = i + 1;
    }
    proof {
        assert(t@.take(t@.len() as int) =~= t@);
    }
    Ok(c)
}

impl Config {
    /// Reads a configuration from the value tree that the configuration
    /// sources were merged into.
    ///
    /// # Errors
    ///
    /// Returns `ConfigError::InvalidValue` if the tree holds an unknown
    /// section, an unknown key in a section that does not accept one, or a
    /// value that cannot be read as its field's type.
    pub fn from_value(v: &ConfigValue) -> (r: Result<Config, ConfigError>)
        ensures
            r is Ok <==> config_ok(*v),
            r matches Ok(c) ==> is_config(c, entries_of(*v)),
    {
        match v {
            ConfigValue::Table(t) => decode_root(t),
            _ => Err(type_error("", "", v, "struct Config")),
        }
    }
}

} // verus!
