//! Configuration types.
//!
//! ```text
//! Config: GlobalConfig, TaskConfig, PathsConfig, ToolsConfig, VersionsConfig
//! BuildConfiguration: Debug | Release | RelWithDebInfo (default)
//! ```

use vstd::prelude::*;

use crate::error::ConfigError;
use crate::logging::LogLevel;
use crate::strmap::StrMap;
use crate::text::{concat3, lower_ascii, lower_seq, owned, str_eq};

verus! {

/// Build configuration type.
#[derive(Debug, Clone, Copy, PartialEq, Eq, Structural)]
pub enum BuildConfiguration {
    Debug,
    Release,
    RelWithDebInfo,
}

/// The name of a build configuration.
pub open spec fn build_configuration_text(b: BuildConfiguration) -> Seq<char> {
    match b {
        BuildConfiguration::Debug => "Debug"@,
        BuildConfiguration::Release => "Release"@,
        BuildConfiguration::RelWithDebInfo => "RelWithDebInfo"@,
    }
}

impl Default for BuildConfiguration {
    fn default() -> (r: BuildConfiguration)
        ensures
            r == BuildConfiguration::RelWithDebInfo,
    {
        BuildConfiguration::RelWithDebInfo
    }
}

impl BuildConfiguration {
    /// The name shown to users: `Debug`, `Release` or `RelWithDebInfo`.
    pub fn to_string(&self) -> (r: String)
        ensures
            r@ == build_configuration_text(*self),
    {
        match self {
            BuildConfiguration::Debug => owned("Debug"),
            BuildConfiguration::Release => owned("Release"),
            BuildConfiguration::RelWithDebInfo => owned("RelWithDebInfo"),
        }
    }

    /// Parses a configuration name, ignoring ASCII case.
    ///
    /// # Errors
    ///
    /// Returns `ConfigError::InvalidValue` for any other name.
    pub fn from_name(s: &str) -> (r: Result<BuildConfiguration, ConfigError>)
        ensures
            lower_seq(s@) == "debug"@ ==> r == Ok::<BuildConfiguration, ConfigError>(BuildConfiguration::Debug),
            lower_seq(s@) == "release"@ ==> r == Ok::<BuildConfiguration, ConfigError>(BuildConfiguration::Release),
            lower_seq(s@) == "relwithdebinfo"@ ==> r == Ok::<BuildConfiguration, ConfigError>(BuildConfiguration::RelWithDebInfo),
            lower_seq(s@) != "debug"@ && lower_seq(s@) != "release"@ && lower_seq(s@) != "relwithdebinfo"@ ==> (r matches Err(
                ConfigError::InvalidValue { section, key, message },
            ) && section@ == "task"@ && key@ == "configuration"@
                && message@ == "expected 'Debug', 'Release', or 'RelWithDebInfo', got '"@ + s@ + "'"@),
    {
        proof {
            reveal_strlit("debug");
            reveal_strlit("release");
            reveal_strlit("relwithdebinfo");
            assert("release"@.len() == 7);
            assert("debug"@.len() == 5);
            assert("relwithdebinfo"@.len() == 14);
        }
        let l = lower_ascii(s);
        if str_eq(l.as_str(), "debug") {
            Ok(BuildConfiguration::Debug)
        } else if str_eq(l.as_str(), "release") {
            Ok(BuildConfiguration::Release)
        } else if str_eq(l.as_str(), "relwithdebinfo") {
            Ok(BuildConfiguration::RelWithDebInfo)
        } else {
            Err(ConfigError::InvalidValue {
                section: owned("task"),
                key: owned("configuration"),
                message: concat3("expected 'Debug', 'Release', or 'RelWithDebInfo', got '", s, "'"),
            })
        }
    }
}

impl std::str::FromStr for BuildConfiguration {
    type Err = ConfigError;

    fn from_str(s: &str) -> (r: Result<BuildConfiguration, ConfigError>)
        ensures
            lower_seq(s@) == "debug"@ ==> r == Ok::<BuildConfiguration, ConfigError>(BuildConfiguration::Debug),
            lower_seq(s@) == "release"@ ==> r == Ok::<BuildConfiguration, ConfigError>(BuildConfiguration::Release),
            lower_seq(s@) == "relwithdebinfo"@ ==> r == Ok::<BuildConfiguration, ConfigError>(BuildConfiguration::RelWithDebInfo),
            lower_seq(s@) != "debug"@ && lower_seq(s@) != "release"@ && lower_seq(s@) != "relwithdebinfo"@ ==> (r matches Err(
                ConfigError::InvalidValue { section, key, message },
            ) && section@ == "task"@ && key@ == "configuration"@
                && message@ == "expected 'Debug', 'Release', or 'RelWithDebInfo', got '"@ + s@ + "'"@),
    {
        BuildConfiguration::from_name(s)
    }
}

/// `CMake` install message verbosity level.
#[derive(Debug, Clone, Copy, PartialEq, Eq, Structural)]
pub enum CmakeInstallMessage {
    Always,
    Lazy,
    Never,
}

/// The `CMAKE_INSTALL_MESSAGE` value of a setting.
pub open spec fn install_message_text(m: CmakeInstallMessage) -> Seq<char> {
    match m {
        CmakeInstallMessage::Always => "ALWAYS"@,
        CmakeInstallMessage::Lazy => "LAZY"@,
        CmakeInstallMessage::Never => "NEVER"@,
    }
}

impl Default for CmakeInstallMessage {
    fn default() -> (r: CmakeInstallMessage)
        ensures
            r == CmakeInstallMessage::Never,
    {
        CmakeInstallMessage::Never
    }
}

impl CmakeInstallMessage {
    /// The `CMAKE_INSTALL_MESSAGE` value: `ALWAYS`, `LAZY` or `NEVER`.
    pub fn to_string(&self) -> (r: String)
        ensures
            r@ == install_message_text(*self),
    {
        match self {
            CmakeInstallMessage::Always => owned("ALWAYS"),
            CmakeInstallMessage::Lazy => owned("LAZY"),
            CmakeInstallMessage::Never => owned("NEVER"),
        }
    }
}

/// Global configuration options.
#[derive(Debug)]
pub struct GlobalConfig {
    /// Simulate filesystem operations without making changes.
    pub dry: bool,
    /// Download clean actions.
    pub clean_download_actions: CleanDownloadActions,
    /// Log level for stdout output (0-6).
    pub output_log_level: LogLevel,
    /// Log level for file output (0-6).
    pub file_log_level: LogLevel,
    /// Path to log file.
    pub log_file: String,
    /// Allow deleting directories with uncommitted git changes.
    pub ignore_uncommitted: bool,
}

impl Default for GlobalConfig {
    fn default() -> (r: GlobalConfig)
        ensures
            !r.dry,
            !r.clean_download_actions.redownload,
            !r.clean_download_actions.reextract,
            r.output_log_level.level() == 3,
            r.file_log_level.level() == 5,
            r.log_file@ == "mob.log"@,
            !r.ignore_uncommitted,
    {
        GlobalConfig {
            dry: false,
            clean_download_actions: CleanDownloadActions::default(),
            output_log_level: LogLevel::info(),
            file_log_level: LogLevel::trace(),
            log_file: owned("mob.log"),
            ignore_uncommitted: false,
        }
    }
}

/// Global clean actions for downloads.
#[derive(Debug, Clone, Copy)]
pub struct CleanDownloadActions {
    /// Re-download archives even if they already exist.
    pub redownload: bool,
    /// Re-extract archives even if target directory exists.
    pub reextract: bool,
}

impl Default for CleanDownloadActions {
    fn default() -> (r: CleanDownloadActions)
        ensures
            !r.redownload,
            !r.reextract,
    {
        CleanDownloadActions { redownload: false, reextract: false }
    }
}

/// CMake-specific configuration.
#[derive(Debug)]
pub struct CmakeConfig {
    /// Value for `CMAKE_INSTALL_MESSAGE`.
    pub install_message: CmakeInstallMessage,
    /// Toolset host configuration (-T host=XXX).
    pub host: String,
}

impl Default for CmakeConfig {
    fn default() -> (r: CmakeConfig)
        ensures
            r.install_message == CmakeInstallMessage::Never,
            r.host@ == Seq::<char>::empty(),
    {
        CmakeConfig { install_message: CmakeInstallMessage::Never, host: String::new() }
    }
}

/// Task aliases mapping alias names to task patterns.
pub type Aliases = StrMap<Vec<String>>;

/// Task-specific configuration.
#[derive(Debug)]
pub struct TaskConfig {
    /// Whether the task runs.
    pub enabled: bool,
    /// GitHub organization for `ModOrganizer` projects.
    pub mo_org: String,
    /// Git branch to use for `ModOrganizer` projects.
    pub mo_branch: String,
    /// Fallback branch if `mo_branch` doesn't exist.
    pub mo_fallback: String,
    /// Git behavior settings.
    pub git_behavior: GitBehavior,
    /// Build configuration.
    pub configuration: BuildConfiguration,
    /// Git URL prefix for cloning.
    pub git_url_prefix: String,
    /// Git clone settings.
    pub git_clone: GitCloneOptions,
    /// Remote setup settings.
    pub remote_setup: RemoteSetup,
}

impl Default for TaskConfig {
    fn default() -> (r: TaskConfig)
        ensures
            r.enabled,
            r.mo_org@ == "ModOrganizer2"@,
            r.mo_branch@ == "master"@,
            r.mo_fallback@ == Seq::<char>::empty(),
            !r.git_behavior.no_pull,
            r.configuration == BuildConfiguration::RelWithDebInfo,
            r.git_url_prefix@ == "https://github.com/"@,
            r.git_clone.git_shallow,
            r.remote_setup.remote_org@ == Seq::<char>::empty(),
            !r.remote_setup.remote_no_push_upstream,
            !r.remote_setup.remote_push_default_origin,
    {
        TaskConfig {
            enabled: true,
            mo_org: owned("ModOrganizer2"),
            mo_branch: owned("master"),
            mo_fallback: String::new(),
            git_behavior: GitBehavior::default(),
            configuration: BuildConfiguration::RelWithDebInfo,
            git_url_prefix: owned("https://github.com/"),
            git_clone: GitCloneOptions::default(),
            remote_setup: RemoteSetup::default(),
        }
    }
}

impl Clone for TaskConfig {
    fn clone(&self) -> (r: TaskConfig)
        ensures
            r == *self,
    {
        TaskConfig {
            enabled: self.enabled,
            mo_org: self.mo_org.clone(),
            mo_branch: self.mo_branch.clone(),
            mo_fallback: self.mo_fallback.clone(),
            git_behavior: GitBehavior { no_pull: self.git_behavior.no_pull },
            configuration: self.configuration,
            git_url_prefix: self.git_url_prefix.clone(),
            git_clone: GitCloneOptions { git_shallow: self.git_clone.git_shallow },
            remote_setup: self.remote_setup.clone(),
        }
    }
}

/// Git behavior settings for tasks.
#[derive(Debug, Clone, Copy)]
pub struct GitBehavior {
    /// Don't pull if repo is already cloned.
    pub no_pull: bool,
}

impl Default for GitBehavior {
    fn default() -> (r: GitBehavior)
        ensures
            !r.no_pull,
    {
        GitBehavior { no_pull: false }
    }
}

/// Git clone options.
#[derive(Debug, Clone, Copy)]
pub struct GitCloneOptions {
    /// Use shallow clones (--depth 1).
    pub git_shallow: bool,
}

impl Default for GitCloneOptions {
    fn default() -> (r: GitCloneOptions)
        ensures
            r.git_shallow,
    {
        GitCloneOptions { git_shallow: true }
    }
}

/// Remote setup settings for tasks.
#[derive(Debug)]
pub struct RemoteSetup {
    /// GitHub organization for the new origin remote.
    pub remote_org: String,
    /// Disable pushing to upstream.
    pub remote_no_push_upstream: bool,
    /// Set origin as default push remote.
    pub remote_push_default_origin: bool,
}

impl Default for RemoteSetup {
    fn default() -> (r: RemoteSetup)
        ensures
            r.remote_org@ == Seq::<char>::empty(),
            !r.remote_no_push_upstream,
            !r.remote_push_default_origin,
    {
        RemoteSetup { remote_org: String::new(), remote_no_push_upstream: false, remote_push_default_origin: false }
    }
}

impl Clone for RemoteSetup {
    fn clone(&self) -> (r: RemoteSetup)
        ensures
            r == *self,
    {
        RemoteSetup {
            remote_org: self.remote_org.clone(),
            remote_no_push_upstream: self.remote_no_push_upstream,
            remote_push_default_origin: self.remote_push_default_origin,
        }
    }
}

/// Tool paths configuration.
#[derive(Debug)]
pub struct ToolsConfig {
    /// 7-Zip executable (key `7z`).
    pub sevenz: String,
    /// `CMake` executable.
    pub cmake: String,
    /// `MSBuild` executable.
    pub msbuild: String,
    /// Transifex CLI.
    pub tx: String,
    /// Qt lrelease (translation compiler).
    pub lrelease: String,
    /// Inno Setup compiler.
    pub iscc: String,
}

impl Default for ToolsConfig {
    fn default() -> (r: ToolsConfig)
        ensures
            r.sevenz@ == "7z.exe"@,
            r.cmake@ == "cmake.exe"@,
            r.msbuild@ == "msbuild.exe"@,
            r.tx@ == "tx.exe"@,
            r.lrelease@ == "lrelease.exe"@,
            r.iscc@ == "ISCC.exe"@,
    {
        ToolsConfig {
            sevenz: owned("7z.exe"),
            cmake: owned("cmake.exe"),
            msbuild: owned("msbuild.exe"),
            tx: owned("tx.exe"),
            lrelease: owned("lrelease.exe"),
            iscc: owned("ISCC.exe"),
        }
    }
}

/// Transifex translation service configuration.
#[derive(Debug)]
pub struct TransifexConfig {
    /// Whether Transifex integration is enabled.
    pub enabled: bool,
    /// Transifex API key.
    pub key: String,
    /// Transifex team slug.
    pub team: String,
    /// Transifex project slug.
    pub project: String,
    /// Transifex API URL.
    pub url: String,
    /// Minimum translation completion percentage.
    pub minimum: u8,
    /// Action toggles for Transifex operations.
    pub actions: TransifexActions,
}

impl Default for TransifexConfig {
    fn default() -> (r: TransifexConfig)
        ensures
            r.enabled,
            r.key@ == Seq::<char>::empty(),
            r.team@ == "mod-organizer-2-team"@,
            r.project@ == "mod-organizer-2"@,
            r.url@ == "https://app.transifex.com"@,
            r.minimum == 60,
            !r.actions.force,
            r.actions.configure,
            r.actions.pull,
    {
        TransifexConfig {
            enabled: true,
            key: String::new(),
            team: owned("mod-organizer-2-team"),
            project: owned("mod-organizer-2"),
            url: owned("https://app.transifex.com"),
            minimum: 60,
            actions: TransifexActions::default(),
        }
    }
}

/// Transifex action toggles.
#[derive(Debug, Clone, Copy)]
pub struct TransifexActions {
    /// Force re-pulling translations.
    pub force: bool,
    /// Run tx configure.
    pub configure: bool,
    /// Pull translations from Transifex.
    pub pull: bool,
}

impl Default for TransifexActions {
    fn default() -> (r: TransifexActions)
        ensures
            !r.force,
            r.configure,
            r.pull,
    {
        TransifexActions { force: false, configure: true, pull: true }
    }
}

/// Version numbers for various dependencies.
#[derive(Debug)]
pub struct VersionsConfig {
    /// Visual Studio toolset version (e.g., 14.3).
    pub vs_toolset: String,
    /// Windows SDK version.
    pub sdk: String,
    /// USVFS version/branch.
    pub usvfs: String,
    /// Explorer++ version.
    pub explorerpp: String,
    /// Stylesheet versions (key: stylesheet name, value: version).
    pub stylesheets: StrMap<String>,
}

/// The stylesheet versions a configuration starts with.
pub open spec fn default_stylesheets() -> Map<Seq<char>, Seq<char>> {
    map![
        "ss_paper_lad_6788"@ => "7.2"@,
        "ss_paper_automata_6788"@ => "3.2"@,
        "ss_paper_mono_6788"@ => "3.2"@,
        "ss_dark_mode_1809_6788"@ => "3.0"@,
        "ss_morrowind_trosski"@ => "1.1"@,
        "ss_skyrim_trosski"@ => "v1.1"@,
        "ss_starfield_trosski"@ => "V1.11"@,
        "ss_fallout3_trosski"@ => "v1.11"@,
        "ss_fallout4_trosski"@ => "v1.11"@
    ]
}

/// The string values of a string map, by key.
pub open spec fn string_map_view(m: StrMap<String>) -> Map<Seq<char>, Seq<char>> {
    Map::new(|k: Seq<char>| m.lookup(k) is Some, |k: Seq<char>| m.lookup(k)->Some_0@)
}

impl Default for VersionsConfig {
    fn default() -> (r: VersionsConfig)
        ensures
            r.vs_toolset@ == "14.3"@,
            r.sdk@ == "10.0.26100.0"@,
            r.usvfs@ == "master"@,
            r.explorerpp@ == "1.4.0"@,
            string_map_view(r.stylesheets) == default_stylesheets(),
    {
        let mut stylesheets: StrMap<String> = StrMap::new();
        stylesheets.insert(owned("ss_paper_lad_6788"), owned("7.2"));
        stylesheets.insert(owned("ss_paper_automata_6788"), owned("3.2"));
        stylesheets.insert(owned("ss_paper_mono_6788"), owned("3.2"));
        stylesheets.insert(owned("ss_dark_mode_1809_6788"), owned("3.0"));
        stylesheets.insert(owned("ss_morrowind_trosski"), owned("1.1"));
        stylesheets.insert(owned("ss_skyrim_trosski"), owned("v1.1"));
        stylesheets.insert(owned("ss_starfield_trosski"), owned("V1.11"));
        stylesheets.insert(owned("ss_fallout3_trosski"), owned("v1.11"));
        stylesheets.insert(owned("ss_fallout4_trosski"), owned("v1.11"));
        assert(string_map_view(stylesheets) =~= default_stylesheets());
        VersionsConfig {
            vs_toolset: owned("14.3"),
            sdk: owned("10.0.26100.0"),
            usvfs: owned("master"),
            explorerpp: owned("1.4.0"),
            stylesheets,
        }
    }
}

} // verus!
