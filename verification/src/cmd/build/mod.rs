//! The decisions of the `build` command: what is cleaned, which phases
//! run, which task names are known, which tasks a name stands for, and the
//! order of a full build.

use vstd::prelude::*;

use crate::cli::build::BuildArgs;
use crate::config::Config;
use crate::text::{concat2, owned, starts_with, str_eq, views};

verus! {

/// What the clean phase removes.
#[derive(Debug, Clone, Copy, PartialEq, Eq, Structural)]
pub struct CleanFlags {
    /// Downloaded archives.
    pub redownload: bool,
    /// Extracted archives.
    pub reextract: bool,
    /// Build configuration.
    pub reconfigure: bool,
    /// Build outputs.
    pub rebuild: bool,
}

impl CleanFlags {
    /// Whether nothing is cleaned.
    pub fn is_empty(&self) -> (r: bool)
        ensures
            r == !(self.redownload || self.reextract || self.reconfigure || self.rebuild),
    {
        !(self.redownload || self.reextract || self.reconfigure || self.rebuild)
    }
}

/// What the clean phase removes: each flag asked for, and all of them for a
/// new build.
pub fn compute_clean_flags(args: &BuildArgs) -> (r: CleanFlags)
    ensures
        r.redownload == (args.clean_download.redownload || args.clean_full.new_build),
        r.reextract == (args.clean_download.reextract || args.clean_full.new_build),
        r.reconfigure == (args.clean_build.reconfigure || args.clean_full.new_build),
        r.rebuild == (args.clean_build.rebuild || args.clean_full.new_build),
{
    let all = args.clean_full.new_build;
    CleanFlags {
        redownload: args.clean_download.redownload || all,
        reextract: args.clean_download.reextract || all,
        reconfigure: args.clean_build.reconfigure || all,
        rebuild: args.clean_build.rebuild || all,
    }
}

/// Which phases a build runs.
#[derive(Debug, Clone, Copy, PartialEq, Eq, Structural)]
pub struct BuildPhases {
    /// The clean phase.
    pub clean: bool,
    /// The fetch phase.
    pub fetch: bool,
    /// The build phase.
    pub build: bool,
}

/// Which phases a build runs: cleaning, unless switched off, when asked for
/// or when something is to be cleaned; fetching and building unless switched
/// off.
pub fn build_phases(args: &BuildArgs) -> (r: BuildPhases)
    ensures
        r.clean == (!args.clean_phase.no_clean_task && (args.clean_phase.clean_task || args.clean_download.redownload
            || args.clean_download.reextract || args.clean_build.reconfigure || args.clean_build.rebuild
            || args.clean_full.new_build)),
        r.fetch == !args.fetch_phase.no_fetch_task,
        r.build == !args.build_phase.no_build_task,
{
    let flags = compute_clean_flags(args);
    BuildPhases {
        clean: !args.clean_phase.no_clean_task && (args.clean_phase.clean_task || !flags.is_empty()),
        fetch: !args.fetch_phase.no_fetch_task,
        build: !args.build_phase.no_build_task,
    }
}

/// The tasks with a kind of their own.
pub open spec fn builtin_tasks_spec() -> Seq<Seq<char>> {
    seq!["usvfs"@, "modorganizer"@, "stylesheets"@, "explorerpp"@, "licenses"@, "translations"@, "installer"@]
}

fn push_name(v: &mut Vec<String>, s: &str)
    ensures
        views(final(v)@) == views(old(v)@).push(s@),
{
    v.push(owned(s));
    assert(views(v@) =~= views(old(v)@).push(s@));
}

/// The names of the tasks with a kind of their own.
pub fn builtin_tasks() -> (r: Vec<String>)
    ensures
        views(r@) == builtin_tasks_spec(),
{
    let mut r: Vec<String> = Vec::new();
    push_name(&mut r, "usvfs");
    push_name(&mut r, "modorganizer");
    push_name(&mut r, "stylesheets");
    push_name(&mut r, "explorerpp");
    push_name(&mut r, "licenses");
    push_name(&mut r, "translations");
    push_name(&mut r, "installer");
    assert(views(r@) =~= builtin_tasks_spec());
    r
}

/// Whether `name` is one of the tasks with a kind of their own.
pub fn is_builtin_task(name: &str) -> (r: bool)
    ensures
        r == builtin_tasks_spec().contains(name@),
{
    let all = builtin_tasks();
    let mut i: usize = 0;
    while i < all.len()
        invariant
            i <= all@.len(),
            views(all@) == builtin_tasks_spec(),
            forall|j: int| 0 <= j < i ==> all@[j]@ != name@,
        decreases all.len() - i,
    {
        if str_eq(all[i].as_str(), name) {
            assert(builtin_tasks_spec()[i as int] == name@);
            return true;
        }
        i = i + 1;
    }
    proof {
        if builtin_tasks_spec().contains(name@) {
            let j = choose|j: int| 0 <= j < builtin_tasks_spec().len() && builtin_tasks_spec()[j] == name@;
            assert(all@[j]@ == name@);
        }
    }
    false
}

/// The prefix of the names of ModOrganizer's projects.
pub open spec fn mo_prefix() -> Seq<char> {
    "modorganizer-"@
}

/// The names a task of the configuration is known by: its own, and the
/// short one (without `modorganizer-`) or the long one (with it).
pub open spec fn names_of_task(n: Seq<char>) -> Seq<Seq<char>> {
    if mo_prefix().len() <= n.len() && n.take(mo_prefix().len() as int) == mo_prefix() {
        seq![n, n.skip(mo_prefix().len() as int)]
    } else if n != "modorganizer"@ {
        seq![n, mo_prefix() + n]
    } else {
        seq![n]
    }
}

/// The names under which the tasks of the configuration are known: of the
/// keys in `keys`, those that are neither an alias nor a task with a kind
/// of its own, each with its other name.
pub open spec fn config_task_regs(keys: Seq<Seq<char>>, aliases: Seq<Seq<char>>) -> Seq<Seq<char>>
    decreases keys.len(),
{
    if keys.len() == 0 {
        Seq::empty()
    } else {
        let rest = config_task_regs(keys.drop_last(), aliases);
        let n = keys.last();
        if aliases.contains(n) || builtin_tasks_spec().contains(n) {
            rest
        } else {
            rest + names_of_task(n)
        }
    }
}

fn names_of_task_exec(n: &str) -> (r: Vec<String>)
    ensures
        views(r@) == names_of_task(n@),
{
    let mut r: Vec<String> = Vec::new();
    push_name(&mut r, n);
    proof {
        reveal_strlit("modorganizer-");
    }
    if starts_with(n, "modorganizer-") {
        let v = crate::text::chars_of(n);
        let short = crate::text::substring(&v, 13, v.len());
        assert(short@ =~= n@.skip(13));
        push_name(&mut r, short.as_str());
    } else if !str_eq(n, "modorganizer") {
        let long = concat2("modorganizer-", n);
        push_name(&mut r, long.as_str());
    }
    assert(views(r@) =~= names_of_task(n@));
    r
}

/// The names under which the tasks of the configuration are known.
pub fn config_task_names(config: &Config) -> (r: Vec<String>)
    ensures
        views(r@) == config_task_regs(config.tasks.keys(), config.aliases.keys()),
{
    let n = config.tasks.len();
    let mut r: Vec<String> = Vec::new();
    let mut i: usize = 0;
    while i < n
        invariant
            n == config.tasks.keys().len(),
            i <= n,
            views(r@) == config_task_regs(config.tasks.keys().take(i as int), config.aliases.keys()),
        decreases n - i,
    {
        let name = config.tasks.key_at(i);
        proof {
            assert(config.tasks.keys().take(i + 1).drop_last() =~= config.tasks.keys().take(i as int));
        }
        if !config.aliases.contains_key(name.as_str()) && !is_builtin_task(name.as_str()) {
            let mut more = names_of_task_exec(name.as_str());
            let ghost prev = r@;
            let ghost m = more@;
            r.append(&mut more);
            assert(views(r@) =~= views(prev) + views(m));
        }
        i = i + 1;
    }
    assert(config.tasks.keys().take(n as int) =~= config.tasks.keys());
    r
}

/// The names of ModOrganizer's projects known without configuration: each
/// project, its short name, and its other names.
pub open spec fn default_project_names_spec() -> Seq<Seq<char>> {
    seq![
        "cmake_common"@,
        "modorganizer-uibase"@,
        "uibase"@,
        "modorganizer-archive"@,
        "archive"@,
        "modorganizer-lootcli"@,
        "lootcli"@,
        "modorganizer-esptk"@,
        "esptk"@,
        "modorganizer-bsatk"@,
        "bsatk"@,
        "modorganizer-nxmhandler"@,
        "nxmhandler"@,
        "modorganizer-helper"@,
        "helper"@,
        "modorganizer-game_bethesda"@,
        "game_bethesda"@,
        "modorganizer-bsapacker"@,
        "bsapacker"@,
        "bsa_packer"@,
        "modorganizer-tool_inieditor"@,
        "tool_inieditor"@,
        "inieditor"@,
        "modorganizer-tool_inibakery"@,
        "tool_inibakery"@,
        "inibakery"@,
        "modorganizer-preview_bsa"@,
        "preview_bsa"@,
        "modorganizer-preview_base"@,
        "preview_base"@,
        "modorganizer-diagnose_basic"@,
        "diagnose_basic"@,
        "modorganizer-check_fnis"@,
        "check_fnis"@,
        "modorganizer-installer_bain"@,
        "installer_bain"@,
        "modorganizer-installer_manual"@,
        "installer_manual"@,
        "modorganizer-installer_bundle"@,
        "installer_bundle"@,
        "modorganizer-installer_quick"@,
        "installer_quick"@,
        "modorganizer-installer_fomod"@,
        "installer_fomod"@,
        "modorganizer-installer_fomod_csharp"@,
        "installer_fomod_csharp"@,
        "modorganizer-installer_omod"@,
        "installer_omod"@,
        "modorganizer-installer_wizard"@,
        "installer_wizard"@,
        "modorganizer-bsa_extractor"@,
        "bsa_extractor"@,
        "modorganizer-plugin_python"@,
        "plugin_python"@,
        "modorganizer-tool_configurator"@,
        "tool_configurator"@,
        "pycfg"@,
        "modorganizer-fnistool"@,
        "fnistool"@,
        "modorganizer-basic_games"@,
        "basic_games"@,
        "modorganizer-script_extender_plugin_checker"@,
        "script_extender_plugin_checker"@,
        "scriptextenderpluginchecker"@,
        "modorganizer-form43_checker"@,
        "form43_checker"@,
        "form43checker"@,
        "modorganizer-preview_dds"@,
        "preview_dds"@,
        "ddspreview"@,
    ]
}

/// The names of ModOrganizer's projects known without configuration.
#[verifier::rlimit(40)]
pub fn default_project_names() -> (r: Vec<String>)
    ensures
        views(r@) == default_project_names_spec(),
{
    let r = crate::git::cmd::strings(
        &[
            "cmake_common",
            "modorganizer-uibase",
            "uibase",
            "modorganizer-archive",
            "archive",
            "modorganizer-lootcli",
            "lootcli",
            "modorganizer-esptk",
            "esptk",
            "modorganizer-bsatk",
            "bsatk",
            "modorganizer-nxmhandler",
            "nxmhandler",
            "modorganizer-helper",
            "helper",
            "modorganizer-game_bethesda",
            "game_bethesda",
            "modorganizer-bsapacker",
            "bsapacker",
            "bsa_packer",
            "modorganizer-tool_inieditor",
            "tool_inieditor",
            "inieditor",
            "modorganizer-tool_inibakery",
            "tool_inibakery",
            "inibakery",
            "modorganizer-preview_bsa",
            "preview_bsa",
            "modorganizer-preview_base",
            "preview_base",
            "modorganizer-diagnose_basic",
            "diagnose_basic",
            "modorganizer-check_fnis",
            "check_fnis",
            "modorganizer-installer_bain",
            "installer_bain",
            "modorganizer-installer_manual",
            "installer_manual",
            "modorganizer-installer_bundle",
            "installer_bundle",
            "modorganizer-installer_quick",
            "installer_quick",
            "modorganizer-installer_fomod",
            "installer_fomod",
            "modorganizer-installer_fomod_csharp",
            "installer_fomod_csharp",
            "modorganizer-installer_omod",
            "installer_omod",
            "modorganizer-installer_wizard",
            "installer_wizard",
            "modorganizer-bsa_extractor",
            "bsa_extractor",
            "modorganizer-plugin_python",
            "plugin_python",
            "modorganizer-tool_configurator",
            "tool_configurator",
            "pycfg",
            "modorganizer-fnistool",
            "fnistool",
            "modorganizer-basic_games",
            "basic_games",
            "modorganizer-script_extender_plugin_checker",
            "script_extender_plugin_checker",
            "scriptextenderpluginchecker",
            "modorganizer-form43_checker",
            "form43_checker",
            "form43checker",
            "modorganizer-preview_dds",
            "preview_dds",
            "ddspreview",
        ],
    );
    assert(views(r@) =~= default_project_names_spec());
    r
}

/// The kinds of task.
#[derive(Debug, Clone, Copy, PartialEq, Eq, Structural)]
pub enum TaskKind {
    /// Builds usvfs.
    Usvfs,
    /// Builds one of ModOrganizer's projects.
    ModOrganizer,
    /// Builds the stylesheets.
    Stylesheets,
    /// Fetches Explorer++.
    ExplorerPP,
    /// Gathers the licenses.
    Licenses,
    /// Builds the translations.
    Translations,
    /// Builds the installer.
    Installer,
}

/// A task: its kind and its name (for ModOrganizer's projects, the
/// project's).
#[derive(Debug, Clone)]
pub struct TaskRef {
    /// The kind.
    pub kind: TaskKind,
    /// The name.
    pub name: String,
}

/// A task as plain values.
pub open spec fn task_view(t: TaskRef) -> (TaskKind, Seq<char>) {
    (t.kind, t.name@)
}

/// The task a name stands for: the tasks with a kind of their own by their
/// names (and `ss`, `explorer++`), the other names of ModOrganizer's
/// projects by the project, and any other name as a ModOrganizer project of
/// that name.
pub open spec fn task_for_name(n: Seq<char>) -> (TaskKind, Seq<char>) {
    if n == "usvfs"@ {
        (TaskKind::Usvfs, "usvfs"@)
    }     else if n == "stylesheets"@ || n == "ss"@ {
        (TaskKind::Stylesheets, "stylesheets"@)
    }     else if n == "explorerpp"@ || n == "explorer++"@ {
        (TaskKind::ExplorerPP, "explorerpp"@)
    }     else if n == "licenses"@ {
        (TaskKind::Licenses, "licenses"@)
    }     else if n == "translations"@ {
        (TaskKind::Translations, "translations"@)
    }     else if n == "installer"@ {
        (TaskKind::Installer, "installer"@)
    }     else if n == "organizer"@ {
        (TaskKind::ModOrganizer, "modorganizer"@)
    }     else if n == "bsa_packer"@ {
        (TaskKind::ModOrganizer, "modorganizer-bsapacker"@)
    }     else if n == "inieditor"@ {
        (TaskKind::ModOrganizer, "modorganizer-tool_inieditor"@)
    }     else if n == "inibakery"@ {
        (TaskKind::ModOrganizer, "modorganizer-tool_inibakery"@)
    }     else if n == "pycfg"@ {
        (TaskKind::ModOrganizer, "modorganizer-tool_configurator"@)
    }     else if n == "scriptextenderpluginchecker"@ {
        (TaskKind::ModOrganizer, "modorganizer-script_extender_plugin_checker"@)
    }     else if n == "form43checker"@ {
        (TaskKind::ModOrganizer, "modorganizer-form43_checker"@)
    }     else if n == "ddspreview"@ {
        (TaskKind::ModOrganizer, "modorganizer-preview_dds"@)
    } else {
        (TaskKind::ModOrganizer, n)
    }
}

/// The name of a task with a kind of its own (`None` for ModOrganizer's
/// projects, which are named by the project).
pub open spec fn kind_name(k: TaskKind) -> Option<Seq<char>> {
    match k {
        TaskKind::Usvfs => Some("usvfs"@),
        TaskKind::Stylesheets => Some("stylesheets"@),
        TaskKind::ExplorerPP => Some("explorerpp"@),
        TaskKind::Licenses => Some("licenses"@),
        TaskKind::Translations => Some("translations"@),
        TaskKind::Installer => Some("installer"@),
        TaskKind::ModOrganizer => None,
    }
}

/// The other names of tasks stand for the same task as their main name:
/// `ss` for `stylesheets`, `explorer++` for `explorerpp`, and each short
/// name of a ModOrganizer project for the project's full name.
#[verifier::rlimit(60)]
pub proof fn lemma_task_aliases()
    ensures
        task_for_name("ss"@) == task_for_name("stylesheets"@),
        task_for_name("explorer++"@) == task_for_name("explorerpp"@),
        task_for_name("organizer"@) == task_for_name("modorganizer"@),
        task_for_name("bsa_packer"@) == task_for_name("modorganizer-bsapacker"@),
        task_for_name("inieditor"@) == task_for_name("modorganizer-tool_inieditor"@),
        task_for_name("inibakery"@) == task_for_name("modorganizer-tool_inibakery"@),
        task_for_name("pycfg"@) == task_for_name("modorganizer-tool_configurator"@),
        task_for_name("scriptextenderpluginchecker"@) == task_for_name("modorganizer-script_extender_plugin_checker"@),
        task_for_name("form43checker"@) == task_for_name("modorganizer-form43_checker"@),
        task_for_name("ddspreview"@) == task_for_name("modorganizer-preview_dds"@),
{
    reveal_strlit("bsa_packer");
    assert("bsa_packer"@.len() == 10);
    reveal_strlit("ddspreview");
    assert("ddspreview"@.len() == 10);
    reveal_strlit("explorer++");
    assert("explorer++"@.len() == 10);
    reveal_strlit("explorerpp");
    assert("explorerpp"@.len() == 10);
    reveal_strlit("form43checker");
    assert("form43checker"@.len() == 13);
    reveal_strlit("inibakery");
    assert("inibakery"@.len() == 9);
    reveal_strlit("inieditor");
    assert("inieditor"@.len() == 9);
    reveal_strlit("installer");
    assert("installer"@.len() == 9);
    reveal_strlit("licenses");
    assert("licenses"@.len() == 8);
    reveal_strlit("modorganizer");
    assert("modorganizer"@.len() == 12);
    reveal_strlit("modorganizer-bsapacker");
    assert("modorganizer-bsapacker"@.len() == 22);
    reveal_strlit("modorganizer-form43_checker");
    assert("modorganizer-form43_checker"@.len() == 27);
    reveal_strlit("modorganizer-preview_dds");
    assert("modorganizer-preview_dds"@.len() == 24);
    reveal_strlit("modorganizer-script_extender_plugin_checker");
    assert("modorganizer-script_extender_plugin_checker"@.len() == 43);
    reveal_strlit("modorganizer-tool_configurator");
    assert("modorganizer-tool_configurator"@.len() == 30);
    reveal_strlit("modorganizer-tool_inibakery");
    assert("modorganizer-tool_inibakery"@.len() == 27);
    reveal_strlit("modorganizer-tool_inieditor");
    assert("modorganizer-tool_inieditor"@.len() == 27);
    reveal_strlit("organizer");
    assert("organizer"@.len() == 9);
    reveal_strlit("pycfg");
    assert("pycfg"@.len() == 5);
    reveal_strlit("scriptextenderpluginchecker");
    assert("scriptextenderpluginchecker"@.len() == 27);
    reveal_strlit("ss");
    assert("ss"@.len() == 2);
    reveal_strlit("stylesheets");
    assert("stylesheets"@.len() == 11);
    reveal_strlit("translations");
    assert("translations"@.len() == 12);
    reveal_strlit("usvfs");
    assert("usvfs"@.len() == 5);
    assert("modorganizer"@[0] != "translations"@[0]);
    assert("modorganizer-tool_inieditor"@[0] != "scriptextenderpluginchecker"@[0]);
    assert("modorganizer-tool_inibakery"@[0] != "scriptextenderpluginchecker"@[0]);
    assert("modorganizer-form43_checker"@[0] != "scriptextenderpluginchecker"@[0]);
    assert("explorerpp"@[8] != "explorer++"@[8]);
    assert("explorerpp"@[0] != "bsa_packer"@[0]);
    assert("explorerpp"@[0] != "ddspreview"@[0]);
    assert("explorer++"@[8] != "explorerpp"@[8]);
    assert("installer"@[0] != "organizer"@[0]);
    assert("bsa_packer"@[0] != "explorerpp"@[0]);
    assert("bsa_packer"@[0] != "explorer++"@[0]);
    assert("bsa_packer"@[0] != "ddspreview"@[0]);
    assert("inieditor"@[2] != "installer"@[2]);
    assert("inieditor"@[0] != "organizer"@[0]);
    assert("inibakery"@[2] != "installer"@[2]);
    assert("inibakery"@[0] != "organizer"@[0]);
    assert("inibakery"@[3] != "inieditor"@[3]);
    assert("pycfg"@[0] != "usvfs"@[0]);
    assert("ddspreview"@[0] != "explorerpp"@[0]);
    assert("ddspreview"@[0] != "explorer++"@[0]);
    assert(task_for_name("modorganizer"@) == (TaskKind::ModOrganizer, "modorganizer"@));
    assert(task_for_name("organizer"@) == (TaskKind::ModOrganizer, "modorganizer"@));
    assert(task_for_name("modorganizer-bsapacker"@) == (TaskKind::ModOrganizer, "modorganizer-bsapacker"@));
    assert(task_for_name("bsa_packer"@) == (TaskKind::ModOrganizer, "modorganizer-bsapacker"@));
    assert(task_for_name("modorganizer-tool_inieditor"@) == (TaskKind::ModOrganizer, "modorganizer-tool_inieditor"@));
    assert(task_for_name("inieditor"@) == (TaskKind::ModOrganizer, "modorganizer-tool_inieditor"@));
    assert(task_for_name("modorganizer-tool_inibakery"@) == (TaskKind::ModOrganizer, "modorganizer-tool_inibakery"@));
    assert(task_for_name("inibakery"@) == (TaskKind::ModOrganizer, "modorganizer-tool_inibakery"@));
    assert(task_for_name("modorganizer-tool_configurator"@) == (TaskKind::ModOrganizer, "modorganizer-tool_configurator"@));
    assert(task_for_name("pycfg"@) == (TaskKind::ModOrganizer, "modorganizer-tool_configurator"@));
    assert(task_for_name("modorganizer-script_extender_plugin_checker"@) == (TaskKind::ModOrganizer, "modorganizer-script_extender_plugin_checker"@));
    assert(task_for_name("scriptextenderpluginchecker"@) == (TaskKind::ModOrganizer, "modorganizer-script_extender_plugin_checker"@));
    assert(task_for_name("modorganizer-form43_checker"@) == (TaskKind::ModOrganizer, "modorganizer-form43_checker"@));
    assert(task_for_name("form43checker"@) == (TaskKind::ModOrganizer, "modorganizer-form43_checker"@));
    assert(task_for_name("modorganizer-preview_dds"@) == (TaskKind::ModOrganizer, "modorganizer-preview_dds"@));
    assert(task_for_name("ddspreview"@) == (TaskKind::ModOrganizer, "modorganizer-preview_dds"@));
}

/// Each task with a kind of its own is found by its name as that kind: the
/// name of every such kind resolves to that kind and keeps its name, and
/// every task of a full build is found again by its name.
#[verifier::rlimit(60)]
pub proof fn lemma_task_names_resolve(k: TaskKind)
    ensures
        kind_name(k) matches Some(n) ==> task_for_name(n) == (k, n),
        forall|g: int, i: int|
            0 <= g < default_task_tree_spec().len() && 0 <= i < default_task_tree_spec()[g].len() ==> task_for_name(
                #[trigger] default_task_tree_spec()[g][i].1,
            ) == default_task_tree_spec()[g][i],
{
    reveal_strlit("bsa_packer");
    assert("bsa_packer"@.len() == 10);
    reveal_strlit("cmake_common");
    assert("cmake_common"@.len() == 12);
    reveal_strlit("ddspreview");
    assert("ddspreview"@.len() == 10);
    reveal_strlit("explorer++");
    assert("explorer++"@.len() == 10);
    reveal_strlit("explorerpp");
    assert("explorerpp"@.len() == 10);
    reveal_strlit("form43checker");
    assert("form43checker"@.len() == 13);
    reveal_strlit("inibakery");
    assert("inibakery"@.len() == 9);
    reveal_strlit("inieditor");
    assert("inieditor"@.len() == 9);
    reveal_strlit("installer");
    assert("installer"@.len() == 9);
    reveal_strlit("licenses");
    assert("licenses"@.len() == 8);
    reveal_strlit("modorganizer");
    assert("modorganizer"@.len() == 12);
    reveal_strlit("modorganizer-archive");
    assert("modorganizer-archive"@.len() == 20);
    reveal_strlit("modorganizer-basic_games");
    assert("modorganizer-basic_games"@.len() == 24);
    reveal_strlit("modorganizer-bsa_extractor");
    assert("modorganizer-bsa_extractor"@.len() == 26);
    reveal_strlit("modorganizer-bsapacker");
    assert("modorganizer-bsapacker"@.len() == 22);
    reveal_strlit("modorganizer-bsatk");
    assert("modorganizer-bsatk"@.len() == 18);
    reveal_strlit("modorganizer-check_fnis");
    assert("modorganizer-check_fnis"@.len() == 23);
    reveal_strlit("modorganizer-diagnose_basic");
    assert("modorganizer-diagnose_basic"@.len() == 27);
    reveal_strlit("modorganizer-esptk");
    assert("modorganizer-esptk"@.len() == 18);
    reveal_strlit("modorganizer-fnistool");
    assert("modorganizer-fnistool"@.len() == 21);
    reveal_strlit("modorganizer-form43_checker");
    assert("modorganizer-form43_checker"@.len() == 27);
    reveal_strlit("modorganizer-game_bethesda");
    assert("modorganizer-game_bethesda"@.len() == 26);
    reveal_strlit("modorganizer-helper");
    assert("modorganizer-helper"@.len() == 19);
    reveal_strlit("modorganizer-installer_bain");
    assert("modorganizer-installer_bain"@.len() == 27);
    reveal_strlit("modorganizer-installer_bundle");
    assert("modorganizer-installer_bundle"@.len() == 29);
    reveal_strlit("modorganizer-installer_fomod");
    assert("modorganizer-installer_fomod"@.len() == 28);
    reveal_strlit("modorganizer-installer_fomod_csharp");
    assert("modorganizer-installer_fomod_csharp"@.len() == 35);
    reveal_strlit("modorganizer-installer_manual");
    assert("modorganizer-installer_manual"@.len() == 29);
    reveal_strlit("modorganizer-installer_omod");
    assert("modorganizer-installer_omod"@.len() == 27);
    reveal_strlit("modorganizer-installer_quick");
    assert("modorganizer-installer_quick"@.len() == 28);
    reveal_strlit("modorganizer-installer_wizard");
    assert("modorganizer-installer_wizard"@.len() == 29);
    reveal_strlit("modorganizer-lootcli");
    assert("modorganizer-lootcli"@.len() == 20);
    reveal_strlit("modorganizer-nxmhandler");
    assert("modorganizer-nxmhandler"@.len() == 23);
    reveal_strlit("modorganizer-plugin_python");
    assert("modorganizer-plugin_python"@.len() == 26);
    reveal_strlit("modorganizer-preview_base");
    assert("modorganizer-preview_base"@.len() == 25);
    reveal_strlit("modorganizer-preview_bsa");
    assert("modorganizer-preview_bsa"@.len() == 24);
    reveal_strlit("modorganizer-preview_dds");
    assert("modorganizer-preview_dds"@.len() == 24);
    reveal_strlit("modorganizer-script_extender_plugin_checker");
    assert("modorganizer-script_extender_plugin_checker"@.len() == 43);
    reveal_strlit("modorganizer-tool_configurator");
    assert("modorganizer-tool_configurator"@.len() == 30);
    reveal_strlit("modorganizer-tool_inibakery");
    assert("modorganizer-tool_inibakery"@.len() == 27);
    reveal_strlit("modorganizer-tool_inieditor");
    assert("modorganizer-tool_inieditor"@.len() == 27);
    reveal_strlit("modorganizer-uibase");
    assert("modorganizer-uibase"@.len() == 19);
    reveal_strlit("organizer");
    assert("organizer"@.len() == 9);
    reveal_strlit("pycfg");
    assert("pycfg"@.len() == 5);
    reveal_strlit("scriptextenderpluginchecker");
    assert("scriptextenderpluginchecker"@.len() == 27);
    reveal_strlit("ss");
    assert("ss"@.len() == 2);
    reveal_strlit("stylesheets");
    assert("stylesheets"@.len() == 11);
    reveal_strlit("translations");
    assert("translations"@.len() == 12);
    reveal_strlit("usvfs");
    assert("usvfs"@.len() == 5);
    assert(task_for_name("usvfs"@) == (TaskKind::Usvfs, "usvfs"@));
    assert("cmake_common"@[0] != "translations"@[0]);
    assert(task_for_name("cmake_common"@) == (TaskKind::ModOrganizer, "cmake_common"@));
    assert(task_for_name("modorganizer-uibase"@) == (TaskKind::ModOrganizer, "modorganizer-uibase"@));
    assert(task_for_name("modorganizer-archive"@) == (TaskKind::ModOrganizer, "modorganizer-archive"@));
    assert(task_for_name("modorganizer-lootcli"@) == (TaskKind::ModOrganizer, "modorganizer-lootcli"@));
    assert(task_for_name("modorganizer-esptk"@) == (TaskKind::ModOrganizer, "modorganizer-esptk"@));
    assert(task_for_name("modorganizer-bsatk"@) == (TaskKind::ModOrganizer, "modorganizer-bsatk"@));
    assert(task_for_name("modorganizer-nxmhandler"@) == (TaskKind::ModOrganizer, "modorganizer-nxmhandler"@));
    assert(task_for_name("modorganizer-helper"@) == (TaskKind::ModOrganizer, "modorganizer-helper"@));
    assert(task_for_name("modorganizer-game_bethesda"@) == (TaskKind::ModOrganizer, "modorganizer-game_bethesda"@));
    assert(task_for_name("modorganizer-bsapacker"@) == (TaskKind::ModOrganizer, "modorganizer-bsapacker"@));
    assert("modorganizer-tool_inieditor"@[0] != "scriptextenderpluginchecker"@[0]);
    assert(task_for_name("modorganizer-tool_inieditor"@) == (TaskKind::ModOrganizer, "modorganizer-tool_inieditor"@));
    assert(task_for_name("modorganizer-tool_inibakery"@) == (TaskKind::ModOrganizer, "modorganizer-tool_inibakery"@));
    assert(task_for_name("modorganizer-preview_bsa"@) == (TaskKind::ModOrganizer, "modorganizer-preview_bsa"@));
    assert(task_for_name("modorganizer-preview_base"@) == (TaskKind::ModOrganizer, "modorganizer-preview_base"@));
    assert(task_for_name("modorganizer-diagnose_basic"@) == (TaskKind::ModOrganizer, "modorganizer-diagnose_basic"@));
    assert(task_for_name("modorganizer-check_fnis"@) == (TaskKind::ModOrganizer, "modorganizer-check_fnis"@));
    assert(task_for_name("modorganizer-installer_bain"@) == (TaskKind::ModOrganizer, "modorganizer-installer_bain"@));
    assert(task_for_name("modorganizer-installer_manual"@) == (TaskKind::ModOrganizer, "modorganizer-installer_manual"@));
    assert(task_for_name("modorganizer-installer_bundle"@) == (TaskKind::ModOrganizer, "modorganizer-installer_bundle"@));
    assert(task_for_name("modorganizer-installer_quick"@) == (TaskKind::ModOrganizer, "modorganizer-installer_quick"@));
    assert(task_for_name("modorganizer-installer_fomod"@) == (TaskKind::ModOrganizer, "modorganizer-installer_fomod"@));
    assert(task_for_name("modorganizer-installer_fomod_csharp"@) == (TaskKind::ModOrganizer, "modorganizer-installer_fomod_csharp"@));
    assert(task_for_name("modorganizer-installer_omod"@) == (TaskKind::ModOrganizer, "modorganizer-installer_omod"@));
    assert(task_for_name("modorganizer-installer_wizard"@) == (TaskKind::ModOrganizer, "modorganizer-installer_wizard"@));
    assert(task_for_name("modorganizer-bsa_extractor"@) == (TaskKind::ModOrganizer, "modorganizer-bsa_extractor"@));
    assert(task_for_name("modorganizer-plugin_python"@) == (TaskKind::ModOrganizer, "modorganizer-plugin_python"@));
    assert(task_for_name("stylesheets"@) == (TaskKind::Stylesheets, "stylesheets"@));
    assert(task_for_name("licenses"@) == (TaskKind::Licenses, "licenses"@));
    assert(task_for_name("explorerpp"@) == (TaskKind::ExplorerPP, "explorerpp"@));
    assert(task_for_name("modorganizer-tool_configurator"@) == (TaskKind::ModOrganizer, "modorganizer-tool_configurator"@));
    assert(task_for_name("modorganizer-fnistool"@) == (TaskKind::ModOrganizer, "modorganizer-fnistool"@));
    assert(task_for_name("modorganizer-basic_games"@) == (TaskKind::ModOrganizer, "modorganizer-basic_games"@));
    assert(task_for_name("modorganizer-script_extender_plugin_checker"@) == (TaskKind::ModOrganizer, "modorganizer-script_extender_plugin_checker"@));
    assert(task_for_name("modorganizer-form43_checker"@) == (TaskKind::ModOrganizer, "modorganizer-form43_checker"@));
    assert(task_for_name("modorganizer-preview_dds"@) == (TaskKind::ModOrganizer, "modorganizer-preview_dds"@));
    assert(task_for_name("modorganizer"@) == (TaskKind::ModOrganizer, "modorganizer"@));
    assert(task_for_name("translations"@) == (TaskKind::Translations, "translations"@));
    assert(task_for_name("installer"@) == (TaskKind::Installer, "installer"@));
    assert forall|g: int, i: int|
        0 <= g < default_task_tree_spec().len() && 0 <= i < default_task_tree_spec()[g].len() implies task_for_name(
            #[trigger] default_task_tree_spec()[g][i].1,
        ) == default_task_tree_spec()[g][i] by {
        if g == 0 { if i == 0 {} else if i == 1 {} } else if g == 1 { if i == 0 {} } else if g == 2 { if i == 0 {} else if i == 1 {} else if i == 2 {} else if i == 3 {} else if i == 4 {} else if i == 5 {} else if i == 6 {} } else if g == 3 { if i == 0 {} else if i == 1 {} else if i == 2 {} else if i == 3 {} else if i == 4 {} else if i == 5 {} else if i == 6 {} else if i == 7 {} else if i == 8 {} else if i == 9 {} else if i == 10 {} else if i == 11 {} else if i == 12 {} else if i == 13 {} else if i == 14 {} else if i == 15 {} else if i == 16 {} } else if g == 4 { if i == 0 {} else if i == 1 {} else if i == 2 {} else if i == 3 {} else if i == 4 {} else if i == 5 {} else if i == 6 {} else if i == 7 {} else if i == 8 {} else if i == 9 {} } else if g == 5 { if i == 0 {} } else if g == 6 { if i == 0 {} }
    }
}

fn task_ref(kind: TaskKind, name: &str) -> (r: TaskRef)
    ensures
        task_view(r) == (kind, name@),
{
    TaskRef { kind, name: owned(name) }
}

/// The task that `name` stands for.
pub fn task_from_name(name: &str) -> (r: TaskRef)
    ensures
        task_view(r) == task_for_name(name@),
{
    if str_eq(name, "usvfs") {
        task_ref(TaskKind::Usvfs, "usvfs")
    }     else if str_eq(name, "stylesheets") || str_eq(name, "ss") {
        task_ref(TaskKind::Stylesheets, "stylesheets")
    }     else if str_eq(name, "explorerpp") || str_eq(name, "explorer++") {
        task_ref(TaskKind::ExplorerPP, "explorerpp")
    }     else if str_eq(name, "licenses") {
        task_ref(TaskKind::Licenses, "licenses")
    }     else if str_eq(name, "translations") {
        task_ref(TaskKind::Translations, "translations")
    }     else if str_eq(name, "installer") {
        task_ref(TaskKind::Installer, "installer")
    }     else if str_eq(name, "organizer") {
        task_ref(TaskKind::ModOrganizer, "modorganizer")
    }     else if str_eq(name, "bsa_packer") {
        task_ref(TaskKind::ModOrganizer, "modorganizer-bsapacker")
    }     else if str_eq(name, "inieditor") {
        task_ref(TaskKind::ModOrganizer, "modorganizer-tool_inieditor")
    }     else if str_eq(name, "inibakery") {
        task_ref(TaskKind::ModOrganizer, "modorganizer-tool_inibakery")
    }     else if str_eq(name, "pycfg") {
        task_ref(TaskKind::ModOrganizer, "modorganizer-tool_configurator")
    }     else if str_eq(name, "scriptextenderpluginchecker") {
        task_ref(TaskKind::ModOrganizer, "modorganizer-script_extender_plugin_checker")
    }     else if str_eq(name, "form43checker") {
        task_ref(TaskKind::ModOrganizer, "modorganizer-form43_checker")
    }     else if str_eq(name, "ddspreview") {
        task_ref(TaskKind::ModOrganizer, "modorganizer-preview_dds")
    } else {
        task_ref(TaskKind::ModOrganizer, name)
    }
}

/// The tasks of a full build, in groups run one after the other; the tasks
/// of a group run side by side.
pub open spec fn default_task_tree_spec() -> Seq<Seq<(TaskKind, Seq<char>)>> {
    seq![
        seq![(TaskKind::Usvfs, "usvfs"@), (TaskKind::ModOrganizer, "cmake_common"@)],
        seq![(TaskKind::ModOrganizer, "modorganizer-uibase"@)],
        seq![(TaskKind::ModOrganizer, "modorganizer-archive"@), (TaskKind::ModOrganizer, "modorganizer-lootcli"@), (TaskKind::ModOrganizer, "modorganizer-esptk"@), (TaskKind::ModOrganizer, "modorganizer-bsatk"@), (TaskKind::ModOrganizer, "modorganizer-nxmhandler"@), (TaskKind::ModOrganizer, "modorganizer-helper"@), (TaskKind::ModOrganizer, "modorganizer-game_bethesda"@)],
        seq![(TaskKind::ModOrganizer, "modorganizer-bsapacker"@), (TaskKind::ModOrganizer, "modorganizer-tool_inieditor"@), (TaskKind::ModOrganizer, "modorganizer-tool_inibakery"@), (TaskKind::ModOrganizer, "modorganizer-preview_bsa"@), (TaskKind::ModOrganizer, "modorganizer-preview_base"@), (TaskKind::ModOrganizer, "modorganizer-diagnose_basic"@), (TaskKind::ModOrganizer, "modorganizer-check_fnis"@), (TaskKind::ModOrganizer, "modorganizer-installer_bain"@), (TaskKind::ModOrganizer, "modorganizer-installer_manual"@), (TaskKind::ModOrganizer, "modorganizer-installer_bundle"@), (TaskKind::ModOrganizer, "modorganizer-installer_quick"@), (TaskKind::ModOrganizer, "modorganizer-installer_fomod"@), (TaskKind::ModOrganizer, "modorganizer-installer_fomod_csharp"@), (TaskKind::ModOrganizer, "modorganizer-installer_omod"@), (TaskKind::ModOrganizer, "modorganizer-installer_wizard"@), (TaskKind::ModOrganizer, "modorganizer-bsa_extractor"@), (TaskKind::ModOrganizer, "modorganizer-plugin_python"@)],
        seq![(TaskKind::Stylesheets, "stylesheets"@), (TaskKind::Licenses, "licenses"@), (TaskKind::ExplorerPP, "explorerpp"@), (TaskKind::ModOrganizer, "modorganizer-tool_configurator"@), (TaskKind::ModOrganizer, "modorganizer-fnistool"@), (TaskKind::ModOrganizer, "modorganizer-basic_games"@), (TaskKind::ModOrganizer, "modorganizer-script_extender_plugin_checker"@), (TaskKind::ModOrganizer, "modorganizer-form43_checker"@), (TaskKind::ModOrganizer, "modorganizer-preview_dds"@), (TaskKind::ModOrganizer, "modorganizer"@)],
        seq![(TaskKind::Translations, "translations"@)],
        seq![(TaskKind::Installer, "installer"@)],
    ]
}

/// The tasks of a group as plain values.
pub open spec fn group_view(g: Seq<TaskRef>) -> Seq<(TaskKind, Seq<char>)> {
    g.map_values(|t: TaskRef| task_view(t))
}

fn push_task(g: &mut Vec<TaskRef>, kind: TaskKind, name: &str)
    ensures
        group_view(final(g)@) == group_view(old(g)@).push((kind, name@)),
{
    g.push(task_ref(kind, name));
    assert(group_view(g@) =~= group_view(old(g)@).push((kind, name@)));
}

/// The tasks of a full build.
pub fn default_task_tree() -> (r: Vec<Vec<TaskRef>>)
    ensures
        r@.len() == default_task_tree_spec().len(),
        forall|i: int| 0 <= i < r@.len() ==> group_view(#[trigger] r@[i]@) == default_task_tree_spec()[i],
{
    let mut r: Vec<Vec<TaskRef>> = Vec::new();
    let mut g: Vec<TaskRef> = Vec::new();
    push_task(&mut g, TaskKind::Usvfs, "usvfs");
    push_task(&mut g, TaskKind::ModOrganizer, "cmake_common");
    assert(group_view(g@) =~= default_task_tree_spec()[0]);
    r.push(g);
    let mut g: Vec<TaskRef> = Vec::new();
    push_task(&mut g, TaskKind::ModOrganizer, "modorganizer-uibase");
    assert(group_view(g@) =~= default_task_tree_spec()[1]);
    r.push(g);
    let mut g: Vec<TaskRef> = Vec::new();
    push_task(&mut g, TaskKind::ModOrganizer, "modorganizer-archive");
    push_task(&mut g, TaskKind::ModOrganizer, "modorganizer-lootcli");
    push_task(&mut g, TaskKind::ModOrganizer, "modorganizer-esptk");
    push_task(&mut g, TaskKind::ModOrganizer, "modorganizer-bsatk");
    push_task(&mut g, TaskKind::ModOrganizer, "modorganizer-nxmhandler");
    push_task(&mut g, TaskKind::ModOrganizer, "modorganizer-helper");
    push_task(&mut g, TaskKind::ModOrganizer, "modorganizer-game_bethesda");
    assert(group_view(g@) =~= default_task_tree_spec()[2]);
    r.push(g);
    let mut g: Vec<TaskRef> = Vec::new();
    push_task(&mut g, TaskKind::ModOrganizer, "modorganizer-bsapacker");
    push_task(&mut g, TaskKind::ModOrganizer, "modorganizer-tool_inieditor");
    push_task(&mut g, TaskKind::ModOrganizer, "modorganizer-tool_inibakery");
    push_task(&mut g, TaskKind::ModOrganizer, "modorganizer-preview_bsa");
    push_task(&mut g, TaskKind::ModOrganizer, "modorganizer-preview_base");
    push_task(&mut g, TaskKind::ModOrganizer, "modorganizer-diagnose_basic");
    push_task(&mut g, TaskKind::ModOrganizer, "modorganizer-check_fnis");
    push_task(&mut g, TaskKind::ModOrganizer, "modorganizer-installer_bain");
    push_task(&mut g, TaskKind::ModOrganizer, "modorganizer-installer_manual");
    push_task(&mut g, TaskKind::ModOrganizer, "modorganizer-installer_bundle");
    push_task(&mut g, TaskKind::ModOrganizer, "modorganizer-installer_quick");
    push_task(&mut g, TaskKind::ModOrganizer, "modorganizer-installer_fomod");
    push_task(&mut g, TaskKind::ModOrganizer, "modorganizer-installer_fomod_csharp");
    push_task(&mut g, TaskKind::ModOrganizer, "modorganizer-installer_omod");
    push_task(&mut g, TaskKind::ModOrganizer, "modorganizer-installer_wizard");
    push_task(&mut g, TaskKind::ModOrganizer, "modorganizer-bsa_extractor");
    push_task(&mut g, TaskKind::ModOrganizer, "modorganizer-plugin_python");
    assert(group_view(g@) =~= default_task_tree_spec()[3]);
    r.push(g);
    let mut g: Vec<TaskRef> = Vec::new();
    push_task(&mut g, TaskKind::Stylesheets, "stylesheets");
    push_task(&mut g, TaskKind::Licenses, "licenses");
    push_task(&mut g, TaskKind::ExplorerPP, "explorerpp");
    push_task(&mut g, TaskKind::ModOrganizer, "modorganizer-tool_configurator");
    push_task(&mut g, TaskKind::ModOrganizer, "modorganizer-fnistool");
    push_task(&mut g, TaskKind::ModOrganizer, "modorganizer-basic_games");
    push_task(&mut g, TaskKind::ModOrganizer, "modorganizer-script_extender_plugin_checker");
    push_task(&mut g, TaskKind::ModOrganizer, "modorganizer-form43_checker");
    push_task(&mut g, TaskKind::ModOrganizer, "modorganizer-preview_dds");
    push_task(&mut g, TaskKind::ModOrganizer, "modorganizer");
    assert(group_view(g@) =~= default_task_tree_spec()[4]);
    r.push(g);
    let mut g: Vec<TaskRef> = Vec::new();
    push_task(&mut g, TaskKind::Translations, "translations");
    assert(group_view(g@) =~= default_task_tree_spec()[5]);
    r.push(g);
    let mut g: Vec<TaskRef> = Vec::new();
    push_task(&mut g, TaskKind::Installer, "installer");
    assert(group_view(g@) =~= default_task_tree_spec()[6]);
    r.push(g);
    r
}

} // verus!
