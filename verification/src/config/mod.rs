//! Configuration: the settings of a build, their defaults, how task
//! settings are overridden, and how paths are derived from the prefix.
//!
//! # Configuration Hierarchy
//!
//! ```text
//! Priority (low → high)
//! 1. defaults
//! 2. master mob.toml (exe dir)
//! 3. MOBINI (semicolon-separated paths)
//! 4. local mob.toml (cwd)
//! 5. --config
//! 6. MOB_* env vars
//! 7. CLI overrides
//! ```
//!
//! # Task-Specific Overrides
//!
//! ```toml
//! [task]
//! git_shallow = true
//!
//! [tasks.usvfs]
//! git_shallow = false # override for usvfs only
//! ```

pub mod decode;
pub mod leaves;
pub mod loader;
pub mod merge;
pub mod options;
pub mod outside;
pub mod paths;
pub mod types;
pub mod value;

use vstd::prelude::*;
use wax::Program;

use crate::error::ConfigError;
use crate::path::{host, Host};
use crate::strmap::StrMap;
use crate::text::str_eq;
use merge::{is_merge, merge_task_config};
use merge::TaskConfigOverride;
use paths::PathsConfig;
use types::{Aliases, CmakeConfig, GlobalConfig, TaskConfig, ToolsConfig, TransifexConfig, VersionsConfig};

verus! {

/// Complete application configuration.
#[derive(Debug)]
pub struct Config {
    /// Global options.
    pub global: GlobalConfig,
    /// `CMake` options.
    pub cmake: CmakeConfig,
    /// Task aliases.
    pub aliases: Aliases,
    /// Default task configuration.
    pub task: TaskConfig,
    /// Per-task configuration overrides (field-level merging).
    pub tasks: StrMap<TaskConfigOverride>,
    /// Tool paths.
    pub tools: ToolsConfig,
    /// Transifex configuration.
    pub transifex: TransifexConfig,
    /// Version numbers.
    pub versions: VersionsConfig,
    /// Paths configuration.
    pub paths: PathsConfig,
}

impl Default for Config {
    fn default() -> (c: Config)
        ensures
            decode::is_config(c, Seq::empty()),
    {
        let c = Config {
            global: GlobalConfig::default(),
            cmake: CmakeConfig::default(),
            aliases: StrMap::new(),
            task: TaskConfig::default(),
            tasks: StrMap::new(),
            tools: ToolsConfig::default(),
            transifex: TransifexConfig::default(),
            versions: VersionsConfig::default(),
            paths: PathsConfig::default(),
        };
        c
    }
}

/// What matching `name` against the glob `pattern` gives (`wax`) on
/// Windows (`windows`) or elsewhere: `None` when `pattern` is not a valid
/// glob.
pub uninterp spec fn glob_match(pattern: Seq<char>, name: Seq<char>, windows: bool) -> Option<bool>;

/// Builds `wax::Glob::new(pattern)` and, if it builds, tells whether
/// `name` matches it (`wax::Program::is_match`). `wax` is built for the
/// platform: on Windows it compares literals without regard to case and
/// reads `\` as a separator too (`cfg(windows)`), so the result is a
/// function of the two strings and of whether `host` is Windows; what it is
/// for a given pattern is left to `wax`.
#[verifier::external_body]
pub(crate) fn glob_matches(pattern: &str, name: &str, host: &Host) -> (r: Option<bool>)
    ensures
        r == glob_match(pattern@, name@, host.windows()),
{
    match wax::Glob::new(pattern) {
        Ok(glob) => Some(glob.is_match(name)),
        Err(_) => None,
    }
}

/// Whether the override at position `i` of `c.tasks` applies to `name` as a
/// glob: its key does not name an alias, and it matches `name`.
pub open spec fn glob_hit(c: Config, name: Seq<char>, i: int, w: bool) -> bool {
    !c.aliases.keys().contains(c.tasks.keys()[i]) && glob_match(c.tasks.keys()[i], name, w) == Some(true)
}

/// Whether the override at position `i` is the first one that applies to
/// `name` as a glob.
pub open spec fn first_glob_hit(c: Config, name: Seq<char>, i: int, w: bool) -> bool {
    &&& 0 <= i < c.tasks.keys().len()
    &&& glob_hit(c, name, i, w)
    &&& forall|j: int| 0 <= j < i ==> !glob_hit(c, name, j, w)
}

/// No override applies to `name` as a glob.
pub open spec fn no_glob_hit(c: Config, name: Seq<char>, w: bool) -> bool {
    forall|i: int| 0 <= i < c.tasks.keys().len() ==> !glob_hit(c, name, i, w)
}

/// Whether an alias target covers `name`: it is `name`, or a glob that
/// matches it.
pub open spec fn target_hit(target: Seq<char>, name: Seq<char>, w: bool) -> bool {
    target == name || glob_match(target, name, w) == Some(true)
}

/// Whether the alias at position `a` of `c.aliases` applies to `name`: an
/// override is set under the alias name, and one of its targets covers
/// `name`.
pub open spec fn alias_hit(c: Config, name: Seq<char>, a: int, w: bool) -> bool {
    &&& c.tasks.lookup(c.aliases.keys()[a]) is Some
    &&& exists|j: int|
        0 <= j < c.aliases.vals()[a]@.len() && target_hit(#[trigger] c.aliases.vals()[a]@[j]@, name, w)
}

/// Whether the alias at position `a` is the first one that applies to
/// `name`.
pub open spec fn first_alias_hit(c: Config, name: Seq<char>, a: int, w: bool) -> bool {
    &&& 0 <= a < c.aliases.keys().len()
    &&& alias_hit(c, name, a, w)
    &&& forall|b: int| 0 <= b < a ==> !alias_hit(c, name, b, w)
}

/// No alias applies to `name`.
pub open spec fn no_alias_hit(c: Config, name: Seq<char>, w: bool) -> bool {
    forall|a: int| 0 <= a < c.aliases.keys().len() ==> !alias_hit(c, name, a, w)
}

/// `r` is the task configuration of `name` in `c`, globs matched as `wax`
/// matches them on Windows (`w`) or elsewhere: see `Config::task_config`.
pub open spec fn task_config_spec(c: Config, name: Seq<char>, r: TaskConfig, w: bool) -> bool {
    match c.tasks.lookup(name) {
        Some(o) => is_merge(r, c.task, o),
        None => {
            ||| exists|i: int| first_glob_hit(c, name, i, w) && is_merge(r, c.task, #[trigger] c.tasks.vals()[i])
            ||| no_glob_hit(c, name, w) && exists|a: int|
                first_alias_hit(c, name, a, w) && is_merge(
                    r,
                    c.task,
                    #[trigger] c.tasks.lookup(c.aliases.keys()[a])->Some_0,
                )
            ||| no_glob_hit(c, name, w) && no_alias_hit(c, name, w) && r == c.task
        },
    }
}

impl Config {
    /// The task configuration for one task, on this platform (globs match
    /// as `wax` matches them here).
    ///
    /// Resolution order:
    /// 1. Exact match on the task name (e.g. `[tasks.usvfs]`)
    /// 2. Glob pattern match (e.g. `[tasks.installer_*]`), over the
    ///    overrides that do not name an alias, in key order
    /// 3. Alias expansion: the first alias (in key order) that has an
    ///    override of its own and a target that is the task name or a glob
    ///    matching it
    /// 4. The default `[task]` configuration
    pub fn task_config(&self, task_name: &str) -> (r: TaskConfig)
        ensures
            exists|w: bool| task_config_spec(*self, task_name@, r, w),
    {
        let h = host();
        let ghost w = h.windows();
        match self.tasks.get(task_name) {
            Some(o) => {
                let r = merge_task_config(&self.task, o);
                assert(task_config_spec(*self, task_name@, r, w));
                return r;
            },
            None => {},
        }
        let n = self.tasks.len();
        let mut i: usize = 0;
        while i < n
            invariant
                n == self.tasks.keys().len(),
                n == self.tasks.vals().len(),
                i <= n,
                self.tasks.lookup(task_name@) is None,
                w == h.windows(),
                forall|j: int| 0 <= j < i ==> !glob_hit(*self, task_name@, j, w),
            decreases n - i,
        {
            let pattern = self.tasks.key_at(i);
            if !self.aliases.contains_key(pattern.as_str()) {
                match glob_matches(pattern.as_str(), task_name, &h) {
                    Some(true) => {
                        let r = merge_task_config(&self.task, self.tasks.val_at(i));
                        assert(first_glob_hit(*self, task_name@, i as int, w));
                        assert(task_config_spec(*self, task_name@, r, w));
                        return r;
                    },
                    _ => {},
                }
            }
            i = i + 1;
        }
        let na = self.aliases.len();
        let mut a: usize = 0;
        while a < na
            invariant
                na == self.aliases.keys().len(),
                na == self.aliases.vals().len(),
                a <= na,
                self.tasks.lookup(task_name@) is None,
                w == h.windows(),
                no_glob_hit(*self, task_name@, w),
                forall|b: int| 0 <= b < a ==> !alias_hit(*self, task_name@, b, w),
            decreases na - a,
        {
            let alias_name = self.aliases.key_at(a);
            match self.tasks.get(alias_name.as_str()) {
                Some(o) => {
                    let targets = self.aliases.val_at(a);
                    let mut j: usize = 0;
                    while j < targets.len()
                        invariant
                            j <= targets@.len(),
                            a < na,
                            na == self.aliases.keys().len(),
                            na == self.aliases.vals().len(),
                            *targets == self.aliases.vals()[a as int],
                            self.tasks.lookup(self.aliases.keys()[a as int]) == Some(*o),
                            self.tasks.lookup(task_name@) is None,
                            w == h.windows(),
                w == h.windows(),
                            no_glob_hit(*self, task_name@, w),
                            forall|b: int| 0 <= b < a ==> !alias_hit(*self, task_name@, b, w),
                            forall|l: int| 0 <= l < j ==> !target_hit(#[trigger] targets@[l]@, task_name@, w),
                        decreases targets.len() - j,
                    {
                        if str_eq(targets[j].as_str(), task_name) {
                            let r = merge_task_config(&self.task, o);
                            assert(target_hit(targets@[j as int]@, task_name@, w));
                            assert(first_alias_hit(*self, task_name@, a as int, w));
                            assert(task_config_spec(*self, task_name@, r, w));
                            return r;
                        }
                        match glob_matches(targets[j].as_str(), task_name, &h) {
                            Some(true) => {
                                let r = merge_task_config(&self.task, o);
                                assert(target_hit(targets@[j as int]@, task_name@, w));
                                assert(first_alias_hit(*self, task_name@, a as int, w));
                                assert(task_config_spec(*self, task_name@, r, w));
                                return r;
                            },
                            _ => {},
                        }
                        j = j + 1;
                    }
                },
                None => {},
            }
            a = a + 1;
        }
        let r = self.task.clone();
        assert(task_config_spec(*self, task_name@, r, w));
        r
    }

    /// Resolve all paths and validate the configuration: the paths are
    /// resolved against the prefix where one is set, and left as they are
    /// otherwise.
    ///
    /// # Errors
    ///
    /// None arise: path resolution fails only without a prefix, and then it
    /// is not attempted.
    pub fn resolve_and_validate(&mut self) -> (r: Result<(), ConfigError>)
        ensures
            r is Ok,
            final(self).global == old(self).global,
            final(self).cmake == old(self).cmake,
            final(self).aliases == old(self).aliases,
            final(self).task == old(self).task,
            final(self).tasks == old(self).tasks,
            final(self).tools == old(self).tools,
            final(self).transifex == old(self).transifex,
            final(self).versions == old(self).versions,
            match crate::text::opt_view(old(self).paths.prefix) {
                Some(prefix) => exists|sep: char|
                    (sep == '/' || sep == '\\') && PathsConfig::is_resolution(
                        final(self).paths,
                        old(self).paths,
                        prefix,
                        sep,
                    ),
                None => final(self).paths == old(self).paths,
            },
    {
        if self.paths.prefix.is_some() {
            let r = self.paths.resolve();
            match r {
                Ok(()) => {},
                Err(e) => return Err(e),
            }
        }
        Ok(())
    }
}

} // verus!
