//! Arguments of the `build` and `list` commands.

use vstd::prelude::*;

use crate::text::{bool_text, concat2, owned, views};

verus! {

/// Arguments for the `build` command.
#[derive(Debug, Clone)]
pub struct BuildArgs {
    /// Download cleaning flags.
    pub clean_download: CleanDownloadArgs,
    /// Build cleaning flags.
    pub clean_build: CleanBuildArgs,
    /// Full cleaning flag.
    pub clean_full: CleanFullArgs,
    /// Whether the clean phase runs.
    pub clean_phase: CleanPhaseArgs,
    /// Whether the fetch phase runs.
    pub fetch_phase: FetchPhaseArgs,
    /// Whether the build phase runs.
    pub build_phase: BuildPhaseArgs,
    /// Whether repos are pulled.
    pub pull_behavior: PullArgs,
    /// Whether `.ts` timestamps are reverted.
    pub revert_ts_behavior: RevertTsArgs,
    /// Deletes directories even with uncommitted changes.
    pub ignore_uncommitted: bool,
    /// Keeps msbuild processes running.
    pub keep_msbuild: bool,
    /// The tasks to build; all when empty.
    pub tasks: Vec<String>,
}

/// Download cleaning flags.
#[derive(Debug, Clone, Copy, Default)]
pub struct CleanDownloadArgs {
    /// Re-downloads archives.
    pub redownload: bool,
    /// Re-extracts archives.
    pub reextract: bool,
}

/// Build cleaning flags.
#[derive(Debug, Clone, Copy, Default)]
pub struct CleanBuildArgs {
    /// Reconfigures.
    pub reconfigure: bool,
    /// Rebuilds.
    pub rebuild: bool,
}

/// Full cleaning flag.
#[derive(Debug, Clone, Copy, Default)]
pub struct CleanFullArgs {
    /// Deletes everything and starts over.
    pub new_build: bool,
}

/// Clean phase toggle.
#[derive(Debug, Clone, Copy, Default)]
pub struct CleanPhaseArgs {
    /// Runs the clean phase.
    pub clean_task: bool,
    /// Skips the clean phase.
    pub no_clean_task: bool,
}

/// Fetch phase toggle.
#[derive(Debug, Clone, Copy, Default)]
pub struct FetchPhaseArgs {
    /// Runs the fetch phase.
    pub fetch_task: bool,
    /// Skips the fetch phase.
    pub no_fetch_task: bool,
}

/// Build phase toggle.
#[derive(Debug, Clone, Copy, Default)]
pub struct BuildPhaseArgs {
    /// Runs the build phase.
    pub build_task: bool,
    /// Skips the build phase.
    pub no_build_task: bool,
}

/// Pull toggle.
#[derive(Debug, Clone, Copy, Default)]
pub struct PullArgs {
    /// Pulls repos.
    pub pull: bool,
    /// Does not pull repos.
    pub no_pull: bool,
}

/// Timestamp revert toggle.
#[derive(Debug, Clone, Copy, Default)]
pub struct RevertTsArgs {
    /// Reverts `.ts` files.
    pub revert_ts: bool,
    /// Does not revert `.ts` files.
    pub no_revert_ts: bool,
}

/// A toggle pair read as a setting: `Some(true)` for the positive flag,
/// `Some(false)` for the negative one, `None` for neither.
pub open spec fn toggle(on: bool, off: bool) -> Option<bool> {
    if on {
        Some(true)
    } else if off {
        Some(false)
    } else {
        None
    }
}

/// The overrides the build arguments stand for: the download and
/// uncommitted-changes flags, the pull setting, and, when tasks are named,
/// all tasks disabled and the named ones enabled.
pub open spec fn build_overrides(a: BuildArgs) -> Seq<Seq<char>> {
    let redownload = a.clean_download.redownload || a.clean_full.new_build;
    let reextract = a.clean_download.reextract || a.clean_full.new_build;
    let flags = crate::cli::global::line_if(redownload, "global/redownload=true"@) + crate::cli::global::line_if(
        reextract,
        "global/reextract=true"@,
    ) + crate::cli::global::line_if(a.ignore_uncommitted, "global/ignore_uncommitted=true"@);
    let pull = match toggle(a.pull_behavior.pull, a.pull_behavior.no_pull) {
        Some(v) => seq!["_override:task/no_pull="@ + bool_text(!v)],
        None => Seq::empty(),
    };
    let tasks = if a.tasks@.len() == 0 {
        Seq::empty()
    } else {
        seq!["task/enabled=false"@] + views(a.tasks@).map_values(|t: Seq<char>| t + ":task/enabled=true"@)
    };
    flags + pull + tasks
}

impl BuildArgs {
    /// The clean phase setting.
    pub fn clean_task_setting(&self) -> (r: Option<bool>)
        ensures
            r == toggle(self.clean_phase.clean_task, self.clean_phase.no_clean_task),
    {
        if self.clean_phase.clean_task {
            Some(true)
        } else if self.clean_phase.no_clean_task {
            Some(false)
        } else {
            None
        }
    }

    /// The fetch phase setting.
    pub fn fetch_task_setting(&self) -> (r: Option<bool>)
        ensures
            r == toggle(self.fetch_phase.fetch_task, self.fetch_phase.no_fetch_task),
    {
        if self.fetch_phase.fetch_task {
            Some(true)
        } else if self.fetch_phase.no_fetch_task {
            Some(false)
        } else {
            None
        }
    }

    /// The build phase setting.
    pub fn build_task_setting(&self) -> (r: Option<bool>)
        ensures
            r == toggle(self.build_phase.build_task, self.build_phase.no_build_task),
    {
        if self.build_phase.build_task {
            Some(true)
        } else if self.build_phase.no_build_task {
            Some(false)
        } else {
            None
        }
    }

    /// The pull setting.
    pub fn pull_setting(&self) -> (r: Option<bool>)
        ensures
            r == toggle(self.pull_behavior.pull, self.pull_behavior.no_pull),
    {
        if self.pull_behavior.pull {
            Some(true)
        } else if self.pull_behavior.no_pull {
            Some(false)
        } else {
            None
        }
    }

    /// The timestamp revert setting.
    pub fn revert_ts_setting(&self) -> (r: Option<bool>)
        ensures
            r == toggle(self.revert_ts_behavior.revert_ts, self.revert_ts_behavior.no_revert_ts),
    {
        if self.revert_ts_behavior.revert_ts {
            Some(true)
        } else if self.revert_ts_behavior.no_revert_ts {
            Some(false)
        } else {
            None
        }
    }

    /// Converts the build arguments to configuration overrides.
    pub fn to_config_overrides(&self) -> (r: Vec<String>)
        ensures
            views(r@) == build_overrides(*self),
    {
        let mut out: Vec<String> = Vec::new();
        if self.clean_download.redownload || self.clean_full.new_build {
            out.push(owned("global/redownload=true"));
        }
        if self.clean_download.reextract || self.clean_full.new_build {
            out.push(owned("global/reextract=true"));
        }
        if self.ignore_uncommitted {
            out.push(owned("global/ignore_uncommitted=true"));
        }
        match self.pull_setting() {
            Some(v) => {
                let t = crate::text::bool_to_string(!v);
                out.push(concat2("_override:task/no_pull=", t.as_str()));
            },
            None => {},
        }
        let ghost before = views(out@);
        if self.tasks.len() > 0 {
            out.push(owned("task/enabled=false"));
            assert(views(self.tasks@.take(0)).map_values(|t: Seq<char>| t + ":task/enabled=true"@) =~= Seq::empty());
            let mut i: usize = 0;
            while i < self.tasks.len()
                invariant
                    i <= self.tasks@.len(),
                    self.tasks@.len() > 0,
                    views(out@) == before + seq!["task/enabled=false"@] + views(self.tasks@.take(i as int)).map_values(
                        |t: Seq<char>| t + ":task/enabled=true"@,
                    ),
                decreases self.tasks.len() - i,
            {
                let line = concat2(self.tasks[i].as_str(), ":task/enabled=true");
                let ghost prev = views(out@);
                let ghost lv = line@;
                out.push(line);
                assert(views(out@) =~= prev.push(lv));
                assert(views(self.tasks@.take(i + 1)) =~= views(self.tasks@.take(i as int)).push(
                    self.tasks@[i as int]@,
                ));
                assert(views(self.tasks@.take(i + 1)).map_values(|t: Seq<char>| t + ":task/enabled=true"@)
                    =~= views(self.tasks@.take(i as int)).map_values(|t: Seq<char>| t + ":task/enabled=true"@).push(
                    lv,
                ));
                assert(views(out@) =~= before + seq!["task/enabled=false"@] + views(
                    self.tasks@.take(i + 1),
                ).map_values(|t: Seq<char>| t + ":task/enabled=true"@));
                i = i + 1;
            }
            assert(self.tasks@.take(self.tasks@.len() as int) =~= self.tasks@);
        }
        assert(views(out@) =~= build_overrides(*self));
        out
    }
}

/// Arguments for the `list` command.
#[derive(Debug, Clone)]
pub struct ListArgs {
    /// Shows all tasks, including pseudo parallel tasks.
    pub all: bool,
    /// Shows only aliases.
    pub aliases: bool,
    /// With `all`, shows only the tasks that would run.
    pub tasks: Vec<String>,
}

} // verus!
