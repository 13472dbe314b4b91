//! Task configuration merging.
//!
//! ```text
//! TaskConfig + TaskConfigOverride --> field-by-field merge
//! ```
//!
//! Only explicitly set fields (`Some`) in an override replace base values.

use vstd::prelude::*;

use super::types::{BuildConfiguration, GitBehavior, GitCloneOptions, RemoteSetup, TaskConfig};

verus! {

/// Task configuration with optional fields for field-level merging.
///
/// All fields are optional to distinguish between "not set" (`None`) and
/// "explicitly set to a value".
#[derive(Debug)]
pub struct TaskConfigOverride {
    /// Whether the task runs.
    pub enabled: Option<bool>,
    /// GitHub organization for `ModOrganizer` projects.
    pub mo_org: Option<String>,
    /// Git branch to use for `ModOrganizer` projects.
    pub mo_branch: Option<String>,
    /// Fallback branch if `mo_branch` doesn't exist.
    pub mo_fallback: Option<String>,
    /// Git behavior: don't pull if repo is already cloned.
    pub no_pull: Option<bool>,
    /// Build configuration.
    pub configuration: Option<BuildConfiguration>,
    /// Git URL prefix for cloning.
    pub git_url_prefix: Option<String>,
    /// Use shallow clones (--depth 1).
    pub git_shallow: Option<bool>,
    /// GitHub organization for the new origin remote.
    pub remote_org: Option<String>,
    /// Disable pushing to upstream.
    pub remote_no_push_upstream: Option<bool>,
    /// Set origin as default push remote.
    pub remote_push_default_origin: Option<bool>,
}

impl Default for TaskConfigOverride {
    fn default() -> (r: TaskConfigOverride)
        ensures
            r.enabled is None,
            r.mo_org is None,
            r.mo_branch is None,
            r.mo_fallback is None,
            r.no_pull is None,
            r.configuration is None,
            r.git_url_prefix is None,
            r.git_shallow is None,
            r.remote_org is None,
            r.remote_no_push_upstream is None,
            r.remote_push_default_origin is None,
    {
        TaskConfigOverride {
            enabled: None,
            mo_org: None,
            mo_branch: None,
            mo_fallback: None,
            no_pull: None,
            configuration: None,
            git_url_prefix: None,
            git_shallow: None,
            remote_org: None,
            remote_no_push_upstream: None,
            remote_push_default_origin: None,
        }
    }
}

/// The value of an optional setting, or the base value where it is unset.
pub open spec fn or_base<T>(o: Option<T>, base: T) -> T {
    match o {
        Some(v) => v,
        None => base,
    }
}

/// The text of an optional string setting, or the base text where it is unset.
pub open spec fn or_base_text(o: Option<String>, base: Seq<char>) -> Seq<char> {
    match o {
        Some(v) => v@,
        None => base,
    }
}

/// `m` is `base` with every field set in `o` replaced by its value.
pub open spec fn is_merge(m: TaskConfig, base: TaskConfig, o: TaskConfigOverride) -> bool {
    &&& m.enabled == or_base(o.enabled, base.enabled)
    &&& m.mo_org@ == or_base_text(o.mo_org, base.mo_org@)
    &&& m.mo_branch@ == or_base_text(o.mo_branch, base.mo_branch@)
    &&& m.mo_fallback@ == or_base_text(o.mo_fallback, base.mo_fallback@)
    &&& m.git_behavior.no_pull == or_base(o.no_pull, base.git_behavior.no_pull)
    &&& m.configuration == or_base(o.configuration, base.configuration)
    &&& m.git_url_prefix@ == or_base_text(o.git_url_prefix, base.git_url_prefix@)
    &&& m.git_clone.git_shallow == or_base(o.git_shallow, base.git_clone.git_shallow)
    &&& m.remote_setup.remote_org@ == or_base_text(o.remote_org, base.remote_setup.remote_org@)
    &&& m.remote_setup.remote_no_push_upstream == or_base(
        o.remote_no_push_upstream,
        base.remote_setup.remote_no_push_upstream,
    )
    &&& m.remote_setup.remote_push_default_origin == or_base(
        o.remote_push_default_origin,
        base.remote_setup.remote_push_default_origin,
    )
}

fn bool_or(o: Option<bool>, base: bool) -> (r: bool)
    ensures
        r == or_base(o, base),
{
    match o {
        Some(v) => v,
        None => base,
    }
}

fn text_or(o: &Option<String>, base: &String) -> (r: String)
    ensures
        r@ == or_base_text(*o, base@),
{
    match o {
        Some(v) => v.clone(),
        None => base.clone(),
    }
}

/// Merge task-specific config over default config.
///
/// Only explicitly set fields (`Some` values) in the override take precedence;
/// unset fields keep the base value.
pub fn merge_task_config(base: &TaskConfig, override_config: &TaskConfigOverride) -> (r: TaskConfig)
    ensures
        is_merge(r, *base, *override_config),
{
    let configuration = match override_config.configuration {
        Some(c) => c,
        None => base.configuration,
    };
    TaskConfig {
        enabled: bool_or(override_config.enabled, base.enabled),
        mo_org: text_or(&override_config.mo_org, &base.mo_org),
        mo_branch: text_or(&override_config.mo_branch, &base.mo_branch),
        mo_fallback: text_or(&override_config.mo_fallback, &base.mo_fallback),
        git_behavior: GitBehavior { no_pull: bool_or(override_config.no_pull, base.git_behavior.no_pull) },
        configuration,
        git_url_prefix: text_or(&override_config.git_url_prefix, &base.git_url_prefix),
        git_clone: GitCloneOptions {
            git_shallow: bool_or(override_config.git_shallow, base.git_clone.git_shallow),
        },
        remote_setup: RemoteSetup {
            remote_org: text_or(&override_config.remote_org, &base.remote_setup.remote_org),
            remote_no_push_upstream: bool_or(
                override_config.remote_no_push_upstream,
                base.remote_setup.remote_no_push_upstream,
            ),
            remote_push_default_origin: bool_or(
                override_config.remote_push_default_origin,
                base.remote_setup.remote_push_default_origin,
            ),
        },
    }
}

/// An override with no field set changes nothing: merging it gives the base
/// configuration back.
pub proof fn lemma_empty_override_keeps_base(m: TaskConfig, base: TaskConfig, o: TaskConfigOverride)
    requires
        o.enabled is None,
        o.mo_org is None,
        o.mo_branch is None,
        o.mo_fallback is None,
        o.no_pull is None,
        o.configuration is None,
        o.git_url_prefix is None,
        o.git_shallow is None,
        o.remote_org is None,
        o.remote_no_push_upstream is None,
        o.remote_push_default_origin is None,
        is_merge(m, base, o),
    ensures
        m.enabled == base.enabled,
        m.mo_org@ == base.mo_org@,
        m.mo_branch@ == base.mo_branch@,
        m.mo_fallback@ == base.mo_fallback@,
        m.git_behavior == base.git_behavior,
        m.configuration == base.configuration,
        m.git_url_prefix@ == base.git_url_prefix@,
        m.git_clone == base.git_clone,
        m.remote_setup.remote_org@ == base.remote_setup.remote_org@,
        m.remote_setup.remote_no_push_upstream == base.remote_setup.remote_no_push_upstream,
        m.remote_setup.remote_push_default_origin == base.remote_setup.remote_push_default_origin,
{
}

/// Merging is idempotent: applying the same override to an already merged
/// configuration gives the same settings again.
pub proof fn lemma_merge_idempotent(m1: TaskConfig, m2: TaskConfig, base: TaskConfig, o: TaskConfigOverride)
    requires
        is_merge(m1, base, o),
        is_merge(m2, m1, o),
    ensures
        is_merge(m2, base, o),
{
}

} // verus!
