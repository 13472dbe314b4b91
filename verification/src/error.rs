//! Error types of the library.
//!
//! Each error type has a `message` method that renders the text a user sees.

use vstd::prelude::*;

use crate::text::{concat2, concat3, i128_to_string, u64_to_string};

verus! {

#[verifier::external_type_specification]
#[verifier::external_body]
pub struct ExIoError(std::io::Error);

/// The text of an I/O error (`<std::io::Error as Display>`).
#[verifier::external_body]
fn io_error_text(e: &std::io::Error) -> String {
    e.to_string()
}

/// Configuration-related errors.
#[derive(Debug)]
pub enum ConfigError {
    /// Failed to read configuration file.
    ReadError { path: String, source: std::io::Error },
    /// Failed to parse configuration file.
    ParseError { path: String, message: String },
    /// Missing required configuration key.
    MissingKey { section: String, key: String },
    /// Invalid configuration value.
    InvalidValue { section: String, key: String, message: String },
    /// Configuration file not found.
    NotFound(String),
    /// A configuration source could not be loaded; the text says why.
    LoadFailed(String),
}

/// The text of a missing-key error.
pub open spec fn missing_key_text(section: Seq<char>, key: Seq<char>) -> Seq<char> {
    "missing required config key '"@ + key + "' in section '["@ + section + "]'"@
}

/// The text of an invalid-value error.
pub open spec fn invalid_value_text(section: Seq<char>, key: Seq<char>, message: Seq<char>) -> Seq<char> {
    "invalid value for '"@ + key + "' in section '["@ + section + "]': "@ + message
}

impl ConfigError {
    /// The error for a key that must be set.
    pub fn missing_key(section: &str, key: &str) -> (e: ConfigError)
        ensures
            e matches ConfigError::MissingKey { section: s, key: k } && s@ == section@ && k@ == key@,
    {
        ConfigError::MissingKey { section: String::from_str(section), key: String::from_str(key) }
    }

    /// The text shown to the user.
    pub fn message(&self) -> (r: String)
        ensures
            self matches ConfigError::MissingKey { section, key } ==> r@ == missing_key_text(section@, key@),
            self matches ConfigError::InvalidValue { section, key, message } ==> r@ == invalid_value_text(section@, key@, message@),
            self matches ConfigError::ParseError { path, message } ==> r@ == "failed to parse config file '"@ + path@ + "': "@ + message@,
            self matches ConfigError::NotFound(p) ==> r@ == "config file not found: "@ + p@,
            self matches ConfigError::LoadFailed(t) ==> r@ == t@,
    {
        match self {
            ConfigError::ReadError { path, source } => {
                let mut r = concat3("failed to read config file '", path.as_str(), "': ");
                let t = io_error_text(source);
                r.append(t.as_str());
                r
            },
            ConfigError::ParseError { path, message } => {
                let mut r = concat3("failed to parse config file '", path.as_str(), "': ");
                r.append(message.as_str());
                r
            },
            ConfigError::MissingKey { section, key } => {
                let mut r = concat3("missing required config key '", key.as_str(), "' in section '[");
                r.append(section.as_str());
                r.append("]'");
                r
            },
            ConfigError::InvalidValue { section, key, message } => {
                let mut r = concat3("invalid value for '", key.as_str(), "' in section '[");
                r.append(section.as_str());
                r.append("]': ");
                r.append(message.as_str());
                r
            },
            ConfigError::NotFound(p) => concat2("config file not found: ", p.as_str()),
            ConfigError::LoadFailed(t) => t.clone(),
        }
    }
}

/// Git operation errors.
///
/// What the `gix` crate reports is kept as its text.
#[derive(Debug)]
pub enum GitError {
    /// Repository not found at the specified path.
    RepoNotFound { path: String },
    /// Git command execution failed.
    CommandFailed { command: String, message: String },
    /// An error reported by the `gix` crate, as its text.
    Gix(String),
    /// Uncommitted changes detected when a clean working tree is required.
    UncommittedChanges { path: String },
    /// Branch not found.
    BranchNotFound { branch: String },
    /// Remote not found.
    RemoteNotFound { remote: String },
    /// Clone operation failed.
    CloneFailed { url: String, message: String },
    /// Checkout operation failed.
    CheckoutFailed { what: String, message: String },
}

impl GitError {
    /// The text shown to the user.
    pub fn message(&self) -> (r: String)
        ensures
            self matches GitError::RepoNotFound { path } ==> r@ == "repository not found: "@ + path@,
            self matches GitError::CommandFailed { command, message } ==> r@ == "git command failed: "@ + command@
                + " - "@ + message@,
            self matches GitError::Gix(m) ==> r@ == "gix error: "@ + m@,
            self matches GitError::UncommittedChanges { path } ==> r@ == "uncommitted changes in "@ + path@,
            self matches GitError::BranchNotFound { branch } ==> r@ == "branch not found: "@ + branch@,
            self matches GitError::RemoteNotFound { remote } ==> r@ == "remote not found: "@ + remote@,
            self matches GitError::CloneFailed { url, message } ==> r@ == "failed to clone "@ + url@ + ": "@
                + message@,
            self matches GitError::CheckoutFailed { what, message } ==> r@ == "failed to checkout "@ + what@
                + ": "@ + message@,
    {
        match self {
            GitError::RepoNotFound { path } => concat2("repository not found: ", path.as_str()),
            GitError::CommandFailed { command, message } => {
                let mut r = concat3("git command failed: ", command.as_str(), " - ");
                r.append(message.as_str());
                r
            },
            GitError::Gix(m) => concat2("gix error: ", m.as_str()),
            GitError::UncommittedChanges { path } => concat2("uncommitted changes in ", path.as_str()),
            GitError::BranchNotFound { branch } => concat2("branch not found: ", branch.as_str()),
            GitError::RemoteNotFound { remote } => concat2("remote not found: ", remote.as_str()),
            GitError::CloneFailed { url, message } => {
                let mut r = concat3("failed to clone ", url.as_str(), ": ");
                r.append(message.as_str());
                r
            },
            GitError::CheckoutFailed { what, message } => {
                let mut r = concat3("failed to checkout ", what.as_str(), ": ");
                r.append(message.as_str());
                r
            },
        }
    }
}

/// Network operation errors.
///
/// What the `reqwest` crate reports is kept as its text.
#[derive(Debug)]
pub enum NetworkError {
    /// Download failed.
    DownloadFailed { url: String, message: String },
    /// Download was interrupted by the user or a signal.
    Interrupted,
    /// The server answered with a status other than success.
    HttpError { status: u16, url: String },
    /// An error reported by the `reqwest` crate, as its text.
    Reqwest(String),
    /// Invalid URL.
    InvalidUrl(String),
    /// Connection timeout.
    Timeout { url: String },
    /// I/O error during download.
    Io(std::io::Error),
}

impl NetworkError {
    /// The text shown to the user.
    pub fn message(&self) -> (r: String)
        ensures
            self matches NetworkError::DownloadFailed { url, message } ==> r@ == "download failed: "@ + url@ + " - "@
                + message@,
            self matches NetworkError::Interrupted ==> r@ == "download interrupted"@,
            self matches NetworkError::HttpError { status, url } ==> r@ == "http error "@ + crate::text::dec(
                *status as nat,
            ) + ": "@ + url@,
            self matches NetworkError::Reqwest(m) ==> r@ == "reqwest error: "@ + m@,
            self matches NetworkError::InvalidUrl(u) ==> r@ == "invalid url: "@ + u@,
            self matches NetworkError::Timeout { url } ==> r@ == "connection timeout: "@ + url@,
    {
        match self {
            NetworkError::DownloadFailed { url, message } => {
                let mut r = concat3("download failed: ", url.as_str(), " - ");
                r.append(message.as_str());
                r
            },
            NetworkError::Interrupted => crate::text::owned("download interrupted"),
            NetworkError::HttpError { status, url } => {
                let n = u64_to_string(*status as u64);
                let mut r = concat3("http error ", n.as_str(), ": ");
                r.append(url.as_str());
                r
            },
            NetworkError::Reqwest(m) => concat2("reqwest error: ", m.as_str()),
            NetworkError::InvalidUrl(u) => concat2("invalid url: ", u.as_str()),
            NetworkError::Timeout { url } => concat2("connection timeout: ", url.as_str()),
            NetworkError::Io(e) => {
                let t = io_error_text(e);
                concat2("io error during download: ", t.as_str())
            },
        }
    }
}

/// Task execution errors.
#[derive(Debug)]
pub enum TaskError {
    /// Task was not found.
    NotFound(String),
    /// Task execution failed.
    ExecutionFailed { name: String, message: String },
    /// Task was interrupted.
    Interrupted(String),
    /// Task dependency failed.
    DependencyFailed { task: String, dependency: String },
}

impl TaskError {
    /// The text shown to the user.
    pub fn message(&self) -> (r: String)
        ensures
            self matches TaskError::NotFound(n) ==> r@ == "task '"@ + n@ + "' not found"@,
            self matches TaskError::ExecutionFailed { name, message } ==> r@ == "task '"@ + name@ + "' failed: "@ + message@,
            self matches TaskError::Interrupted(n) ==> r@ == "task '"@ + n@ + "' was interrupted"@,
            self matches TaskError::DependencyFailed { task, dependency } ==> r@ == "task '"@ + task@
                + "' failed because dependency '"@ + dependency@ + "' failed"@,
    {
        match self {
            TaskError::NotFound(n) => concat3("task '", n.as_str(), "' not found"),
            TaskError::ExecutionFailed { name, message } => {
                let mut r = concat3("task '", name.as_str(), "' failed: ");
                r.append(message.as_str());
                r
            },
            TaskError::Interrupted(n) => concat3("task '", n.as_str(), "' was interrupted"),
            TaskError::DependencyFailed { task, dependency } => {
                let mut r = concat3("task '", task.as_str(), "' failed because dependency '");
                r.append(dependency.as_str());
                r.append("' failed");
                r
            },
        }
    }
}

/// Process execution errors.
#[derive(Debug)]
pub enum ProcessError {
    /// Executable not found in PATH.
    ExecutableNotFound { name: String },
    /// Failed to spawn process.
    SpawnFailed { command: String, source: std::io::Error },
    /// Process exited with non-zero status.
    NonZeroExit { command: String, code: i32 },
    /// Process timed out.
    Timeout { command: String, timeout_secs: u64 },
    /// Failed to read process output.
    OutputError { command: String, message: String },
}

impl ProcessError {
    /// The text shown to the user.
    pub fn message(&self) -> (r: String)
        ensures
            self matches ProcessError::ExecutableNotFound { name } ==> r@ == "executable not found: '"@ + name@ + "' (not in PATH)"@,
            self matches ProcessError::NonZeroExit { command, code } ==> r@ == "process '"@ + command@ + "' exited with code "@ + crate::text::dec_int(code as int),
            self matches ProcessError::Timeout { command, timeout_secs } ==> r@ == "process '"@ + command@ + "' timed out after "@
                + crate::text::dec(timeout_secs as nat) + " seconds"@,
            self matches ProcessError::OutputError { command, message } ==> r@ == "failed to read output from process '"@ + command@ + "': "@ + message@,
    {
        match self {
            ProcessError::ExecutableNotFound { name } => concat3("executable not found: '", name.as_str(), "' (not in PATH)"),
            ProcessError::SpawnFailed { command, source } => {
                let mut r = concat3("failed to spawn process '", command.as_str(), "': ");
                let t = io_error_text(source);
                r.append(t.as_str());
                r
            },
            ProcessError::NonZeroExit { command, code } => {
                let mut r = concat3("process '", command.as_str(), "' exited with code ");
                let c = i128_to_string(*code as i128);
                r.append(c.as_str());
                r
            },
            ProcessError::Timeout { command, timeout_secs } => {
                let mut r = concat3("process '", command.as_str(), "' timed out after ");
                let c = u64_to_string(*timeout_secs);
                r.append(c.as_str());
                r.append(" seconds");
                r
            },
            ProcessError::OutputError { command, message } => {
                let mut r = concat3("failed to read output from process '", command.as_str(), "': ");
                r.append(message.as_str());
                r
            },
        }
    }
}

/// Filesystem operation errors.
#[derive(Debug)]
pub enum FsError {
    /// Path not found.
    NotFound(String),
    /// Permission denied.
    PermissionDenied(String),
    /// General I/O error.
    IoError { path: String, source: std::io::Error },
}

impl FsError {
    /// The text shown to the user.
    pub fn message(&self) -> (r: String)
        ensures
            self matches FsError::NotFound(p) ==> r@ == "path not found: "@ + p@,
            self matches FsError::PermissionDenied(p) ==> r@ == "permission denied: "@ + p@,
    {
        match self {
            FsError::NotFound(p) => concat2("path not found: ", p.as_str()),
            FsError::PermissionDenied(p) => concat2("permission denied: ", p.as_str()),
            FsError::IoError { path, source } => {
                let mut r = concat3("I/O error on '", path.as_str(), "': ");
                let t = io_error_text(source);
                r.append(t.as_str());
                r
            },
        }
    }
}

/// Windows Job Object errors.
#[derive(Debug)]
pub enum JobError {
    /// Failed to create a Job Object.
    CreateFailed(std::io::Error),
    /// Failed to configure a Job Object.
    ConfigureFailed(std::io::Error),
    /// Failed to assign a process to a Job Object.
    AssignFailed { pid: u32, source: std::io::Error },
    /// Failed to assign a process handle to a Job Object.
    AssignHandleFailed(std::io::Error),
    /// Failed to open a process for job assignment.
    OpenProcessFailed { pid: u32, source: std::io::Error },
    /// Failed to terminate a Job Object.
    TerminateFailed(std::io::Error),
    /// Failed to query job information.
    QueryFailed(std::io::Error),
}

impl JobError {
    /// The text shown to the user.
    pub fn message(&self) -> (r: String)
        ensures
            self matches JobError::CreateFailed(_) ==> r@ == "failed to create job object"@,
            self matches JobError::ConfigureFailed(_) ==> r@ == "failed to configure job object"@,
            self matches JobError::AssignFailed { pid, .. } ==> r@ == "failed to assign process (PID "@ + crate::text::dec(pid as nat) + ") to job"@,
            self matches JobError::AssignHandleFailed(_) ==> r@ == "failed to assign process handle to job"@,
            self matches JobError::OpenProcessFailed { pid, .. } ==> r@ == "failed to open process (PID "@ + crate::text::dec(pid as nat) + ")"@,
            self matches JobError::TerminateFailed(_) ==> r@ == "failed to terminate job"@,
            self matches JobError::QueryFailed(_) ==> r@ == "failed to query job information"@,
    {
        match self {
            JobError::CreateFailed(_) => String::from_str("failed to create job object"),
            JobError::ConfigureFailed(_) => String::from_str("failed to configure job object"),
            JobError::AssignFailed { pid, .. } => {
                let p = u64_to_string(*pid as u64);
                concat3("failed to assign process (PID ", p.as_str(), ") to job")
            },
            JobError::AssignHandleFailed(_) => String::from_str("failed to assign process handle to job"),
            JobError::OpenProcessFailed { pid, .. } => {
                let p = u64_to_string(*pid as u64);
                concat3("failed to open process (PID ", p.as_str(), ")")
            },
            JobError::TerminateFailed(_) => String::from_str("failed to terminate job"),
            JobError::QueryFailed(_) => String::from_str("failed to query job information"),
        }
    }
}

} // verus!
