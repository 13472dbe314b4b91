//! Log levels, logging configuration and log context.
//!
//! ```text
//! LogLevel:  0=OFF  1=ERROR  2=WARN  3=INFO
//!            4=DEBUG  5=TRACE  6=DUMP(+libs)
//! ```

use vstd::prelude::*;

use crate::error::ConfigError;
use crate::text::{concat2, concat3, opt_view, owned, u64_to_string};

verus! {

/// Log level (0-6) for configuration.
///
/// - 0: Silent - no output at all
/// - 1: Error - only errors
/// - 2: Warn - errors and warnings
/// - 3: Info - default, general information
/// - 4: Debug - detailed debugging information
/// - 5: Trace - very verbose tracing
/// - 6: Dump - extremely verbose
#[derive(Debug, Clone, Copy, PartialEq, Eq, Structural)]
pub struct LogLevel(u8);

impl LogLevel {
    /// The numeric level.
    pub closed spec fn level(&self) -> u8 {
        self.0
    }

    /// A level holds a value from 0 to 6.
    pub closed spec fn valid(&self) -> bool {
        self.0 <= 6
    }

    /// Creates a level from a value in 0..=6.
    ///
    /// # Errors
    ///
    /// Returns `ConfigError::InvalidValue` for a level above 6.
    pub fn new(level: u8) -> (r: Result<LogLevel, ConfigError>)
        ensures
            level <= 6 ==> (r matches Ok(l) && l.level() == level),
            level > 6 ==> (r matches Err(ConfigError::InvalidValue { section, key, message })
                && section@ == "global"@ && key@ == "log_level"@
                && message@ == "log level must be 0-6, got "@ + crate::text::dec(level as nat)),
    {
        if level <= 6 {
            Ok(LogLevel(level))
        } else {
            let n = u64_to_string(level as u64);
            Err(ConfigError::InvalidValue {
                section: owned("global"),
                key: owned("log_level"),
                message: concat2("log level must be 0-6, got ", n.as_str()),
            })
        }
    }

    /// The `INFO` level, in specifications.
    pub closed spec fn spec_info() -> LogLevel {
        LogLevel(3)
    }

    /// The `TRACE` level, in specifications.
    pub closed spec fn spec_trace() -> LogLevel {
        LogLevel(5)
    }

    /// The raw value.
    pub fn as_u8(&self) -> (r: u8)
        ensures
            r == self.level(),
    {
        self.0
    }

    /// Converts an integer, saturating at `DUMP` (anything but 0 to 5 gives `DUMP`).
    pub fn from_int(level: i32) -> (r: LogLevel)
        ensures
            0 <= level <= 5 ==> r.level() == level,
            !(0 <= level <= 5) ==> r.level() == 6,
    {
        match level {
            0 => LogLevel(0),
            1 => LogLevel(1),
            2 => LogLevel(2),
            3 => LogLevel(3),
            4 => LogLevel(4),
            5 => LogLevel(5),
            _ => LogLevel(6),
        }
    }

    /// Converts a value, or `None` when it is above 6.
    pub fn from_u8(level: u8) -> (r: Option<LogLevel>)
        ensures
            level <= 6 ==> (r matches Some(l) && l.level() == level),
            level > 6 ==> r is None,
    {
        if level <= 6 {
            Some(LogLevel(level))
        } else {
            None
        }
    }

    /// The `SILENT` level (0).
    pub fn silent() -> (r: LogLevel)
        ensures
            r.level() == 0,
    {
        LogLevel(0)
    }

    /// The `ERROR` level (1).
    pub fn error() -> (r: LogLevel)
        ensures
            r.level() == 1,
    {
        LogLevel(1)
    }

    /// The `WARN` level (2).
    pub fn warn() -> (r: LogLevel)
        ensures
            r.level() == 2,
    {
        LogLevel(2)
    }

    /// The `INFO` level (3), the default.
    pub fn info() -> (r: LogLevel)
        ensures
            r.level() == 3,
    {
        LogLevel(3)
    }

    /// The `DEBUG` level (4).
    pub fn debug() -> (r: LogLevel)
        ensures
            r.level() == 4,
    {
        LogLevel(4)
    }

    /// The `TRACE` level (5).
    pub fn trace() -> (r: LogLevel)
        ensures
            r.level() == 5,
    {
        LogLevel(5)
    }

    /// The `DUMP` level (6).
    pub fn dump() -> (r: LogLevel)
        ensures
            r.level() == 6,
    {
        LogLevel(6)
    }

    /// The `tracing` level that shows this much, or `None` for silent: the
    /// level that `tracing` reads from this level's directive
    /// (`to_filter_string`), so levels 5 and 6 both map to `TRACE`.
    pub fn to_tracing_level(self) -> (r: Option<tracing::Level>)
        ensures
            (r is None) == (self.level() == 0),
    {
        if self.0 == 0 {
            None
        } else {
            proof {
                reveal_strlit("error");
                reveal_strlit("warn");
                reveal_strlit("info");
                reveal_strlit("debug");
                reveal_strlit("trace");
            }
            parse_tracing_level(self.to_filter_string())
        }
    }

    /// The `EnvFilter` directive for this level.
    pub fn to_filter_string(self) -> (r: &'static str)
        ensures
            r@ == filter_text(self.level()),
    {
        match self.0 {
            0 => "off",
            1 => "error",
            2 => "warn",
            3 => "info",
            4 => "debug",
            _ => "trace",
        }
    }
}

/// The `EnvFilter` directive for a numeric level.
pub open spec fn filter_text(level: u8) -> Seq<char> {
    if level == 0 {
        "off"@
    } else if level == 1 {
        "error"@
    } else if level == 2 {
        "warn"@
    } else if level == 3 {
        "info"@
    } else if level == 4 {
        "debug"@
    } else {
        "trace"@
    }
}

impl Default for LogLevel {
    fn default() -> (r: LogLevel)
        ensures
            r.level() == 3,
    {
        LogLevel(3)
    }
}

#[verifier::external_type_specification]
#[verifier::external_body]
pub struct ExTracingLevel(tracing::Level);

/// `str::parse::<tracing::Level>` (`Level::from_str`), which reads a level
/// from its name in any case or from its number. Each of the five lowercase
/// names `error`, `warn`, `info`, `debug` and `trace` is read as the level
/// of that name; which level comes back is not stated beyond that it comes.
#[verifier::external_body]
fn parse_tracing_level(name: &str) -> (r: Option<tracing::Level>)
    ensures
        r is Some || !(name@ == "error"@ || name@ == "warn"@ || name@ == "info"@ || name@ == "debug"@ || name@
            == "trace"@),
{
    name.parse::<tracing::Level>().ok()
}

/// Configuration for the logging system.
#[derive(Debug, Clone)]
pub struct LogConfig {
    console_level: LogLevel,
    file_level: LogLevel,
    log_file: Option<String>,
    show_timestamps: bool,
    show_target: bool,
}

/// Builder for [`LogConfig`]; unset options take their defaults.
#[derive(Debug, Clone)]
pub struct LogConfigBuilder {
    console_level: Option<LogLevel>,
    file_level: Option<LogLevel>,
    log_file: Option<String>,
    show_timestamps: Option<bool>,
    show_target: Option<bool>,
}

impl LogConfigBuilder {
    /// The console level set so far.
    pub closed spec fn console(&self) -> Option<LogLevel> {
        self.console_level
    }

    /// The file level set so far.
    pub closed spec fn file(&self) -> Option<LogLevel> {
        self.file_level
    }

    /// The log file set so far.
    pub closed spec fn file_path(&self) -> Option<Seq<char>> {
        opt_view(self.log_file)
    }

    /// The timestamp setting so far.
    pub closed spec fn timestamps(&self) -> Option<bool> {
        self.show_timestamps
    }

    /// The target setting so far.
    pub closed spec fn target(&self) -> Option<bool> {
        self.show_target
    }

    /// All settings but the console level agree.
    pub open spec fn same_except_console(&self, o: &Self) -> bool {
        self.file() == o.file() && self.file_path() == o.file_path() && self.timestamps() == o.timestamps() && self.target() == o.target()
    }

    /// All settings but the file level agree.
    pub open spec fn same_except_file(&self, o: &Self) -> bool {
        self.console() == o.console() && self.file_path() == o.file_path() && self.timestamps() == o.timestamps() && self.target() == o.target()
    }

    /// All settings but the log file agree.
    pub open spec fn same_except_file_path(&self, o: &Self) -> bool {
        self.console() == o.console() && self.file() == o.file() && self.timestamps() == o.timestamps() && self.target() == o.target()
    }

    /// All settings but the timestamp setting agree.
    pub open spec fn same_except_timestamps(&self, o: &Self) -> bool {
        self.console() == o.console() && self.file() == o.file() && self.file_path() == o.file_path() && self.target() == o.target()
    }

    /// All settings but the target setting agree.
    pub open spec fn same_except_target(&self, o: &Self) -> bool {
        self.console() == o.console() && self.file() == o.file() && self.file_path() == o.file_path() && self.timestamps() == o.timestamps()
    }

    /// Sets the console level.
    pub fn with_console_level(self, level: LogLevel) -> (r: Self)
        ensures
            r.console() == Some(level),
            r.same_except_console(&self),
    {
        LogConfigBuilder { console_level: Some(level), ..self }
    }

    /// Sets the file level.
    pub fn with_file_level(self, level: LogLevel) -> (r: Self)
        ensures
            r.file() == Some(level),
            r.same_except_file(&self),
    {
        LogConfigBuilder { file_level: Some(level), ..self }
    }

    /// Sets the log file.
    pub fn with_log_file(self, path: String) -> (r: Self)
        ensures
            r.file_path() == Some(path@),
            r.same_except_file_path(&self),
    {
        LogConfigBuilder { log_file: Some(path), ..self }
    }

    /// Sets or clears the log file.
    pub fn maybe_with_log_file(self, path: Option<String>) -> (r: Self)
        ensures
            r.file_path() == opt_view(path),
            r.same_except_file_path(&self),
    {
        LogConfigBuilder { log_file: path, ..self }
    }

    /// Sets whether console lines carry timestamps.
    pub fn with_show_timestamps(self, show: bool) -> (r: Self)
        ensures
            r.timestamps() == Some(show),
            r.same_except_timestamps(&self),
    {
        LogConfigBuilder { show_timestamps: Some(show), ..self }
    }

    /// Sets whether lines carry their target.
    pub fn with_show_target(self, show: bool) -> (r: Self)
        ensures
            r.target() == Some(show),
            r.same_except_target(&self),
    {
        LogConfigBuilder { show_target: Some(show), ..self }
    }

    /// The configuration: console at INFO, file at TRACE, timestamps on and
    /// targets off unless set.
    pub fn build(self) -> (c: LogConfig)
        ensures
            c.console() == (match self.console() { Some(l) => l, None => LogLevel::spec_info() }),
            c.file() == (match self.file() { Some(l) => l, None => LogLevel::spec_trace() }),
            c.file_path() == self.file_path(),
            c.timestamps() == (match self.timestamps() { Some(b) => b, None => true }),
            c.target() == (match self.target() { Some(b) => b, None => false }),
    {
        LogConfig {
            console_level: match self.console_level {
                Some(l) => l,
                None => LogLevel(3),
            },
            file_level: match self.file_level {
                Some(l) => l,
                None => LogLevel(5),
            },
            log_file: self.log_file,
            show_timestamps: match self.show_timestamps {
                Some(b) => b,
                None => true,
            },
            show_target: match self.show_target {
                Some(b) => b,
                None => false,
            },
        }
    }
}

impl LogConfig {
    /// The console level.
    pub closed spec fn console(&self) -> LogLevel {
        self.console_level
    }

    /// The file level.
    pub closed spec fn file(&self) -> LogLevel {
        self.file_level
    }

    /// The log file.
    pub closed spec fn file_path(&self) -> Option<Seq<char>> {
        opt_view(self.log_file)
    }

    /// Whether console lines carry timestamps.
    pub closed spec fn timestamps(&self) -> bool {
        self.show_timestamps
    }

    /// Whether lines carry their target.
    pub closed spec fn target(&self) -> bool {
        self.show_target
    }

    /// A builder with nothing set.
    pub fn builder() -> (b: LogConfigBuilder)
        ensures
            b.console() is None,
            b.file() is None,
            b.file_path() is None,
            b.timestamps() is None,
            b.target() is None,
    {
        LogConfigBuilder {
            console_level: None,
            file_level: None,
            log_file: None,
            show_timestamps: None,
            show_target: None,
        }
    }

    /// The console log level.
    pub fn console_level(&self) -> (r: LogLevel)
        ensures
            r == self.console(),
    {
        self.console_level
    }

    /// The file log level.
    pub fn file_level(&self) -> (r: LogLevel)
        ensures
            r == self.file(),
    {
        self.file_level
    }

    /// The log file path, if set.
    pub fn log_file(&self) -> (r: Option<&str>)
        ensures
            self.file_path() == match r {
                Some(s) => Some(s@),
                None => None::<Seq<char>>,
            },
    {
        match &self.log_file {
            Some(f) => Some(f.as_str()),
            None => None,
        }
    }

    /// Whether console lines carry timestamps.
    pub fn show_timestamps(&self) -> (r: bool)
        ensures
            r == self.timestamps(),
    {
        self.show_timestamps
    }

    /// Whether lines carry their target.
    pub fn show_target(&self) -> (r: bool)
        ensures
            r == self.target(),
    {
        self.show_target
    }
}

impl Default for LogConfig {
    fn default() -> (c: LogConfig)
        ensures
            c.console().level() == 3,
            c.file().level() == 5,
            c.file_path() is None,
            c.timestamps(),
            !c.target(),
    {
        LogConfig::builder().build()
    }
}

/// Logging context that tracks the current task and tool.
#[derive(Debug, Clone)]
pub struct LogContext {
    task: Option<String>,
    tool: Option<String>,
}

impl Default for LogContext {
    fn default() -> (c: LogContext)
        ensures
            c.task_name() is None,
            c.tool_name() is None,
    {
        LogContext { task: None, tool: None }
    }
}

/// The prefix for a context with the given task and tool.
pub open spec fn prefix_text(task: Option<Seq<char>>, tool: Option<Seq<char>>) -> Seq<char> {
    match (task, tool) {
        (Some(t), Some(o)) => "["@ + t + "/"@ + o + "] "@,
        (Some(t), None) => "["@ + t + "] "@,
        (None, Some(o)) => "["@ + o + "] "@,
        (None, None) => Seq::empty(),
    }
}

impl LogContext {
    /// The task name.
    pub closed spec fn task_name(&self) -> Option<Seq<char>> {
        opt_view(self.task)
    }

    /// The tool name.
    pub closed spec fn tool_name(&self) -> Option<Seq<char>> {
        opt_view(self.tool)
    }

    /// A context for a task, with no tool.
    pub fn with_task(task: String) -> (c: LogContext)
        ensures
            c.task_name() == Some(task@),
            c.tool_name() is None,
    {
        LogContext { task: Some(task), tool: None }
    }

    /// Sets the current tool.
    pub fn set_tool(&mut self, tool: String)
        ensures
            final(self).tool_name() == Some(tool@),
            final(self).task_name() == old(self).task_name(),
    {
        self.tool = Some(tool);
    }

    /// Clears the current tool.
    pub fn clear_tool(&mut self)
        ensures
            final(self).tool_name() is None,
            final(self).task_name() == old(self).task_name(),
    {
        self.tool = None;
    }

    /// The current task name.
    pub fn task(&self) -> (r: Option<&str>)
        ensures
            self.task_name() == match r {
                Some(s) => Some(s@),
                None => None::<Seq<char>>,
            },
    {
        match &self.task {
            Some(t) => Some(t.as_str()),
            None => None,
        }
    }

    /// The current tool name.
    pub fn tool(&self) -> (r: Option<&str>)
        ensures
            self.tool_name() == match r {
                Some(s) => Some(s@),
                None => None::<Seq<char>>,
            },
    {
        match &self.tool {
            Some(t) => Some(t.as_str()),
            None => None,
        }
    }

    /// The prefix for log messages: `[task/tool] `, `[task] `, `[tool] ` or empty.
    pub fn prefix(&self) -> (r: String)
        ensures
            r@ == prefix_text(self.task_name(), self.tool_name()),
    {
        match (&self.task, &self.tool) {
            (Some(task), Some(tool)) => {
                let mut r = concat3("[", task.as_str(), "/");
                r.append(tool.as_str());
                r.append("] ");
                r
            },
            (Some(task), None) => concat3("[", task.as_str(), "] "),
            (None, Some(tool)) => concat3("[", tool.as_str(), "] "),
            (None, None) => String::new(),
        }
    }
}

/// Reason for a log entry.
#[derive(Debug, Clone, Copy, PartialEq, Eq, Structural)]
pub enum LogReason {
    /// Generic log entry.
    Generic,
    /// Configuration-related.
    Config,
    /// Operation was bypassed.
    Bypass,
    /// Redownload triggered.
    Redownload,
    /// Rebuild triggered.
    Rebuild,
    /// Reextract triggered.
    Reextract,
    /// Interruption-related.
    Interruption,
    /// Command line of a process.
    Command,
    /// Process stdout.
    StdOut,
    /// Process stderr.
    StdErr,
    /// Filesystem operation.
    Filesystem,
    /// Network operation.
    Network,
}

impl LogReason {
    /// A short name for log output.
    pub fn as_str(&self) -> (r: &'static str)
        ensures
            r@ == match self {
                LogReason::Generic => "generic"@,
                LogReason::Config => "config"@,
                LogReason::Bypass => "bypass"@,
                LogReason::Redownload => "redownload"@,
                LogReason::Rebuild => "rebuild"@,
                LogReason::Reextract => "reextract"@,
                LogReason::Interruption => "interrupt"@,
                LogReason::Command => "cmd"@,
                LogReason::StdOut => "stdout"@,
                LogReason::StdErr => "stderr"@,
                LogReason::Filesystem => "fs"@,
                LogReason::Network => "net"@,
            },
    {
        match self {
            LogReason::Generic => "generic",
            LogReason::Config => "config",
            LogReason::Bypass => "bypass",
            LogReason::Redownload => "redownload",
            LogReason::Rebuild => "rebuild",
            LogReason::Reextract => "reextract",
            LogReason::Interruption => "interrupt",
            LogReason::Command => "cmd",
            LogReason::StdOut => "stdout",
            LogReason::StdErr => "stderr",
            LogReason::Filesystem => "fs",
            LogReason::Network => "net",
        }
    }
}

/// The level asked for, or `default` when none was or it is above 6.
pub open spec fn level_or(asked: Option<u8>, default: u8) -> u8 {
    match asked {
        Some(l) => if l <= 6 {
            l
        } else {
            default
        },
        None => default,
    }
}

/// The log configuration of a run: the console level asked for (INFO when
/// none was, or it is above 6), the file level asked for (else the console
/// level), the log file given, timestamps on, targets off.
pub fn build_log_config(global: &crate::cli::global::GlobalOptions) -> (c: LogConfig)
    ensures
        c.console().level() == level_or(global.log_level, 3),
        c.file().level() == level_or(global.file_log_level, level_or(global.log_level, 3)),
        c.file_path() == opt_view(global.log_file),
        c.timestamps(),
        !c.target(),
{
    let console = match global.log_level {
        Some(l) => match LogLevel::from_u8(l) {
            Some(level) => level,
            None => LogLevel::info(),
        },
        None => LogLevel::info(),
    };
    let file = match global.file_log_level {
        Some(l) => match LogLevel::from_u8(l) {
            Some(level) => level,
            None => console,
        },
        None => console,
    };
    LogConfig::builder().with_console_level(console).with_file_level(file).maybe_with_log_file(
        global.log_file.clone(),
    ).build()
}

} // verus!
