//! Describing a process to run.

use vstd::prelude::*;

use crate::error::ProcessError;
use crate::host::env::container::Env;
use crate::path::host;
use crate::text::{opt_view, owned, views};

verus! {

/// Flags that change how a process is run.
#[derive(Debug, Clone, Copy, PartialEq, Eq, Structural)]
pub struct ProcessFlags {
    bits: u32,
}

impl ProcessFlags {
    /// The flags as bits.
    pub closed spec fn bits_of(&self) -> u32 {
        self.bits
    }

    /// No flag.
    pub fn empty() -> (r: ProcessFlags)
        ensures
            r.bits_of() == 0,
    {
        ProcessFlags { bits: 0 }
    }

    /// A failing exit code is not an error.
    pub fn allow_failure() -> (r: ProcessFlags)
        ensures
            r.bits_of() == 1,
    {
        ProcessFlags { bits: 0x01 }
    }

    /// The process is terminated when the run is interrupted.
    pub fn terminate_on_interrupt() -> (r: ProcessFlags)
        ensures
            r.bits_of() == 2,
    {
        ProcessFlags { bits: 0x02 }
    }

    /// The output is not logged when the process succeeds.
    pub fn ignore_output_on_success() -> (r: ProcessFlags)
        ensures
            r.bits_of() == 4,
    {
        ProcessFlags { bits: 0x04 }
    }

    /// The flags as bits.
    pub fn bits(&self) -> (r: u32)
        ensures
            r == self.bits_of(),
    {
        self.bits
    }

    /// Whether every flag of `other` is set.
    pub fn contains(&self, other: ProcessFlags) -> (r: bool)
        ensures
            r == (self.bits_of() & other.bits_of() == other.bits_of()),
    {
        self.bits & other.bits == other.bits
    }

    /// The flags of both.
    pub fn union(&self, other: ProcessFlags) -> (r: ProcessFlags)
        ensures
            r.bits_of() == self.bits_of() | other.bits_of(),
    {
        ProcessFlags { bits: self.bits | other.bits }
    }
}

impl Default for ProcessFlags {
    fn default() -> (r: ProcessFlags)
        ensures
            r.bits_of() == 0,
    {
        ProcessFlags { bits: 0 }
    }
}

/// Where the output of a stream goes.
#[derive(Debug, Clone, Copy, PartialEq, Eq, Structural)]
pub struct StreamFlags {
    bits: u32,
}

impl StreamFlags {
    /// The flags as bits.
    pub closed spec fn bits_of(&self) -> u32 {
        self.bits
    }

    /// Each line is written to the log.
    pub fn forward_to_log() -> (r: StreamFlags)
        ensures
            r.bits_of() == 1,
    {
        StreamFlags { bits: 0x01 }
    }

    /// The output is discarded.
    pub fn bit_bucket() -> (r: StreamFlags)
        ensures
            r.bits_of() == 2,
    {
        StreamFlags { bits: 0x02 }
    }

    /// The output is kept and returned.
    pub fn keep_in_string() -> (r: StreamFlags)
        ensures
            r.bits_of() == 4,
    {
        StreamFlags { bits: 0x04 }
    }

    /// The stream is the caller's own.
    pub fn inherit() -> (r: StreamFlags)
        ensures
            r.bits_of() == 8,
    {
        StreamFlags { bits: 0x08 }
    }

    /// The flags as bits.
    pub fn bits(&self) -> (r: u32)
        ensures
            r == self.bits_of(),
    {
        self.bits
    }

    /// Whether every flag of `other` is set.
    pub fn contains(&self, other: StreamFlags) -> (r: bool)
        ensures
            r == (self.bits_of() & other.bits_of() == other.bits_of()),
    {
        self.bits & other.bits == other.bits
    }

    /// Whether any flag of `other` is set.
    pub fn intersects(&self, other: StreamFlags) -> (r: bool)
        ensures
            r == (self.bits_of() & other.bits_of() != 0),
    {
        self.bits & other.bits != 0
    }

    /// The flags of both.
    pub fn union(&self, other: StreamFlags) -> (r: StreamFlags)
        ensures
            r.bits_of() == self.bits_of() | other.bits_of(),
    {
        StreamFlags { bits: self.bits | other.bits }
    }
}

impl Default for StreamFlags {
    fn default() -> (r: StreamFlags)
        ensures
            r.bits_of() == 1,
    {
        StreamFlags { bits: 0x01 }
    }
}

/// The text encoding of a stream.
#[derive(Debug, Clone, Copy, PartialEq, Eq, Structural)]
pub enum Encoding {
    /// Not known; read as UTF-8.
    Unknown,
    /// UTF-16.
    Utf16,
    /// The active code page.
    Acp,
    /// The OEM code page.
    Oem,
    /// UTF-8.
    Utf8,
}

/// The output of a finished process.
#[derive(Debug, Clone)]
pub struct ProcessOutput {
    exit_code: i32,
    stdout: String,
    stderr: String,
    interrupted: bool,
}

impl ProcessOutput {
    /// The exit code.
    pub closed spec fn code(&self) -> i32 {
        self.exit_code
    }

    /// The kept standard output.
    pub closed spec fn out_text(&self) -> Seq<char> {
        self.stdout@
    }

    /// The kept standard error.
    pub closed spec fn err_text(&self) -> Seq<char> {
        self.stderr@
    }

    /// Whether the run was interrupted.
    pub closed spec fn was_interrupted(&self) -> bool {
        self.interrupted
    }

    /// An output.
    pub fn new(exit_code: i32, stdout: String, stderr: String, interrupted: bool) -> (r: ProcessOutput)
        ensures
            r.code() == exit_code,
            r.out_text() == stdout@,
            r.err_text() == stderr@,
            r.was_interrupted() == interrupted,
    {
        ProcessOutput { exit_code, stdout, stderr, interrupted }
    }

    /// The exit code.
    pub fn exit_code(&self) -> (r: i32)
        ensures
            r == self.code(),
    {
        self.exit_code
    }

    /// The kept standard output.
    pub fn stdout(&self) -> (r: &str)
        ensures
            r@ == self.out_text(),
    {
        self.stdout.as_str()
    }

    /// The kept standard error.
    pub fn stderr(&self) -> (r: &str)
        ensures
            r@ == self.err_text(),
    {
        self.stderr.as_str()
    }

    /// Whether the run was interrupted.
    pub fn is_interrupted(&self) -> (r: bool)
        ensures
            r == self.was_interrupted(),
    {
        self.interrupted
    }

    /// Whether the exit code is 0.
    pub fn success(&self) -> (r: bool)
        ensures
            r == (self.code() == 0),
    {
        self.exit_code == 0
    }
}

/// How one output stream is handled.
#[derive(Debug, Clone, Copy)]
pub struct StreamConfig {
    /// Where the output goes.
    pub flags: StreamFlags,
    /// How the output is encoded.
    pub encoding: Encoding,
}

impl Default for StreamConfig {
    fn default() -> (r: StreamConfig)
        ensures
            r.flags.bits_of() == 1,
            r.encoding == Encoding::Unknown,
    {
        StreamConfig { flags: StreamFlags::forward_to_log(), encoding: Encoding::Unknown }
    }
}

/// The exit codes that count as success: sorted, without repeats.
pub open spec fn codes_sorted(c: Seq<i32>) -> bool {
    forall|i: int, j: int| 0 <= i < j < c.len() ==> c[i] < c[j]
}

/// `codes` as a sorted list without repeats.
pub open spec fn code_set_of(codes: Seq<i32>, r: Seq<i32>) -> bool {
    codes_sorted(r) && r.to_set() == codes.to_set()
}

/// The parts of a `ProcessBuilder` that its setters change.
pub enum BuilderPart {
    /// The arguments.
    Args,
    /// The working directory.
    Cwd,
    /// The environment.
    Env,
    /// The process flags.
    Flags,
    /// Standard output.
    Stdout,
    /// Standard error.
    Stderr,
    /// Standard input.
    Stdin,
    /// The exit codes that count as success.
    SuccessCodes,
    /// The name shown for the process.
    Name,
    /// The timeout.
    Timeout,
}

/// A process to run.
#[derive(Debug)]
pub struct ProcessBuilder {
    program: String,
    args: Vec<String>,
    cwd: Option<String>,
    env: Option<Env>,
    flags: ProcessFlags,
    stdout: StreamConfig,
    stderr: StreamConfig,
    stdin: Option<String>,
    success_codes: Vec<i32>,
    name: Option<String>,
    timeout: Option<std::time::Duration>,
}

/// Finds `program` in the directories of `PATH` (`which::which`). What it
/// finds depends on the environment and the filesystem.
#[verifier::external_body]
fn which_path(program: &str) -> Option<String> {
    match which::which(program) {
        Ok(p) => Some(p.to_string_lossy().into_owned()),
        Err(_) => None,
    }
}

/// Every match of `program` in the directories of `PATH`
/// (`which::which_all`). What it finds depends on the environment and the
/// filesystem.
#[verifier::external_body]
fn which_all_paths(program: &str) -> Vec<String> {
    match which::which_all(program) {
        Ok(it) => it.map(|p| p.to_string_lossy().into_owned()).collect(),
        Err(_) => Vec::new(),
    }
}

impl ProcessBuilder {
    /// The program.
    pub closed spec fn program_view(&self) -> Seq<char> {
        self.program@
    }

    /// The arguments.
    pub closed spec fn args_view(&self) -> Seq<Seq<char>> {
        views(self.args@)
    }

    /// The working directory.
    pub closed spec fn cwd_view(&self) -> Option<Seq<char>> {
        opt_view(self.cwd)
    }

    /// The environment, if one replaces the inherited one.
    pub closed spec fn env_view(&self) -> Option<Env> {
        self.env
    }

    /// The process flags.
    pub closed spec fn flags_view(&self) -> ProcessFlags {
        self.flags
    }

    /// How standard output is handled.
    pub closed spec fn stdout_view(&self) -> StreamConfig {
        self.stdout
    }

    /// How standard error is handled.
    pub closed spec fn stderr_view(&self) -> StreamConfig {
        self.stderr
    }

    /// The standard input to write, if any.
    pub closed spec fn stdin_view(&self) -> Option<Seq<char>> {
        opt_view(self.stdin)
    }

    /// The exit codes that count as success, sorted.
    pub closed spec fn success_view(&self) -> Seq<i32> {
        self.success_codes@
    }

    /// The name shown for the process, if set.
    pub closed spec fn name_view(&self) -> Option<Seq<char>> {
        opt_view(self.name)
    }

    /// The timeout, if any.
    pub closed spec fn timeout_view(&self) -> Option<std::time::Duration> {
        self.timeout
    }

    /// Whether this builder runs the program of `o` and agrees with it on
    /// every part outside `changed`.
    pub open spec fn agrees_except(&self, o: &ProcessBuilder, changed: Set<BuilderPart>) -> bool {
        &&& self.program_view() == o.program_view()
        &&& (changed.contains(BuilderPart::Args) || self.args_view() == o.args_view())
        &&& (changed.contains(BuilderPart::Cwd) || self.cwd_view() == o.cwd_view())
        &&& (changed.contains(BuilderPart::Env) || self.env_view() == o.env_view())
        &&& (changed.contains(BuilderPart::Flags) || self.flags_view() == o.flags_view())
        &&& (changed.contains(BuilderPart::Stdout) || self.stdout_view() == o.stdout_view())
        &&& (changed.contains(BuilderPart::Stderr) || self.stderr_view() == o.stderr_view())
        &&& (changed.contains(BuilderPart::Stdin) || self.stdin_view() == o.stdin_view())
        &&& (changed.contains(BuilderPart::SuccessCodes) || self.success_view() == o.success_view())
        &&& (changed.contains(BuilderPart::Name) || self.name_view() == o.name_view())
        &&& (changed.contains(BuilderPart::Timeout) || self.timeout_view() == o.timeout_view())
    }

    /// Whether every part but the program is as `new` sets it.
    pub open spec fn is_fresh(&self) -> bool {
        &&& self.args_view() == Seq::<Seq<char>>::empty()
        &&& self.fresh_setup()
    }

    /// Whether every part but the program and the arguments is as `new`
    /// sets it.
    pub open spec fn fresh_setup(&self) -> bool {
        &&& self.cwd_view() is None
        &&& self.env_view() is None
        &&& self.flags_view().bits_of() == 0
        &&& self.stdout_view().flags.bits_of() == 1
        &&& self.stdout_view().encoding == Encoding::Unknown
        &&& self.stderr_view().flags.bits_of() == 1
        &&& self.stderr_view().encoding == Encoding::Unknown
        &&& self.stdin_view() is None
        &&& self.success_view() == seq![0i32]
        &&& self.name_view() is None
        &&& self.timeout_view() is None
    }

    /// A process running `program` with no arguments: streams forwarded to
    /// the log, exit code 0 as the only success.
    pub fn new(program: &str) -> (r: Self)
        ensures
            r.program_view() == program@,
            r.is_fresh(),
    {
        let r = ProcessBuilder {
            program: owned(program),
            args: Vec::new(),
            cwd: None,
            env: None,
            flags: ProcessFlags::empty(),
            stdout: StreamConfig::default(),
            stderr: StreamConfig::default(),
            stdin: None,
            success_codes: vec![0],
            name: None,
            timeout: None,
        };
        assert(r.args_view() =~= Seq::<Seq<char>>::empty());
        assert(r.success_view() =~= seq![0i32]);
        r
    }

    /// The executable `program` found in `PATH`.
    ///
    /// # Errors
    ///
    /// Returns `ProcessError::ExecutableNotFound` if it is not found.
    pub fn which(program: &str) -> (r: Result<Self, ProcessError>)
        ensures
            r matches Err(e) ==> e matches ProcessError::ExecutableNotFound { name } && name@ == program@,
            r matches Ok(b) ==> b.is_fresh(),
    {
        match which_path(program) {
            Some(p) => Ok(ProcessBuilder::new(p.as_str())),
            None => Err(ProcessError::ExecutableNotFound { name: owned(program) }),
        }
    }

    /// Whether `program` is found in `PATH`.
    pub fn program_exists(program: &str) -> (r: bool) {
        ProcessBuilder::find(program).is_some()
    }

    /// The path of `program` found in `PATH`, if any.
    pub fn find(program: &str) -> (r: Option<String>) {
        which_path(program)
    }

    /// Every path of `program` found in `PATH`.
    pub fn find_all(program: &str) -> (r: Vec<String>) {
        which_all_paths(program)
    }

    /// The shell program and arguments that run `command`: `pwsh
    /// -NoProfile -NonInteractive -Command` on Windows, `/bin/sh -c`
    /// elsewhere.
    pub open spec fn raw_spec(command: Seq<char>, windows: bool) -> (Seq<char>, Seq<Seq<char>>) {
        if windows {
            ("pwsh"@, seq!["-NoProfile"@, "-NonInteractive"@, "-Command"@, command])
        } else {
            ("/bin/sh"@, seq!["-c"@, command])
        }
    }

    /// A process that runs `command` in the shell of Windows (`windows`) or
    /// of other platforms (see `raw_spec`); every other setting is as `new`
    /// sets it.
    pub fn raw_for(command: &str, windows: bool) -> (r: Self)
        ensures
            (r.program_view(), r.args_view()) == Self::raw_spec(command@, windows),
            r.fresh_setup(),
    {
        if windows {
            let mut b = ProcessBuilder::new("pwsh");
            b.args = vec![owned("-NoProfile"), owned("-NonInteractive"), owned("-Command"), owned(command)];
            assert(b.args_view() =~= seq!["-NoProfile"@, "-NonInteractive"@, "-Command"@, command@]);
            b
        } else {
            let mut b = ProcessBuilder::new("/bin/sh");
            b.args = vec![owned("-c"), owned(command)];
            assert(b.args_view() =~= seq!["-c"@, command@]);
            b
        }
    }

    /// A process that runs `command` in the platform's shell: `pwsh` on
    /// Windows, `/bin/sh -c` elsewhere (`raw_for` on this platform).
    pub fn raw(command: &str) -> (r: Self)
        ensures
            exists|windows: bool| (r.program_view(), r.args_view()) == Self::raw_spec(command@, windows),
            r.fresh_setup(),
    {
        let h = host();
        let r = ProcessBuilder::raw_for(command, h.sep() == '\\');
        assert((r.program_view(), r.args_view()) == Self::raw_spec(command@, h.windows()));
        r
    }

    /// Adds an argument.
    pub fn arg(self, arg: &str) -> (r: Self)
        ensures
            r.args_view() == self.args_view().push(arg@),
            r.agrees_except(&self, set![BuilderPart::Args]),
    {
        let mut b = self;
        b.args.push(owned(arg));
        assert(b.args_view() =~= self.args_view().push(arg@));
        b
    }

    /// Adds arguments, in order.
    pub fn args(self, args: &[&str]) -> (r: Self)
        ensures
            r.args_view() == self.args_view() + args@.map_values(|a: &str| a@),
            r.agrees_except(&self, set![BuilderPart::Args]),
    {
        let mut b = self;
        let mut i: usize = 0;
        while i < args.len()
            invariant
                i <= args@.len(),
                b.args_view() == self.args_view() + args@.take(i as int).map_values(|a: &str| a@),
                b.agrees_except(&self, set![BuilderPart::Args]),
            decreases args.len() - i,
        {
            let ghost prev = b.args@;
            b.args.push(owned(args[i]));
            assert(views(b.args@) =~= views(prev).push(args@[i as int]@));
            assert(args@.take(i + 1).map_values(|a: &str| a@) =~= args@.take(i as int).map_values(
                |a: &str| a@,
            ).push(args@[i as int]@));
            assert(b.args_view() =~= self.args_view() + args@.take(i + 1).map_values(|a: &str| a@));
            i = i + 1;
        }
        assert(args@.take(args@.len() as int) =~= args@);
        b
    }

    /// Sets the working directory.
    pub fn cwd(self, dir: &str) -> (r: Self)
        ensures
            r.cwd_view() == Some(dir@),
            r.agrees_except(&self, set![BuilderPart::Cwd]),
    {
        ProcessBuilder { cwd: Some(owned(dir)), ..self }
    }

    /// Sets the environment the process gets in place of the inherited one.
    pub fn env(self, env: Env) -> (r: Self)
        ensures
            r.env_view() == Some(env),
            r.agrees_except(&self, set![BuilderPart::Env]),
    {
        ProcessBuilder { env: Some(env), ..self }
    }

    /// Sets the process flags.
    pub fn flags(self, flags: ProcessFlags) -> (r: Self)
        ensures
            r.flags_view() == flags,
            r.agrees_except(&self, set![BuilderPart::Flags]),
    {
        ProcessBuilder { flags, ..self }
    }

    /// Adds a process flag.
    pub fn flag(self, flag: ProcessFlags) -> (r: Self)
        ensures
            r.flags_view().bits_of() == self.flags_view().bits_of() | flag.bits_of(),
            r.agrees_except(&self, set![BuilderPart::Flags]),
    {
        let f = self.flags.union(flag);
        ProcessBuilder { flags: f, ..self }
    }

    /// Sets where standard output goes.
    pub fn stdout_flags(self, flags: StreamFlags) -> (r: Self)
        ensures
            r.stdout_view().flags == flags,
            r.stdout_view().encoding == self.stdout_view().encoding,
            r.agrees_except(&self, set![BuilderPart::Stdout]),
    {
        let s = StreamConfig { flags, encoding: self.stdout.encoding };
        ProcessBuilder { stdout: s, ..self }
    }

    /// Sets where standard error goes.
    pub fn stderr_flags(self, flags: StreamFlags) -> (r: Self)
        ensures
            r.stderr_view().flags == flags,
            r.stderr_view().encoding == self.stderr_view().encoding,
            r.agrees_except(&self, set![BuilderPart::Stderr]),
    {
        let s = StreamConfig { flags, encoding: self.stderr.encoding };
        ProcessBuilder { stderr: s, ..self }
    }

    /// Sets the encoding of standard output.
    pub fn stdout_encoding(self, encoding: Encoding) -> (r: Self)
        ensures
            r.stdout_view().encoding == encoding,
            r.stdout_view().flags == self.stdout_view().flags,
            r.agrees_except(&self, set![BuilderPart::Stdout]),
    {
        let s = StreamConfig { flags: self.stdout.flags, encoding };
        ProcessBuilder { stdout: s, ..self }
    }

    /// Sets the encoding of standard error.
    pub fn stderr_encoding(self, encoding: Encoding) -> (r: Self)
        ensures
            r.stderr_view().encoding == encoding,
            r.stderr_view().flags == self.stderr_view().flags,
            r.agrees_except(&self, set![BuilderPart::Stderr]),
    {
        let s = StreamConfig { flags: self.stderr.flags, encoding };
        ProcessBuilder { stderr: s, ..self }
    }

    /// Keeps standard output.
    pub fn capture_stdout(self) -> (r: Self)
        ensures
            r.stdout_view().flags.bits_of() == 4,
            r.stdout_view().encoding == self.stdout_view().encoding,
            r.agrees_except(&self, set![BuilderPart::Stdout]),
    {
        self.stdout_flags(StreamFlags::keep_in_string())
    }

    /// Keeps standard error.
    pub fn capture_stderr(self) -> (r: Self)
        ensures
            r.stderr_view().flags.bits_of() == 4,
            r.stderr_view().encoding == self.stderr_view().encoding,
            r.agrees_except(&self, set![BuilderPart::Stderr]),
    {
        self.stderr_flags(StreamFlags::keep_in_string())
    }

    /// Keeps both output streams.
    pub fn capture_output(self) -> (r: Self)
        ensures
            r.stdout_view().flags.bits_of() == 4,
            r.stderr_view().flags.bits_of() == 4,
            r.stdout_view().encoding == self.stdout_view().encoding,
            r.stderr_view().encoding == self.stderr_view().encoding,
            r.agrees_except(&self, set![BuilderPart::Stdout, BuilderPart::Stderr]),
    {
        self.capture_stdout().capture_stderr()
    }

    /// Discards both output streams.
    pub fn quiet(self) -> (r: Self)
        ensures
            r.stdout_view().flags.bits_of() == 2,
            r.stderr_view().flags.bits_of() == 2,
            r.stdout_view().encoding == self.stdout_view().encoding,
            r.stderr_view().encoding == self.stderr_view().encoding,
            r.agrees_except(&self, set![BuilderPart::Stdout, BuilderPart::Stderr]),
    {
        self.stdout_flags(StreamFlags::bit_bucket()).stderr_flags(StreamFlags::bit_bucket())
    }

    /// Lets the process use the caller's output streams.
    pub fn inherit_stdio(self) -> (r: Self)
        ensures
            r.stdout_view().flags.bits_of() == 8,
            r.stderr_view().flags.bits_of() == 8,
            r.stdout_view().encoding == self.stdout_view().encoding,
            r.stderr_view().encoding == self.stderr_view().encoding,
            r.agrees_except(&self, set![BuilderPart::Stdout, BuilderPart::Stderr]),
    {
        self.stdout_flags(StreamFlags::inherit()).stderr_flags(StreamFlags::inherit())
    }

    /// Sets the standard input to write.
    pub fn stdin(self, content: String) -> (r: Self)
        ensures
            r.stdin_view() == Some(content@),
            r.agrees_except(&self, set![BuilderPart::Stdin]),
    {
        ProcessBuilder { stdin: Some(content), ..self }
    }

    /// Sets the exit codes that count as success.
    pub fn success_codes(self, codes: Vec<i32>) -> (r: Self)
        ensures
            code_set_of(codes@, r.success_view()),
            r.agrees_except(&self, set![BuilderPart::SuccessCodes]),
    {
        let sorted = sorted_codes(&codes);
        ProcessBuilder { success_codes: sorted, ..self }
    }

    /// Sets the name shown for the process.
    pub fn name(self, name: &str) -> (r: Self)
        ensures
            r.name_view() == Some(name@),
            r.agrees_except(&self, set![BuilderPart::Name]),
    {
        ProcessBuilder { name: Some(owned(name)), ..self }
    }

    /// Sets the timeout.
    pub fn timeout(self, duration: std::time::Duration) -> (r: Self)
        ensures
            r.timeout_view() == Some(duration),
            r.agrees_except(&self, set![BuilderPart::Timeout]),
    {
        ProcessBuilder { timeout: Some(duration), ..self }
    }

    /// The program.
    pub fn program(&self) -> (r: &String)
        ensures
            r@ == self.program_view(),
    {
        &self.program
    }

    /// The arguments.
    pub fn args_slice(&self) -> (r: &Vec<String>)
        ensures
            views(r@) == self.args_view(),
    {
        &self.args
    }

    /// The working directory.
    pub fn working_dir(&self) -> (r: Option<&String>)
        ensures
            match r {
                Some(d) => self.cwd_view() == Some(d@),
                None => self.cwd_view() is None,
            },
    {
        match &self.cwd {
            Some(d) => Some(d),
            None => None,
        }
    }

    /// The environment that replaces the inherited one, if any.
    pub fn environment(&self) -> (r: Option<&Env>)
        ensures
            match r {
                Some(e) => self.env_view() == Some(*e),
                None => self.env_view() is None,
            },
    {
        match &self.env {
            Some(e) => Some(e),
            None => None,
        }
    }

    /// The process flags.
    pub fn process_flags(&self) -> (r: ProcessFlags)
        ensures
            r == self.flags_view(),
    {
        self.flags
    }

    /// How standard output is handled.
    pub fn stdout_config(&self) -> (r: StreamConfig)
        ensures
            r == self.stdout_view(),
    {
        self.stdout
    }

    /// How standard error is handled.
    pub fn stderr_config(&self) -> (r: StreamConfig)
        ensures
            r == self.stderr_view(),
    {
        self.stderr
    }

    /// The standard input to write, if any.
    pub fn stdin_content(&self) -> (r: Option<&String>)
        ensures
            match r {
                Some(s) => self.stdin_view() == Some(s@),
                None => self.stdin_view() is None,
            },
    {
        match &self.stdin {
            Some(s) => Some(s),
            None => None,
        }
    }

    /// The exit codes that count as success, sorted.
    pub fn success_code_set(&self) -> (r: &Vec<i32>)
        ensures
            r@ == self.success_view(),
    {
        &self.success_codes
    }

    /// The name shown for the process, if set.
    pub fn name_override(&self) -> (r: Option<&String>)
        ensures
            match r {
                Some(s) => self.name_view() == Some(s@),
                None => self.name_view() is None,
            },
    {
        match &self.name {
            Some(s) => Some(s),
            None => None,
        }
    }

    /// The timeout, if any.
    pub fn timeout_duration(&self) -> (r: Option<std::time::Duration>)
        ensures
            r == self.timeout_view(),
    {
        self.timeout
    }
}

/// `codes` sorted, without repeats.
pub fn sorted_codes(codes: &Vec<i32>) -> (r: Vec<i32>)
    ensures
        code_set_of(codes@, r@),
{
    let mut out: Vec<i32> = Vec::new();
    let mut i: usize = 0;
    while i < codes.len()
        invariant
            i <= codes@.len(),
            codes_sorted(out@),
            out@.to_set() == codes@.take(i as int).to_set(),
        decreases codes.len() - i,
    {
        let c = codes[i];
        let mut j: usize = 0;
        while j < out.len() && out[j] < c
            invariant
                j <= out@.len(),
                forall|k: int| 0 <= k < j ==> out@[k] < c,
            decreases out.len() - j,
        {
            j = j + 1;
        }
        let ghost before = out@;
        if j < out.len() && out[j] == c {
        } else {
            out.insert(j, c);
            proof {
                assert forall|a: int, b: int| 0 <= a < b < out@.len() implies out@[a] < out@[b] by {
                    if b < j {
                    } else if a < j && b == j {
                    } else if a < j {
                        assert(out@[b] == before[b - 1]);
                    } else if a == j {
                        assert(out@[b] == before[b - 1]);
                        if j < before.len() {
                            assert(before[j as int] > c);
                            if b - 1 > j {
                                assert(before[j as int] < before[b - 1]);
                            }
                        }
                    } else {
                        assert(out@[a] == before[a - 1]);
                        assert(out@[b] == before[b - 1]);
                    }
                }
                assert(out@.to_set() =~= before.to_set().insert(c)) by {
                    assert forall|x: i32| out@.to_set().contains(x) implies before.to_set().insert(c).contains(x) by {
                        let k = choose|k: int| 0 <= k < out@.len() && out@[k] == x;
                        if k < j {
                            assert(before[k] == x);
                        } else if k > j {
                            assert(before[k - 1] == x);
                        }
                    }
                    assert forall|x: i32| before.to_set().insert(c).contains(x) implies out@.to_set().contains(x) by {
                        if x == c {
                            assert(out@[j as int] == c);
                        } else {
                            let k = choose|k: int| 0 <= k < before.len() && before[k] == x;
                            if k < j {
                                assert(out@[k] == x);
                            } else {
                                assert(out@[k + 1] == x);
                            }
                        }
                    }
                }
            }
        }
        proof {
            let t0 = codes@.take(i as int);
            let t1 = codes@.take(i + 1);
            assert(t1 =~= t0.push(c));
            assert forall|x: i32| t1.to_set().contains(x) <==> t0.to_set().insert(c).contains(x) by {
                if t1.to_set().contains(x) {
                    let k = choose|k: int| 0 <= k < t1.len() && t1[k] == x;
                    if k < i {
                        assert(t0[k] == x);
                    }
                }
                if t0.to_set().contains(x) {
                    let k = choose|k: int| 0 <= k < t0.len() && t0[k] == x;
                    assert(t1[k] == x);
                }
                if x == c {
                    assert(t1[i as int] == c);
                }
            }
            assert(t1.to_set() =~= t0.to_set().insert(c));
            if j < before.len() && before[j as int] == c {
                assert(before.to_set().contains(c));
                assert(before.to_set().insert(c) =~= before.to_set());
            }
        }
        i = i + 1;
    }
    assert(codes@.take(codes@.len() as int) =~= codes@);
    out
}

} // verus!
