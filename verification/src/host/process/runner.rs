//! The decisions taken around running a process: the name it is shown
//! under, its command line, which streams are read, what is kept, and
//! whether its exit code is a failure.

use vstd::prelude::*;

use super::builder::{ProcessBuilder, ProcessFlags, ProcessOutput, StreamFlags};
use crate::path::{file_stem, file_stem_of, main_separator};
use crate::text::{contains_char, dec_int, has_char, i128_to_string, join, join_seq, owned, views};

verus! {

/// The name a process is shown under: the name set for it, else the stem
/// of its program, else `process`.
pub open spec fn display_name_text(b: ProcessBuilder, sep: char) -> Seq<char> {
    match b.name_view() {
        Some(n) => n,
        None => match file_stem(b.program_view(), sep) {
            Some(s) => s,
            None => "process"@,
        },
    }
}

/// One argument on a command line: after a space, in double quotes when it
/// holds a space.
pub open spec fn quoted_arg(a: Seq<char>) -> Seq<char> {
    if has_char(a, ' ') {
        " \""@ + a + "\""@
    } else {
        " "@ + a
    }
}

/// The arguments as they follow the program on a command line.
pub open spec fn args_text(args: Seq<Seq<char>>) -> Seq<char>
    decreases args.len(),
{
    if args.len() == 0 {
        Seq::empty()
    } else {
        args_text(args.drop_last()) + quoted_arg(args.last())
    }
}

/// The set of success codes as `{0, 1}`.
pub open spec fn codes_text(codes: Seq<i32>) -> Seq<char> {
    "{"@ + join_seq(codes.map_values(|c: i32| dec_int(c as int)), ", "@) + "}"@
}

/// How an output stream of the child is connected.
#[derive(Debug, Clone, Copy, PartialEq, Eq, Structural)]
pub enum StdioChoice {
    /// The caller's own stream.
    Inherit,
    /// Discarded.
    Null,
    /// A pipe that is read.
    Piped,
}

/// How a stream with `flags` is connected: inherited, discarded, or piped.
pub open spec fn stdio_choice(flags: StreamFlags) -> StdioChoice {
    if flags.bits_of() & 8 == 8 {
        StdioChoice::Inherit
    } else if flags.bits_of() & 2 == 2 {
        StdioChoice::Null
    } else {
        StdioChoice::Piped
    }
}

/// How a stream with `flags` is connected.
pub fn stdio_from_flags(flags: StreamFlags) -> (r: StdioChoice)
    ensures
        r == stdio_choice(flags),
{
    if flags.contains(StreamFlags::inherit()) {
        StdioChoice::Inherit
    } else if flags.contains(StreamFlags::bit_bucket()) {
        StdioChoice::Null
    } else {
        StdioChoice::Piped
    }
}

/// Whether a stream with `flags` is read: when it is logged or kept.
pub fn reads_stream(flags: StreamFlags) -> (r: bool)
    ensures
        r == (flags.bits_of() & 5 != 0),
{
    let both = StreamFlags::forward_to_log().union(StreamFlags::keep_in_string());
    assert(1u32 | 4u32 == 5u32) by (bit_vector);
    flags.intersects(both)
}

/// The output kept from a stream: its lines joined by newlines when the
/// stream is kept, nothing otherwise.
pub fn collect_output(lines: &Vec<String>, flags: StreamFlags) -> (r: String)
    ensures
        r@ == if flags.bits_of() & 4 == 4 {
            join_seq(views(lines@), "\n"@)
        } else {
            Seq::empty()
        },
{
    if !flags.contains(StreamFlags::keep_in_string()) {
        return String::new();
    }
    join(lines, "\n")
}

impl ProcessBuilder {
    /// The name the process is shown under.
    pub fn display_name(&self) -> (r: String)
        ensures
            exists|sep: char| (sep == '/' || sep == '\\') && r@ == display_name_text(*self, sep),
    {
        let sep = main_separator();
        let r = match self.name_override() {
            Some(n) => n.clone(),
            None => match file_stem_of(self.program().as_str(), sep) {
                Some(s) => s,
                None => owned("process"),
            },
        };
        assert(r@ == display_name_text(*self, sep));
        r
    }

    /// The command line as shown in the log: the program, then each
    /// argument after a space, quoted when it holds a space.
    pub fn command_line(&self) -> (r: String)
        ensures
            r@ == self.program_view() + args_text(self.args_view()),
    {
        let mut cmd = self.program().clone();
        let args = self.args_slice();
        let mut i: usize = 0;
        while i < args.len()
            invariant
                i <= args@.len(),
                views(args@) == self.args_view(),
                cmd@ == self.program_view() + args_text(views(args@).take(i as int)),
            decreases args.len() - i,
        {
            proof {
                assert(views(args@).take(i + 1).drop_last() =~= views(args@).take(i as int));
            }
            let a = args[i].as_str();
            if contains_char(a, ' ') {
                cmd.append(" \"");
                cmd.append(a);
                cmd.append("\"");
            } else {
                cmd.append(" ");
                cmd.append(a);
            }
            i = i + 1;
        }
        proof {
            assert(views(args@).take(args@.len() as int) =~= views(args@));
        }
        cmd
    }

    /// Whether the exit of a finished process is a failure, and if so the
    /// message: an interrupted run never is, and with `ALLOW_FAILURE` no exit
    /// is; otherwise an exit code outside the success codes is.
    pub fn exit_failure(&self, name: &str, output: &ProcessOutput) -> (r: Option<String>)
        ensures
            r is Some <==> (!output.was_interrupted() && self.flags_view().bits_of() & 1 != 1
                && !self.success_view().contains(output.code())),
            r matches Some(m) ==> m@ == name@ + " exited with code "@ + dec_int(output.code() as int)
                + " (expected one of "@ + codes_text(self.success_view()) + ")"@,
    {
        if output.is_interrupted() {
            return None;
        }
        if self.process_flags().contains(ProcessFlags::allow_failure()) {
            return None;
        }
        let codes = self.success_code_set();
        let code = output.exit_code();
        let mut i: usize = 0;
        while i < codes.len()
            invariant
                i <= codes@.len(),
                codes@ == self.success_view(),
                code == output.code(),
                forall|j: int| 0 <= j < i ==> codes@[j] != code,
            decreases codes.len() - i,
        {
            if codes[i] == code {
                assert(self.success_view()[i as int] == code);
                return None;
            }
            i = i + 1;
        }
        let mut texts: Vec<String> = Vec::new();
        let mut j: usize = 0;
        while j < codes.len()
            invariant
                j <= codes@.len(),
                views(texts@) == codes@.take(j as int).map_values(|c: i32| dec_int(c as int)),
            decreases codes.len() - j,
        {
            let ghost prev = texts@;
            texts.push(i128_to_string(codes[j] as i128));
            proof {
                assert(views(texts@) =~= views(prev).push(dec_int(codes@[j as int] as int)));
                assert(codes@.take(j + 1).map_values(|c: i32| dec_int(c as int)) =~= codes@.take(
                    j as int,
                ).map_values(|c: i32| dec_int(c as int)).push(dec_int(codes@[j as int] as int)));
            }
            j = j + 1;
        }
        proof {
            assert(codes@.take(codes@.len() as int) =~= codes@);
        }
        let list = join(&texts, ", ");
        let mut m = owned(name);
        m.append(" exited with code ");
        let c = i128_to_string(code as i128);
        m.append(c.as_str());
        m.append(" (expected one of ");
        m.append("{");
        m.append(list.as_str());
        m.append("}");
        m.append(")");
        Some(m)
    }
}

} // verus!
