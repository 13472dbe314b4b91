//! Global options available for all commands.
//!
//! ```text
//! --ini FILE        ← Additional config files (can repeat)
//! --dry             ← Simulate filesystem ops
//! --log-level N     ← Console verbosity (0-6)
//! --file-log-level  ← File verbosity (overrides --log-level)
//! --destination DIR ← paths.prefix override
//! --set KEY=VAL     ← Direct config override
//!
//! Precedence: CLI flags > --set > --ini > defaults
//! ```

use vstd::prelude::*;

use crate::text::{concat2, dec, owned, u64_to_string, views};

verus! {

/// Global options available for all commands.
#[derive(Debug, Clone)]
pub struct GlobalOptions {
    /// Additional configuration files.
    pub inis: Vec<String>,
    /// Simulates filesystem operations.
    pub dry: bool,
    /// Console log level (0-6).
    pub log_level: Option<u8>,
    /// File log level, overrides `log_level` for the log file.
    pub file_log_level: Option<u8>,
    /// Path to log file.
    pub log_file: Option<String>,
    /// Base output directory.
    pub prefix: Option<String>,
    /// Options set as `key=value`.
    pub options: Vec<String>,
    /// Disables auto loading of INI files.
    pub no_default_inis: bool,
}

impl Default for GlobalOptions {
    fn default() -> (r: GlobalOptions)
        ensures
            r.inis@.len() == 0,
            !r.dry,
            r.log_level is None,
            r.file_log_level is None,
            r.log_file is None,
            r.prefix is None,
            r.options@.len() == 0,
            !r.no_default_inis,
    {
        GlobalOptions {
            inis: Vec::new(),
            dry: false,
            log_level: None,
            file_log_level: None,
            log_file: None,
            prefix: None,
            options: Vec::new(),
            no_default_inis: false,
        }
    }
}

/// `seq![s]` where `c` holds, nothing otherwise.
pub open spec fn line_if(c: bool, s: Seq<char>) -> Seq<Seq<char>> {
    if c {
        seq![s]
    } else {
        Seq::empty()
    }
}

/// The overrides the global options stand for: the `--set` options, then
/// the console and file log levels (the file level falls back to the
/// console level), the log file, `dry`, and the prefix.
pub open spec fn global_overrides(o: GlobalOptions) -> Seq<Seq<char>> {
    let file_level = match o.file_log_level {
        Some(l) => Some(l),
        None => o.log_level,
    };
    views(o.options@) + match o.log_level {
        Some(l) => seq!["global/output_log_level="@ + dec(l as nat)],
        None => Seq::empty(),
    } + match file_level {
        Some(l) => seq!["global/file_log_level="@ + dec(l as nat)],
        None => Seq::empty(),
    } + match o.log_file {
        Some(p) => seq!["global/log_file="@ + p@],
        None => Seq::empty(),
    } + line_if(o.dry, "global/dry=true"@) + match o.prefix {
        Some(p) => seq!["paths/prefix="@ + p@],
        None => Seq::empty(),
    }
}

fn push_line(out: &mut Vec<String>, line: String)
    ensures
        views(final(out)@) == views(old(out)@).push(line@),
{
    out.push(line);
    assert(views(out@) =~= views(old(out)@).push(line@));
}

impl GlobalOptions {
    /// Converts command-line options to configuration overrides.
    pub fn to_config_overrides(&self) -> (r: Vec<String>)
        ensures
            views(r@) == global_overrides(*self),
    {
        let mut out: Vec<String> = Vec::new();
        let mut i: usize = 0;
        while i < self.options.len()
            invariant
                i <= self.options@.len(),
                views(out@) == views(self.options@.take(i as int)),
            decreases self.options.len() - i,
        {
            push_line(&mut out, self.options[i].clone());
            assert(views(self.options@.take(i + 1)) =~= views(self.options@.take(i as int)).push(
                self.options@[i as int]@,
            ));
            i = i + 1;
        }
        assert(self.options@.take(self.options@.len() as int) =~= self.options@);
        match self.log_level {
            Some(l) => {
                let n = u64_to_string(l as u64);
                push_line(&mut out, concat2("global/output_log_level=", n.as_str()));
            },
            None => {},
        }
        let file_level = match self.file_log_level {
            Some(l) => Some(l),
            None => self.log_level,
        };
        match file_level {
            Some(l) => {
                let n = u64_to_string(l as u64);
                push_line(&mut out, concat2("global/file_log_level=", n.as_str()));
            },
            None => {},
        }
        match &self.log_file {
            Some(p) => push_line(&mut out, concat2("global/log_file=", p.as_str())),
            None => {},
        }
        if self.dry {
            push_line(&mut out, owned("global/dry=true"));
        }
        match &self.prefix {
            Some(p) => push_line(&mut out, concat2("paths/prefix=", p.as_str())),
            None => {},
        }
        assert(views(out@) =~= global_overrides(*self));
        out
    }
}

} // verus!
