//! The decisions of the `tx` command: what `tx get` needs before it runs,
//! the runs of the Transifex client it makes, and where `tx build` reads
//! from.

use vstd::prelude::*;

use crate::cli::tx::TxGetArgs;
use crate::config::Config;
use crate::path::{join_with, main_separator, path_join};
use crate::text::{concat2, concat3, dec, owned, u64_to_string, views};

verus! {

/// What `tx get` lacks.
#[derive(Debug, Clone, Copy, PartialEq, Eq, Structural)]
pub enum TxGetError {
    /// No API key was given.
    MissingKey,
    /// No team was given.
    MissingTeam,
    /// No project was given.
    MissingProject,
}

impl TxGetError {
    /// The line shown to the user.
    pub fn hint(&self) -> (r: String)
        ensures
            *self == TxGetError::MissingKey ==> r@
                == "TX API key required (use -k/--key or TX_TOKEN environment variable)"@,
            *self == TxGetError::MissingTeam ==> r@ == "Transifex team required (use -t/--team)"@,
            *self == TxGetError::MissingProject ==> r@ == "Transifex project required (use -p/--project)"@,
    {
        match self {
            TxGetError::MissingKey => owned("TX API key required (use -k/--key or TX_TOKEN environment variable)"),
            TxGetError::MissingTeam => owned("Transifex team required (use -t/--team)"),
            TxGetError::MissingProject => owned("Transifex project required (use -p/--project)"),
        }
    }

    /// The error the command ends with.
    pub fn message(&self) -> (r: String)
        ensures
            *self == TxGetError::MissingKey ==> r@ == "transifex api key missing"@,
            *self == TxGetError::MissingTeam ==> r@ == "transifex team missing"@,
            *self == TxGetError::MissingProject ==> r@ == "transifex project missing"@,
    {
        match self {
            TxGetError::MissingKey => owned("transifex api key missing"),
            TxGetError::MissingTeam => owned("transifex team missing"),
            TxGetError::MissingProject => owned("transifex project missing"),
        }
    }
}

/// What `tx get` does: initialise the directory `path`, configure it with
/// `key` and `url`, pull translations at least `minimum` percent done.
#[derive(Debug, Clone)]
pub struct TxGetPlan {
    /// The API key.
    pub key: String,
    /// The project address.
    pub url: String,
    /// The least translation percentage pulled.
    pub minimum: u8,
    /// Whether every file is pulled again.
    pub force: bool,
    /// The directory that holds `.tx`.
    pub path: String,
}

/// What `tx get` does with `args`: it needs a key, a team and a project
/// (checked in that order); the address is the one given, else
/// `<transifex.url>/<team>/<project>`; the minimum is 100 unless given.
pub fn tx_get_plan(args: &TxGetArgs, config: &Config) -> (r: Result<TxGetPlan, TxGetError>)
    ensures
        args.key is None ==> r == Err::<TxGetPlan, TxGetError>(TxGetError::MissingKey),
        args.key is Some && args.team is None ==> r == Err::<TxGetPlan, TxGetError>(TxGetError::MissingTeam),
        args.key is Some && args.team is Some && args.project is None ==> r == Err::<TxGetPlan, TxGetError>(
            TxGetError::MissingProject,
        ),
        r matches Ok(p) ==> {
            &&& args.key matches Some(k) && p.key@ == k@
            &&& args.team matches Some(t) && args.project matches Some(q) && p.url@ == match args.url {
                Some(u) => u@,
                None => config.transifex.url@ + "/"@ + t@ + "/"@ + q@,
            }
            &&& p.minimum == match args.minimum {
                Some(m) => m,
                None => 100u8,
            }
            &&& p.force == args.force
            &&& p.path@ == args.path@
        },
        (args.key is Some && args.team is Some && args.project is Some) ==> r is Ok,
{
    let key = match &args.key {
        Some(k) => k.clone(),
        None => return Err(TxGetError::MissingKey),
    };
    let team = match &args.team {
        Some(t) => t,
        None => return Err(TxGetError::MissingTeam),
    };
    let project = match &args.project {
        Some(p) => p,
        None => return Err(TxGetError::MissingProject),
    };
    let url = match &args.url {
        Some(u) => u.clone(),
        None => {
            let mut u = concat3(config.transifex.url.as_str(), "/", team.as_str());
            u.append("/");
            u.append(project.as_str());
            u
        },
    };
    let minimum = match args.minimum {
        Some(m) => m,
        None => 100u8,
    };
    Ok(TxGetPlan { key, url, minimum, force: args.force, path: args.path.clone() })
}

/// The `.tx` and `translations` directories under the source of `tx build`.
pub fn tx_build_dirs(source: &str) -> (r: (String, String))
    ensures
        exists|sep: char|
            (sep == '/' || sep == '\\') && r.0@ == path_join(source@, ".tx"@, sep) && r.1@ == path_join(
                source@,
                "translations"@,
                sep,
            ),
{
    let sep = main_separator();
    (join_with(source, ".tx", sep), join_with(source, "translations", sep))
}

/// Where `tx build` reads from: the `translations` directory when it and
/// `.tx` both exist, else the source given.
pub fn tx_build_source(source: &str, translations: &str, both_exist: bool) -> (r: String)
    ensures
        r@ == if both_exist {
            translations@
        } else {
            source@
        },
{
    if both_exist {
        owned(translations)
    } else {
        owned(source)
    }
}

/// The run of the Transifex client that sets up `.tx` in the working
/// directory: `tx init`.
pub fn tx_init_args() -> (r: Vec<String>)
    ensures
        views(r@) == seq!["init"@],
{
    let r = vec![owned("init")];
    assert(views(r@) =~= seq!["init"@]);
    r
}

/// The run that adds the project at `url`: `tx add remote <url>`.
pub fn tx_add_remote_args(url: &str) -> (r: Vec<String>)
    ensures
        views(r@) == seq!["add"@, "remote"@, url@],
{
    let r = vec![owned("add"), owned("remote"), owned(url)];
    assert(views(r@) =~= seq!["add"@, "remote"@, url@]);
    r
}

/// The arguments of the run that pulls every resource translated at least
/// `minimum` percent, every file again with `force`.
pub open spec fn tx_pull_spec(minimum: u8, force: bool) -> Seq<Seq<char>> {
    seq!["pull"@, "--all"@, "--minimum-perc="@ + dec(minimum as nat)] + if force {
        seq!["--force"@]
    } else {
        Seq::empty()
    }
}

/// The run that pulls the translations: `tx pull --all
/// --minimum-perc=<minimum>`, with `--force` where asked.
pub fn tx_pull_args(minimum: u8, force: bool) -> (r: Vec<String>)
    ensures
        views(r@) == tx_pull_spec(minimum, force),
{
    let n = u64_to_string(minimum as u64);
    let mut r = vec![owned("pull"), owned("--all"), concat2("--minimum-perc=", n.as_str())];
    if force {
        r.push(owned("--force"));
    }
    assert(views(r@) =~= tx_pull_spec(minimum, force));
    r
}

} // verus!
