//! What the configuration commands print.

use vstd::prelude::*;

use crate::cli::cmake::{CmakeConfigArgs, CmakeVariable};
use crate::config::paths::prefix_path_parts;
use crate::config::Config;
use crate::config::paths::list_separator_of;
use crate::text::{join_seq, opt_view, owned, views};

verus! {

/// The lines `inis` prints: each configuration file loaded, or a note that
/// none was.
pub fn inis_lines(config_files: &Vec<String>) -> (r: Vec<String>)
    ensures
        config_files@.len() == 0 ==> views(r@) == seq!["No configuration files loaded"@],
        config_files@.len() > 0 ==> views(r@) == views(config_files@),
{
    if config_files.len() == 0 {
        let mut r: Vec<String> = Vec::new();
        r.push(owned("No configuration files loaded"));
        assert(views(r@) =~= seq!["No configuration files loaded"@]);
        return r;
    }
    let mut r: Vec<String> = Vec::new();
    let mut i: usize = 0;
    while i < config_files.len()
        invariant
            i <= config_files@.len(),
            views(r@) == views(config_files@).take(i as int),
        decreases config_files.len() - i,
    {
        let ghost prev = views(r@);
        r.push(config_files[i].clone());
        assert(views(r@) =~= prev.push(config_files@[i as int]@));
        assert(views(config_files@).take(i + 1) =~= views(config_files@).take(i as int).push(config_files@[i as int]@));
        i = i + 1;
    }
    assert(views(config_files@).take(config_files@.len() as int) =~= views(config_files@));
    r
}

/// What `cmake-config` prints: `CMAKE_PREFIX_PATH`, or the install prefix,
/// which fails when `paths.install` is not set.
pub fn cmake_config_output(args: &CmakeConfigArgs, config: &Config) -> (r: Result<String, String>)
    ensures
        args.variable == CmakeVariable::PrefixPath ==> (r matches Ok(s) && exists|sep: char|
            (sep == '/' || sep == '\\') && s@ == join_seq(prefix_path_parts(config.paths), list_separator_of(sep))),
        args.variable == CmakeVariable::InstallPrefix ==> match config.paths.install {
            Some(p) => r matches Ok(s) && s@ == p@,
            None => r matches Err(e) && e@ == "paths.install not configured"@,
        },
{
    match args.variable {
        CmakeVariable::PrefixPath => Ok(config.paths.cmake_prefix_path()),
        CmakeVariable::InstallPrefix => match config.paths.cmake_install_prefix() {
            Some(p) => {
                assert(opt_view(config.paths.install) == Some(p@));
                Ok(p)
            },
            None => Err(owned("paths.install not configured")),
        },
    }
}

} // verus!
