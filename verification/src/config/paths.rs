//! Path configuration.
//!
//! ```text
//! prefix/
//!   downloads/   (cache)
//!   build/
//!   install/
//!     bin/       (stylesheets, licenses, translations)
//!     lib/
//!     pdb/
//!     installer/
//! ```
//!
//! All paths are optional and resolved from `prefix` if not set.

use vstd::prelude::*;

use crate::error::ConfigError;
use crate::path::{absolute, is_absolute, join_with, main_separator, path_join};
use crate::text::{join, opt_view, owned, views};

verus! {

/// Build and installation paths configuration.
#[derive(Debug)]
pub struct PathsConfig {
    /// Main build prefix (all other paths relative to this).
    pub prefix: Option<String>,
    /// Download cache directory (default: prefix/downloads).
    pub cache: Option<String>,
    /// Licenses directory.
    pub licenses: Option<String>,
    /// Build directory (default: prefix/build).
    pub build: Option<String>,
    /// Installation root (default: prefix/install).
    pub install: Option<String>,
    /// Binary installation directory (default: install/bin).
    pub install_bin: Option<String>,
    /// Installer output directory (default: install/installer).
    pub install_installer: Option<String>,
    /// Library installation directory (default: install/lib).
    pub install_libs: Option<String>,
    /// PDB installation directory (default: install/pdb).
    pub install_pdbs: Option<String>,
    /// Stylesheet installation directory (default: `install_bin/stylesheets`).
    pub install_stylesheets: Option<String>,
    /// License installation directory (default: `install_bin/licenses`).
    pub install_licenses: Option<String>,
    /// Translation installation directory (default: `install_bin/translations`).
    pub install_translations: Option<String>,
    /// vcpkg installation path.
    pub vcpkg: Option<String>,
    /// Qt installation directory.
    pub qt_install: Option<String>,
    /// Qt bin directory (default: `qt_install/bin`).
    pub qt_bin: Option<String>,
    /// Qt translations directory (default: `qt_install/translations`).
    pub qt_translations: Option<String>,
}

impl Default for PathsConfig {
    fn default() -> (r: PathsConfig)
        ensures
            r.all_unset(),
    {
        PathsConfig {
            prefix: None,
            cache: None,
            licenses: None,
            build: None,
            install: None,
            install_bin: None,
            install_installer: None,
            install_libs: None,
            install_pdbs: None,
            install_stylesheets: None,
            install_licenses: None,
            install_translations: None,
            vcpkg: None,
            qt_install: None,
            qt_bin: None,
            qt_translations: None,
        }
    }
}

/// A path setting after resolution against `parent`: a relative path is
/// joined to `parent`, a missing one becomes `parent` joined with `default`,
/// and an absolute one stays.
pub open spec fn resolved(o: Option<Seq<char>>, parent: Seq<char>, default: Seq<char>, sep: char) -> Option<Seq<char>> {
    match o {
        Some(p) => if is_absolute(p, sep) {
            Some(p)
        } else {
            Some(path_join(parent, p, sep))
        },
        None => Some(path_join(parent, default, sep)),
    }
}

/// The path in `o`, or `fallback` where it is unset.
pub open spec fn or_path(o: Option<Seq<char>>, fallback: Seq<char>) -> Seq<char> {
    match o {
        Some(p) => p,
        None => fallback,
    }
}

/// The paths of `o` that `CMAKE_PREFIX_PATH` lists, in order: Qt, vcpkg and
/// the installed libraries, where set.
pub open spec fn prefix_path_parts(c: PathsConfig) -> Seq<Seq<char>> {
    let a = match opt_view(c.qt_install) {
        Some(p) => seq![p],
        None => Seq::empty(),
    };
    let b = match opt_view(c.vcpkg) {
        Some(p) => seq![p],
        None => Seq::empty(),
    };
    let d = match opt_view(c.install_libs) {
        Some(p) => seq![p],
        None => Seq::empty(),
    };
    a + b + d
}

fn resolve_one(path: &mut Option<String>, parent: &str, default: &str, sep: char)
    ensures
        opt_view(*final(path)) == resolved(opt_view(*old(path)), parent@, default@, sep),
{
    let cur = path.take();
    match cur {
        Some(p) => {
            if absolute(p.as_str(), sep) {
                *path = Some(p);
            } else {
                *path = Some(join_with(parent, p.as_str(), sep));
            }
        },
        None => {
            *path = Some(join_with(parent, default, sep));
        },
    }
}

/// The separator of path lists on a platform whose main path separator is
/// `sep`: `;` on Windows (`\\`), `:` elsewhere.
pub open spec fn list_separator_of(sep: char) -> Seq<char> {
    if sep == '\\' {
        ";"@
    } else {
        ":"@
    }
}

impl PathsConfig {
    /// No path is set.
    pub open spec fn all_unset(&self) -> bool {
        &&& self.prefix is None
        &&& self.cache is None
        &&& self.licenses is None
        &&& self.build is None
        &&& self.install is None
        &&& self.install_bin is None
        &&& self.install_installer is None
        &&& self.install_libs is None
        &&& self.install_pdbs is None
        &&& self.install_stylesheets is None
        &&& self.install_licenses is None
        &&& self.install_translations is None
        &&& self.vcpkg is None
        &&& self.qt_install is None
        &&& self.qt_bin is None
        &&& self.qt_translations is None
    }

    /// `r` is `o` with every path resolved against the prefix `prefix` on a
    /// platform whose main separator is `sep`.
    pub open spec fn is_resolution(r: PathsConfig, o: PathsConfig, prefix: Seq<char>, sep: char) -> bool {
        let install = or_path(
            resolved(opt_view(o.install), prefix, "install"@, sep),
            path_join(prefix, "install"@, sep),
        );
        let install_bin = or_path(
            resolved(opt_view(o.install_bin), install, "bin"@, sep),
            path_join(install, "bin"@, sep),
        );
        &&& opt_view(r.prefix) == opt_view(o.prefix)
        &&& opt_view(r.cache) == resolved(opt_view(o.cache), prefix, "downloads"@, sep)
        &&& opt_view(r.build) == resolved(opt_view(o.build), prefix, "build"@, sep)
        &&& opt_view(r.install) == resolved(opt_view(o.install), prefix, "install"@, sep)
        &&& opt_view(r.install_installer) == resolved(opt_view(o.install_installer), install, "installer"@, sep)
        &&& opt_view(r.install_bin) == resolved(opt_view(o.install_bin), install, "bin"@, sep)
        &&& opt_view(r.install_libs) == resolved(opt_view(o.install_libs), install, "lib"@, sep)
        &&& opt_view(r.install_pdbs) == resolved(opt_view(o.install_pdbs), install, "pdb"@, sep)
        &&& opt_view(r.install_stylesheets) == resolved(
            opt_view(o.install_stylesheets),
            install_bin,
            "stylesheets"@,
            sep,
        )
        &&& opt_view(r.install_licenses) == resolved(opt_view(o.install_licenses), install_bin, "licenses"@, sep)
        &&& opt_view(r.install_translations) == resolved(
            opt_view(o.install_translations),
            install_bin,
            "translations"@,
            sep,
        )
        &&& opt_view(r.licenses) == opt_view(o.licenses)
        &&& opt_view(r.vcpkg) == opt_view(o.vcpkg)
        &&& opt_view(r.qt_install) == opt_view(o.qt_install)
        &&& match opt_view(o.qt_install) {
            Some(qt) => {
                &&& opt_view(r.qt_bin) == resolved(opt_view(o.qt_bin), qt, "bin"@, sep)
                &&& opt_view(r.qt_translations) == resolved(opt_view(o.qt_translations), qt, "translations"@, sep)
            },
            None => {
                &&& opt_view(r.qt_bin) == opt_view(o.qt_bin)
                &&& opt_view(r.qt_translations) == opt_view(o.qt_translations)
            },
        }
    }

    /// Resolve all relative paths against the prefix and fill in defaults, on
    /// a platform whose main separator is `sep`.
    ///
    /// # Errors
    ///
    /// Returns `ConfigError::MissingKey` for `paths.prefix`, and changes
    /// nothing, if the prefix is not set.
    pub fn resolve_with(&mut self, sep: char) -> (r: Result<(), ConfigError>)
        ensures
            match opt_view(old(self).prefix) {
                Some(prefix) => r is Ok && PathsConfig::is_resolution(*final(self), *old(self), prefix, sep),
                None => {
                    &&& r matches Err(ConfigError::MissingKey { section, key })
                    &&& section@ == "paths"@
                    &&& key@ == "prefix"@
                    &&& *final(self) == *old(self)
                },
            },
    {
        let prefix = match &self.prefix {
            Some(p) => p.clone(),
            None => {
                return Err(ConfigError::missing_key("paths", "prefix"));
            },
        };
        resolve_one(&mut self.cache, prefix.as_str(), "downloads", sep);
        resolve_one(&mut self.build, prefix.as_str(), "build", sep);
        resolve_one(&mut self.install, prefix.as_str(), "install", sep);
        let install = match &self.install {
            Some(p) => p.clone(),
            None => join_with(prefix.as_str(), "install", sep),
        };
        resolve_one(&mut self.install_installer, install.as_str(), "installer", sep);
        resolve_one(&mut self.install_bin, install.as_str(), "bin", sep);
        resolve_one(&mut self.install_libs, install.as_str(), "lib", sep);
        resolve_one(&mut self.install_pdbs, install.as_str(), "pdb", sep);
        let install_bin = match &self.install_bin {
            Some(p) => p.clone(),
            None => join_with(install.as_str(), "bin", sep),
        };
        resolve_one(&mut self.install_stylesheets, install_bin.as_str(), "stylesheets", sep);
        resolve_one(&mut self.install_licenses, install_bin.as_str(), "licenses", sep);
        resolve_one(&mut self.install_translations, install_bin.as_str(), "translations", sep);
        match &self.qt_install {
            Some(qt) => {
                let qt_install = qt.clone();
                resolve_one(&mut self.qt_bin, qt_install.as_str(), "bin", sep);
                resolve_one(&mut self.qt_translations, qt_install.as_str(), "translations", sep);
            },
            None => {},
        }
        Ok(())
    }

    /// Resolve all relative paths against the prefix and fill in defaults,
    /// with the platform's path separator.
    ///
    /// # Errors
    ///
    /// Returns `ConfigError::MissingKey` for `paths.prefix`, and changes
    /// nothing, if the prefix is not set.
    pub fn resolve(&mut self) -> (r: Result<(), ConfigError>)
        ensures
            match opt_view(old(self).prefix) {
                Some(prefix) => r is Ok && exists|sep: char|
                    (sep == '/' || sep == '\\') && PathsConfig::is_resolution(*final(self), *old(self), prefix, sep),
                None => {
                    &&& r matches Err(ConfigError::MissingKey { section, key })
                    &&& section@ == "paths"@
                    &&& key@ == "prefix"@
                    &&& *final(self) == *old(self)
                },
            },
    {
        let sep = main_separator();
        self.resolve_with(sep)
    }

    /// The prefix path.
    ///
    /// # Errors
    ///
    /// Returns `ConfigError::MissingKey` for `paths.prefix` if it is not set.
    pub fn prefix(&self) -> (r: Result<&String, ConfigError>)
        ensures
            match self.prefix {
                Some(p) => r == Ok::<&String, ConfigError>(&p),
                None => r matches Err(ConfigError::MissingKey { section, key }) && section@ == "paths"@
                    && key@ == "prefix"@,
            },
    {
        match &self.prefix {
            Some(p) => Ok(p),
            None => Err(ConfigError::missing_key("paths", "prefix")),
        }
    }

    /// The `CMAKE_PREFIX_PATH` value: the Qt, vcpkg and library paths that
    /// are set, joined by `list_sep`.
    pub fn cmake_prefix_path_with(&self, list_sep: &str) -> (r: String)
        ensures
            r@ == crate::text::join_seq(prefix_path_parts(*self), list_sep@),
    {
        let mut parts: Vec<String> = Vec::new();
        match &self.qt_install {
            Some(p) => parts.push(p.clone()),
            None => {},
        }
        match &self.vcpkg {
            Some(p) => parts.push(p.clone()),
            None => {},
        }
        match &self.install_libs {
            Some(p) => parts.push(p.clone()),
            None => {},
        }
        assert(views(parts@) =~= prefix_path_parts(*self));
        join(&parts, list_sep)
    }

    /// The `CMAKE_PREFIX_PATH` value: the Qt, vcpkg and library paths that
    /// are set, joined by the platform's list separator (`;` on Windows,
    /// `:` elsewhere).
    pub fn cmake_prefix_path(&self) -> (r: String)
        ensures
            exists|sep: char|
                (sep == '/' || sep == '\\') && r@ == crate::text::join_seq(prefix_path_parts(*self), list_separator_of(sep)),
    {
        let sep = crate::path::main_separator();
        let r = if sep == '\\' {
            self.cmake_prefix_path_with(";")
        } else {
            self.cmake_prefix_path_with(":")
        };
        assert(r@ == crate::text::join_seq(prefix_path_parts(*self), list_separator_of(sep)));
        r
    }

    /// The `CMAKE_INSTALL_PREFIX` value: the install path, if set.
    pub fn cmake_install_prefix(&self) -> (r: Option<String>)
        ensures
            opt_view(r) == opt_view(self.install),
    {
        match &self.install {
            Some(p) => Some(p.clone()),
            None => None,
        }
    }
}

} // verus!
