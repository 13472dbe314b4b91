//! Arguments of the `release` command.
//!
//! ```text
//! devbuild:
//! --bin/--no-bin, --pdbs/--no-pdbs, --src/--no-src
//! --version X.Y.Z, --suffix "-beta"
//! official:
//! --bin/--pdbs/--src, --inst
//! ```

use vstd::prelude::*;

verus! {

/// Arguments for the `release` command.
#[derive(Debug, Clone)]
pub struct ReleaseArgs {
    /// Release mode (devbuild or official).
    pub mode: ReleaseMode,
}

/// Release mode variants.
#[derive(Debug, Clone)]
pub enum ReleaseMode {
    /// Create a development build release.
    Devbuild(DevbuildArgs),
    /// Create an official release.
    Official(OfficialArgs),
}

/// Arguments for a devbuild release.
#[derive(Debug, Clone, Default)]
pub struct DevbuildArgs {
    /// Output selection toggles.
    pub outputs: ReleaseOutputArgs,
    /// Version source selection.
    pub version_source: VersionSourceArgs,
    /// Overrides the path to version.rc.
    pub rc_path: Option<String>,
    /// Overrides the version string.
    pub version: Option<String>,
    /// Sets the output directory to use instead of `$prefix/releases`.
    pub output_dir: Option<String>,
    /// Optional suffix to add to the archive filenames.
    pub suffix: Option<String>,
    /// Ignores file size warnings and existing release directories.
    pub force: bool,
}

impl DevbuildArgs {
    /// Whether the binary archive is created.
    pub fn create_bin(&self) -> (r: bool)
        ensures
            r == (!self.outputs.bin.no_bin && self.outputs.bin.bin),
    {
        !self.outputs.bin.no_bin && self.outputs.bin.bin
    }

    /// Whether the PDB archive is created.
    pub fn create_pdbs(&self) -> (r: bool)
        ensures
            r == (!self.outputs.pdbs.no_pdbs && self.outputs.pdbs.pdbs),
    {
        !self.outputs.pdbs.no_pdbs && self.outputs.pdbs.pdbs
    }

    /// Whether the source archive is created.
    pub fn create_src(&self) -> (r: bool)
        ensures
            r == (!self.outputs.src.no_src && self.outputs.src.src),
    {
        !self.outputs.src.no_src && self.outputs.src.src
    }

    /// Whether the installer is copied.
    pub fn copy_installer(&self) -> (r: bool)
        ensures
            r == (self.outputs.installer.installer && !self.outputs.installer.no_installer),
    {
        self.outputs.installer.installer && !self.outputs.installer.no_installer
    }
}

/// Arguments for an official release.
#[derive(Debug, Clone)]
pub struct OfficialArgs {
    /// Use this branch in the super repos.
    pub branch: String,
    /// Sets the output directory to use instead of `$prefix/releases`.
    pub output_dir: Option<String>,
    /// Output selection toggles.
    pub outputs: OfficialOutputArgs,
    /// Ignores file size warnings and existing release directories.
    pub force: bool,
}

impl OfficialArgs {
    /// Whether the binary archive is created.
    pub fn create_bin(&self) -> (r: bool)
        ensures
            r == (!self.outputs.bin.no_bin && self.outputs.bin.bin),
    {
        !self.outputs.bin.no_bin && self.outputs.bin.bin
    }

    /// Whether the PDB archive is created.
    pub fn create_pdbs(&self) -> (r: bool)
        ensures
            r == (!self.outputs.pdbs.no_pdbs && self.outputs.pdbs.pdbs),
    {
        !self.outputs.pdbs.no_pdbs && self.outputs.pdbs.pdbs
    }

    /// Whether the installer is built and copied.
    pub fn build_installer(&self) -> (r: bool)
        ensures
            r == !self.outputs.installer.no_installer,
    {
        !self.outputs.installer.no_installer
    }
}

/// Release output toggles for devbuild.
#[derive(Debug, Clone, Copy, Default)]
pub struct ReleaseOutputArgs {
    /// Binary archive output toggle.
    pub bin: BinaryOutputArgs,
    /// PDB archive output toggle.
    pub pdbs: PdbOutputArgs,
    /// Source archive output toggle.
    pub src: SrcOutputArgs,
    /// Installer output toggle.
    pub installer: InstallerOutputArgs,
}

/// Release output toggles for official builds.
#[derive(Debug, Clone, Copy, Default)]
pub struct OfficialOutputArgs {
    /// Binary archive output toggle.
    pub bin: BinaryOutputArgs,
    /// PDB archive output toggle.
    pub pdbs: PdbOutputArgs,
    /// Installer output toggle.
    pub installer: OfficialInstallerArgs,
}

/// Binary output toggle.
#[derive(Debug, Clone, Copy, Default)]
pub struct BinaryOutputArgs {
    /// Create the binary archive.
    pub bin: bool,
    /// Don't create the binary archive.
    pub no_bin: bool,
}

/// PDB output toggle.
#[derive(Debug, Clone, Copy, Default)]
pub struct PdbOutputArgs {
    /// Create the PDBs archive.
    pub pdbs: bool,
    /// Don't create the PDBs archive.
    pub no_pdbs: bool,
}

/// Source output toggle.
#[derive(Debug, Clone, Copy, Default)]
pub struct SrcOutputArgs {
    /// Create the source archive.
    pub src: bool,
    /// Don't create the source archive.
    pub no_src: bool,
}

/// Installer output toggle for devbuild.
#[derive(Debug, Clone, Copy, Default)]
pub struct InstallerOutputArgs {
    /// Copy the installer.
    pub installer: bool,
    /// Don't copy the installer.
    pub no_installer: bool,
}

/// Installer output toggle for official builds.
#[derive(Debug, Clone, Copy, Default)]
pub struct OfficialInstallerArgs {
    /// Skip building the installer task.
    pub no_installer: bool,
}

/// Version source selection arguments.
#[derive(Debug, Clone, Copy, Default)]
pub struct VersionSourceArgs {
    /// Retrieves version information from ModOrganizer.exe.
    pub version_from_exe: bool,
    /// Retrieves version information from modorganizer/src/version.rc.
    pub version_from_rc: bool,
}

} // verus!
