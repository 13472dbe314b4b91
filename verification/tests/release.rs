use mob_rs::cli::release::{
    BinaryOutputArgs, DevbuildArgs, OfficialArgs, OfficialInstallerArgs, OfficialOutputArgs, PdbOutputArgs,
};
use mob_rs::cmd::release::{
    archive_excludes, archive_file_name, archive_kinds, archive_label, archive_source, installer_source, ArchiveKind,
    archive_name, default_rc_path, ensure_output_file, exe_version_text, installer_files, missing_branch_error,
    modorganizer_super_dir, official_repo_url, output_dir_action, output_file_check, parse_version_from_rc_content,
    rc_path_for, resolve_official_output_dir, resolve_output_dir, version_error_both, version_from_capture,
    version_plan, OutputDirAction, VersionPlan,
};
use mob_rs::config::Config;

fn temp_dir() -> tempfile::TempDir {
    tempfile::tempdir().expect("failed to create temp dir")
}

#[test]
fn test_archive_name_cases() {
    assert_eq!(archive_name("2.5.0", None, None), "Mod.Organizer-2.5.0.7z");
    assert_eq!(archive_name("2.5.0", Some("rc1"), None), "Mod.Organizer-2.5.0-rc1.7z");
    assert_eq!(archive_name("2.5.0", None, Some("pdbs")), "Mod.Organizer-2.5.0-pdbs.7z");
    assert_eq!(archive_name("2.5.0", Some("beta"), Some("src")), "Mod.Organizer-2.5.0-beta-src.7z");
    assert_eq!(archive_name("2.5.0", Some(""), Some("pdbs")), "Mod.Organizer-2.5.0-pdbs.7z");
    assert_eq!(archive_name("2.5.0", Some("rc1"), Some("")), "Mod.Organizer-2.5.0-rc1.7z");
}

#[test]
fn test_resolve_output_dir_from_args() {
    let args = DevbuildArgs { output_dir: Some("/custom/output".to_string()), ..Default::default() };
    let config = Config::default();
    assert_eq!(resolve_output_dir(&args, &config).unwrap(), "/custom/output");
}

#[test]
fn test_resolve_output_dir_from_config() {
    let args = DevbuildArgs::default();
    let mut config = Config::default();
    config.paths.prefix = Some("/mo2".to_string());
    assert_eq!(resolve_output_dir(&args, &config).unwrap().replace('\\', "/"), "/mo2/releases");
}

#[test]
fn test_resolve_output_dir_error_no_prefix() {
    let args = DevbuildArgs::default();
    let config = Config::default();
    let result = resolve_output_dir(&args, &config);
    assert!(result.is_err());
    let err_msg = result.unwrap_err();
    assert!(err_msg.contains("prefix"), "expected error about prefix, got: {err_msg}");
}

#[test]
fn test_resolve_official_output_dir_from_args() {
    let args = OfficialArgs {
        output_dir: Some("/release/output".to_string()),
        branch: "v2.5.0".to_string(),
        outputs: OfficialOutputArgs {
            bin: BinaryOutputArgs { bin: true, no_bin: false },
            pdbs: PdbOutputArgs { pdbs: true, no_pdbs: false },
            installer: OfficialInstallerArgs { no_installer: false },
        },
        force: false,
    };
    let config = Config::default();
    assert_eq!(resolve_official_output_dir(&args, &config).unwrap(), "/release/output");
}

#[test]
fn test_ensure_output_file_force() {
    let temp = temp_dir();
    let file = tempfile::Builder::new()
        .rand_bytes(0)
        .prefix("existing.7z")
        .tempfile_in(temp.path())
        .expect("failed to create file");
    let path = file.path().to_string_lossy().to_string();
    let result = ensure_output_file(&path, false);
    assert!(result.is_err());
    assert!(result.unwrap_err().contains("--force"));
    assert!(ensure_output_file(&path, true).is_ok());
}

#[test]
fn test_ensure_output_file_not_exists() {
    let temp = temp_dir();
    let file = temp.path().join("new.7z");
    let result = ensure_output_file(&file.to_string_lossy(), false);
    assert!(result.is_ok());
}

#[test]
fn test_output_file_check_message() {
    assert_eq!(
        output_file_check("a.7z", true, false),
        Err("output file already exists: a.7z (use --force to overwrite)".to_string())
    );
    assert_eq!(output_file_check("a.7z", false, false), Ok(()));
}

#[test]
fn test_output_dir_actions() {
    assert_eq!(output_dir_action(true, true, false), OutputDirAction::Ready);
    assert_eq!(output_dir_action(true, false, true), OutputDirAction::NotADirectory);
    assert_eq!(output_dir_action(false, false, true), OutputDirAction::WouldCreate);
    assert_eq!(output_dir_action(false, false, false), OutputDirAction::Create);
}

#[test]
fn test_default_rc_path() {
    let mut config = Config::default();
    config.paths.build = Some("/mo2/build".to_string());
    assert_eq!(
        default_rc_path(&config).unwrap().replace('\\', "/"),
        "/mo2/build/modorganizer_super/modorganizer/src/version.rc"
    );
    assert_eq!(default_rc_path(&Config::default()), Err("paths.build not configured".to_string()));
}

#[test]
fn test_modorganizer_super_dir() {
    let mut config = Config::default();
    config.paths.build = Some("/mo2/build".to_string());
    assert_eq!(modorganizer_super_dir(&config).unwrap().replace('\\', "/"), "/mo2/build/modorganizer_super");
}

#[test]
fn test_rc_path_for_prefers_given() {
    let args = DevbuildArgs { rc_path: Some("x/version.rc".to_string()), ..Default::default() };
    assert_eq!(rc_path_for(&args, &Config::default()), Ok("x/version.rc".to_string()));
}

#[test]
fn test_parse_version_from_rc_content() {
    let content = "// header\n#define VER_FILEVERSION 2,5,2\n#define VER_FILEVERSION_STR \"2.5.2\\0\"\n";
    assert_eq!(parse_version_from_rc_content(content, "version.rc"), Ok("2.5.2".to_string()));
    assert_eq!(
        parse_version_from_rc_content("nothing here", "version.rc"),
        Err("version string not found in version.rc".to_string())
    );
}

#[test]
fn test_version_from_capture_cases() {
    assert_eq!(version_from_capture(Ok(Some("1.0".to_string())), "r"), Ok("1.0".to_string()));
    assert_eq!(version_from_capture(Ok(None), "r"), Err("version string not found in r".to_string()));
    assert_eq!(version_from_capture(Err("bad".to_string()), "r"), Err("failed to compile version.rc regex".to_string()));
}

#[test]
fn test_version_plan_order() {
    let mut args = DevbuildArgs::default();
    assert_eq!(version_plan(&args, false), VersionPlan::Rc);
    assert_eq!(version_plan(&args, true), VersionPlan::ExeThenRc);
    args.version_source.version_from_rc = true;
    assert_eq!(version_plan(&args, true), VersionPlan::Rc);
    args.version_source.version_from_exe = true;
    assert_eq!(version_plan(&args, false), VersionPlan::Exe);
    args.version = Some("9.9".to_string());
    assert_eq!(version_plan(&args, true), VersionPlan::Given("9.9".to_string()));
    assert_eq!(version_error_both("a", "b"), "failed to determine version; exe error: a; rc error: b");
}

#[test]
fn test_exe_version_text() {
    assert_eq!(exe_version_text((2 << 16) | 5, 3 << 16), "2.5.3");
    assert_eq!(exe_version_text((2 << 16) | 5, (3 << 16) | 7), "2.5.3.7");
    assert_eq!(exe_version_text(0xFFFF_FFFF, 0), "65535.65535.0");
}

#[test]
fn test_official_checks() {
    assert_eq!(official_repo_url("https://github.com/", "ModOrganizer2", "uibase"), "https://github.com/ModOrganizer2/uibase.git");
    assert_eq!(missing_branch_error("v2", &vec![]), None);
    assert_eq!(
        missing_branch_error("v2", &vec!["a".to_string(), "b".to_string()]),
        Some("branch 'v2' not found for repositories: a, b".to_string())
    );
}

#[test]
fn test_installer_files() {
    let entries = vec![
        ("/i/b.EXE".to_string(), true),
        ("/i/a.exe".to_string(), true),
        ("/i/dir.exe".to_string(), false),
        ("/i/notes.txt".to_string(), true),
        ("/i/.exe".to_string(), true),
    ];
    assert_eq!(installer_files(entries, '/'), vec!["/i/a.exe".to_string(), "/i/b.EXE".to_string()]);
}

#[test]
fn test_archive_kinds_order() {
    assert_eq!(archive_kinds(true, true, true), vec![ArchiveKind::Bin, ArchiveKind::Pdbs, ArchiveKind::Src]);
    assert_eq!(archive_kinds(true, false, true), vec![ArchiveKind::Bin, ArchiveKind::Src]);
    assert_eq!(archive_kinds(false, true, false), vec![ArchiveKind::Pdbs]);
    assert!(archive_kinds(false, false, false).is_empty());
}

#[test]
fn test_archive_file_name_by_kind() {
    assert_eq!(archive_file_name("2.5.0", None, ArchiveKind::Bin), "Mod.Organizer-2.5.0.7z");
    assert_eq!(archive_file_name("2.5.0", Some("rc1"), ArchiveKind::Pdbs), "Mod.Organizer-2.5.0-rc1-pdbs.7z");
    assert_eq!(archive_file_name("2.5.0", None, ArchiveKind::Src), "Mod.Organizer-2.5.0-src.7z");
}

#[test]
fn test_archive_source_configured() {
    let mut config = Config::default();
    config.paths.install_bin = Some("/mo2/install/bin".to_string());
    config.paths.install_pdbs = Some("/mo2/install/pdb".to_string());
    config.paths.build = Some("/mo2/build".to_string());
    assert_eq!(archive_source(&config, ArchiveKind::Bin), Ok("/mo2/install/bin".to_string()));
    assert_eq!(archive_source(&config, ArchiveKind::Pdbs), Ok("/mo2/install/pdb".to_string()));
    assert_eq!(
        archive_source(&config, ArchiveKind::Src).unwrap().replace('\\', "/"),
        "/mo2/build/modorganizer_super"
    );
}

#[test]
fn test_archive_source_not_configured() {
    let config = Config::default();
    assert_eq!(archive_source(&config, ArchiveKind::Bin), Err("paths.install_bin not configured".to_string()));
    assert_eq!(archive_source(&config, ArchiveKind::Pdbs), Err("paths.install_pdbs not configured".to_string()));
    assert_eq!(archive_source(&config, ArchiveKind::Src), Err("paths.build not configured".to_string()));
    assert_eq!(installer_source(&config), Err("paths.install_installer not configured".to_string()));
}

#[test]
fn test_installer_source_configured() {
    let mut config = Config::default();
    config.paths.install_installer = Some("/mo2/install/installer".to_string());
    assert_eq!(installer_source(&config), Ok("/mo2/install/installer".to_string()));
}

#[test]
fn test_archive_excludes_and_labels() {
    assert_eq!(archive_excludes(ArchiveKind::Bin), vec!["__pycache__".to_string()]);
    assert_eq!(archive_excludes(ArchiveKind::Pdbs), vec!["__pycache__".to_string()]);
    let src = archive_excludes(ArchiveKind::Src);
    assert_eq!(src.len(), 17);
    assert_eq!(src[0], "\\..*");
    assert!(src.contains(&"*.dll".to_string()));
    assert_eq!(archive_label(ArchiveKind::Bin), "install/bin");
    assert_eq!(archive_label(ArchiveKind::Pdbs), "install/pdbs");
    assert_eq!(archive_label(ArchiveKind::Src), "modorganizer_super");
}
