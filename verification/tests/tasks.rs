use mob_rs::cli::build::BuildArgs;
use mob_rs::cmd::build::{
    build_phases, builtin_tasks, compute_clean_flags, config_task_names, default_project_names, default_task_tree,
    is_builtin_task, task_from_name, TaskKind,
};
use mob_rs::config::merge::TaskConfigOverride;
use mob_rs::config::Config;

fn args() -> BuildArgs {
    BuildArgs {
        clean_download: Default::default(),
        clean_build: Default::default(),
        clean_full: Default::default(),
        clean_phase: Default::default(),
        fetch_phase: Default::default(),
        build_phase: Default::default(),
        pull_behavior: Default::default(),
        revert_ts_behavior: Default::default(),
        ignore_uncommitted: false,
        keep_msbuild: false,
        tasks: vec![],
    }
}

#[test]
fn test_new_build_cleans_everything() {
    let mut a = args();
    a.clean_full.new_build = true;
    let f = compute_clean_flags(&a);
    assert!(f.redownload && f.reextract && f.reconfigure && f.rebuild);
    assert!(build_phases(&a).clean);
}

#[test]
fn test_clean_flags_each() {
    let mut a = args();
    assert!(compute_clean_flags(&a).is_empty());
    a.clean_build.rebuild = true;
    let f = compute_clean_flags(&a);
    assert!(f.rebuild && !f.reconfigure && !f.redownload && !f.reextract);
}

#[test]
fn test_build_phases() {
    let mut a = args();
    let p = build_phases(&a);
    assert!(!p.clean && p.fetch && p.build);
    a.clean_download.redownload = true;
    assert!(build_phases(&a).clean);
    a.clean_phase.no_clean_task = true;
    assert!(!build_phases(&a).clean);
    a.fetch_phase.no_fetch_task = true;
    a.build_phase.no_build_task = true;
    let p = build_phases(&a);
    assert!(!p.fetch && !p.build);
}

#[test]
fn test_builtin_tasks() {
    assert_eq!(builtin_tasks().len(), 7);
    assert!(is_builtin_task("usvfs"));
    assert!(is_builtin_task("installer"));
    assert!(!is_builtin_task("uibase"));
}

#[test]
fn test_config_task_names() {
    let mut c = Config::default();
    c.tasks.insert("modorganizer-uibase".to_string(), TaskConfigOverride::default());
    c.tasks.insert("mytool".to_string(), TaskConfigOverride::default());
    c.tasks.insert("usvfs".to_string(), TaskConfigOverride::default());
    c.tasks.insert("super".to_string(), TaskConfigOverride::default());
    c.aliases.insert("super".to_string(), vec!["modorganizer-uibase".to_string()]);
    assert_eq!(
        config_task_names(&c),
        vec![
            "modorganizer-uibase".to_string(),
            "uibase".to_string(),
            "mytool".to_string(),
            "modorganizer-mytool".to_string(),
        ]
    );
}

#[test]
fn test_default_project_names() {
    let n = default_project_names();
    assert_eq!(n[0], "cmake_common");
    assert_eq!(n[1], "modorganizer-uibase");
    assert_eq!(n[2], "uibase");
    assert!(n.contains(&"bsa_packer".to_string()));
    assert!(n.contains(&"ddspreview".to_string()));
    assert_eq!(n.last().unwrap(), "ddspreview");
}

#[test]
fn test_task_from_name() {
    let t = task_from_name("ss");
    assert_eq!((t.kind, t.name.as_str()), (TaskKind::Stylesheets, "stylesheets"));
    let t = task_from_name("organizer");
    assert_eq!((t.kind, t.name.as_str()), (TaskKind::ModOrganizer, "modorganizer"));
    let t = task_from_name("pycfg");
    assert_eq!((t.kind, t.name.as_str()), (TaskKind::ModOrganizer, "modorganizer-tool_configurator"));
    let t = task_from_name("modorganizer-uibase");
    assert_eq!((t.kind, t.name.as_str()), (TaskKind::ModOrganizer, "modorganizer-uibase"));
    let t = task_from_name("explorer++");
    assert_eq!(t.kind, TaskKind::ExplorerPP);
}

#[test]
fn test_default_task_tree() {
    let t = default_task_tree();
    assert_eq!(t.len(), 7);
    assert_eq!(t[0].len(), 2);
    assert_eq!(t[0][0].kind, TaskKind::Usvfs);
    assert_eq!(t[1][0].name, "modorganizer-uibase");
    assert_eq!(t[2].len(), 7);
    assert_eq!(t[3].len(), 17);
    assert_eq!(t[4].len(), 10);
    assert_eq!(t[4][9].name, "modorganizer");
    assert_eq!(t[5][0].kind, TaskKind::Translations);
    assert_eq!(t[6][0].kind, TaskKind::Installer);
}
