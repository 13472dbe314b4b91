use mob_rs::cli::cmake::{CmakeConfigArgs, CmakeVariable};
use mob_rs::cli::global::GlobalOptions;
use mob_rs::cli::tx::TxGetArgs;
use mob_rs::cmd::config::{cmake_config_output, inis_lines};
use mob_rs::cmd::list::{alias_lines, task_lines};
use mob_rs::cmd::tx::{tx_build_source, tx_get_plan, TxGetError};
use mob_rs::config::loader::{config_files, parse_override};
use mob_rs::config::Config;
use mob_rs::logging::build_log_config;

#[test]
fn test_inis_lines() {
    assert_eq!(inis_lines(&vec![]), vec!["No configuration files loaded".to_string()]);
    let f = vec!["file: a.toml".to_string()];
    assert_eq!(inis_lines(&f), f);
}

#[test]
fn test_cmake_config_output() {
    let mut c = Config::default();
    let install = CmakeConfigArgs { variable: CmakeVariable::InstallPrefix };
    assert_eq!(cmake_config_output(&install, &c), Err("paths.install not configured".to_string()));
    c.paths.install = Some("/mo/install".to_string());
    assert_eq!(cmake_config_output(&install, &c), Ok("/mo/install".to_string()));
    c.paths.qt_install = Some("/qt".to_string());
    c.paths.install_libs = Some("/mo/install/lib".to_string());
    let prefix = CmakeConfigArgs { variable: CmakeVariable::PrefixPath };
    let list_sep = if std::path::MAIN_SEPARATOR == '\\' { ";" } else { ":" };
    assert_eq!(cmake_config_output(&prefix, &c), Ok(format!("/qt{list_sep}/mo/install/lib")));
}

#[test]
fn test_alias_and_task_lines() {
    let mut c = Config::default();
    let empty_aliases = alias_lines(&c.aliases);
    if c.aliases.len() == 0 {
        assert_eq!(empty_aliases, vec!["No aliases defined".to_string()]);
    }
    c.aliases.insert("zz".to_string(), vec!["a".to_string(), "b".to_string()]);
    let lines = alias_lines(&c.aliases);
    assert!(lines.contains(&"zz = a, b".to_string()));
    assert_eq!(task_lines(&vec![]), vec!["No tasks found".to_string()]);
    assert_eq!(task_lines(&vec!["usvfs".to_string()]), vec!["usvfs".to_string()]);
}

#[test]
fn test_tx_get_plan() {
    let mut args = TxGetArgs {
        key: None,
        team: Some("t".to_string()),
        project: Some("p".to_string()),
        url: None,
        minimum: None,
        force: true,
        path: "tx".to_string(),
    };
    let c = Config::default();
    let e = tx_get_plan(&args, &c).err().unwrap();
    assert_eq!(e, TxGetError::MissingKey);
    assert_eq!(e.message(), "transifex api key missing");
    args.key = Some("k".to_string());
    let p = tx_get_plan(&args, &c).ok().unwrap();
    assert_eq!(p.url, format!("{}/t/p", c.transifex.url));
    assert_eq!(p.minimum, 100);
    assert!(p.force);
    args.url = Some("https://custom".to_string());
    args.minimum = Some(60);
    let p = tx_get_plan(&args, &c).ok().unwrap();
    assert_eq!(p.url, "https://custom");
    assert_eq!(p.minimum, 60);
    args.team = None;
    assert_eq!(tx_get_plan(&args, &c).err().unwrap().hint(), "Transifex team required (use -t/--team)");
    assert_eq!(tx_build_source("s", "s/translations", true), "s/translations");
    assert_eq!(tx_build_source("s", "s/translations", false), "s");
}

#[test]
fn test_build_log_config() {
    let mut g = GlobalOptions::default();
    let c = build_log_config(&g);
    assert_eq!(c.console_level().as_u8(), 3);
    assert_eq!(c.file_level().as_u8(), 3);
    g.log_level = Some(5);
    g.log_file = Some("mob.log".to_string());
    let c = build_log_config(&g);
    assert_eq!(c.file_level().as_u8(), 5);
    assert_eq!(c.log_file(), Some("mob.log"));
    g.file_log_level = Some(2);
    g.log_level = Some(9);
    let c = build_log_config(&g);
    assert_eq!(c.console_level().as_u8(), 3);
    assert_eq!(c.file_level().as_u8(), 2);
}

#[test]
fn test_parse_override() {
    assert_eq!(parse_override("global/dry=true").ok(), Some(("global.dry".to_string(), "true".to_string())));
    assert_eq!(
        parse_override("usvfs:task/git_shallow=false").ok(),
        Some(("tasks.usvfs.git_shallow".to_string(), "false".to_string()))
    );
    assert_eq!(
        parse_override("paths/prefix=C:\\dev=x").ok(),
        Some(("paths.prefix".to_string(), "C:\\dev=x".to_string()))
    );
    let e = parse_override("nonsense").err().unwrap();
    assert_eq!(e.message(), "bad option 'nonsense', expected [task:]section/key=value");
    assert!(parse_override("usvfs:global/dry=true").is_err());
}

#[test]
fn test_config_files_order() {
    let mut g = GlobalOptions::default();
    g.inis = vec!["a.toml".to_string()];
    let f = config_files(&g, Some("/opt/mob"), Some("x.toml;;y.toml"), '/');
    assert_eq!(
        f,
        vec![
            ("/opt/mob/mob.toml".to_string(), true),
            ("x.toml".to_string(), true),
            ("y.toml".to_string(), true),
            ("mob.toml".to_string(), false),
            ("a.toml".to_string(), true),
        ]
    );
    g.no_default_inis = true;
    let f = config_files(&g, Some("/opt/mob"), Some("x.toml"), '/');
    assert_eq!(f, vec![("mob.toml".to_string(), false), ("a.toml".to_string(), true)]);
}
