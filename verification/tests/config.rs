use mob_rs::cli::global::GlobalOptions;
use mob_rs::config::loader::{env_override_of, plain_value, ConfigLoader, OverrideValue, RawNode};
use mob_rs::config::value::ConfigValue;
use mob_rs::config::paths::PathsConfig;
use mob_rs::config::types::{BuildConfiguration, CmakeInstallMessage, ToolsConfig};
use mob_rs::config::Config;
use mob_rs::logging::LogLevel;
use std::io::Write;

fn separator() -> &'static str {
    if std::path::MAIN_SEPARATOR == '\\' {
        ";"
    } else {
        ":"
    }
}

fn normalize(p: &Option<String>) -> Option<String> {
    p.as_ref().map(|p| p.replace('\\', "/"))
}

#[test]
fn test_default_config() {
    let config = Config::default();
    assert!(!config.global.dry);
    assert_eq!(config.global.output_log_level.as_u8(), 3);
    assert_eq!(config.task.mo_org, "ModOrganizer2");
    assert_eq!(config.task.configuration.to_string(), "RelWithDebInfo");
}

#[test]
fn test_build_configuration_display() {
    assert_eq!(BuildConfiguration::Debug.to_string(), "Debug");
    assert_eq!(BuildConfiguration::Release.to_string(), "Release");
    assert_eq!(BuildConfiguration::RelWithDebInfo.to_string(), "RelWithDebInfo");
}

#[test]
fn test_build_configuration_parse() {
    assert!(matches!("debug".parse::<BuildConfiguration>(), Ok(BuildConfiguration::Debug)));
    assert!(matches!("Release".parse::<BuildConfiguration>(), Ok(BuildConfiguration::Release)));
    assert!(matches!(
        "relwithdebinfo".parse::<BuildConfiguration>(),
        Ok(BuildConfiguration::RelWithDebInfo)
    ));
    assert!("invalid".parse::<BuildConfiguration>().is_err());
}

#[test]
fn test_log_level_bounds() {
    assert!(LogLevel::new(0).is_ok());
    assert!(LogLevel::new(6).is_ok());
    assert!(LogLevel::new(7).is_err());
}

#[test]
fn test_cmake_install_message_display() {
    assert_eq!(CmakeInstallMessage::Always.to_string(), "ALWAYS");
    assert_eq!(CmakeInstallMessage::Lazy.to_string(), "LAZY");
    assert_eq!(CmakeInstallMessage::Never.to_string(), "NEVER");
}

#[test]
fn test_paths_resolve() {
    let mut paths = PathsConfig { prefix: Some("/test/prefix".to_string()), ..Default::default() };
    paths.resolve().unwrap();
    assert_eq!(normalize(&paths.cache).as_deref(), Some("/test/prefix/downloads"));
    assert_eq!(normalize(&paths.build).as_deref(), Some("/test/prefix/build"));
    assert_eq!(normalize(&paths.install).as_deref(), Some("/test/prefix/install"));
    assert_eq!(normalize(&paths.install_bin).as_deref(), Some("/test/prefix/install/bin"));
}

#[test]
fn test_config_parse() {
    let toml = r#"
[global]
dry = true
output_log_level = 4

[task]
mo_org = "TestOrg"
configuration = "Debug"

[paths]
prefix = "/test/path"
"#;
    let config = Config::parse(toml).unwrap();
    assert!(config.global.dry);
    assert_eq!(config.global.output_log_level.as_u8(), 4);
    assert_eq!(config.task.mo_org, "TestOrg");
    assert_eq!(config.task.configuration.to_string(), "Debug");
    assert_eq!(config.paths.prefix.as_deref(), Some("/test/path"));
}

#[test]
fn test_tools_default() {
    let tools = ToolsConfig::default();
    assert_eq!(tools.sevenz, "7z.exe");
    assert_eq!(tools.cmake, "cmake.exe");
    assert_eq!(tools.msbuild, "msbuild.exe");
}

#[test]
fn test_config_builder_with_toml_str() {
    let config = Config::builder()
        .add_toml_str(
            r"
                [global]
                dry = true
                ",
        )
        .build()
        .unwrap();
    assert!(config.global.dry);
}

#[test]
fn test_config_loader_tracks_files() {
    let loader = ConfigLoader::new().add_toml_str("[global]\n dry = true");
    let files = loader.loaded_files();
    assert_eq!(files, vec![("string".to_string(), "<string>".to_string())]);
}

#[test]
fn test_config_loader_format_loaded_files() {
    let loader = ConfigLoader::new()
        .add_toml_str("[global]\n dry = true")
        .add_toml_str("[task]\n mo_org = \"Test\"");
    assert_eq!(
        loader.format_loaded_files(),
        vec!["1. [string] <string>".to_string(), "2. [string] <string>".to_string()]
    );
}

#[test]
fn test_config_loader_optional_only_tracks_existing() {
    let loader = ConfigLoader::new().add_toml_file_optional("/nonexistent/path.toml");
    assert!(loader.loaded_files().is_empty());
}

#[test]
fn test_config_loader_mixed_sources() {
    let loader = ConfigLoader::new()
        .add_toml_str("[global]\n dry = true")
        .add_toml_file_optional("/nonexistent/optional.toml");
    assert_eq!(loader.loaded_files(), vec![("string".to_string(), "<string>".to_string())]);
}

#[test]
fn test_format_options_hides_sensitive() {
    let config = Config::builder()
        .add_toml_str(
            r#"
                [transifex]
                key = "transifex_secret"
                "#,
        )
        .build()
        .unwrap();
    let formatted = config.format_options();
    let formatted_str = formatted.join("\n ");
    assert!(formatted_str.contains("transifex.key") && formatted_str.contains("[hidden]"));
    assert!(!formatted_str.contains("transifex_secret"));
}

#[test]
fn test_format_options_deterministic() {
    let config = Config::builder()
        .add_toml_str(
            r#"
                [global]
                dry = true

                [task]
                mo_org = "TestOrg"

                [paths]
                prefix = "/path/to/prefix"
                "#,
        )
        .build()
        .unwrap();
    let result1 = config.format_options();
    let result2 = config.format_options();
    assert_eq!(result1, result2, "format_options output should be deterministic");
    let formatted_str = result1.join("\n ");
    assert!(formatted_str.lines().next().is_some());
}

#[test]
fn test_cmake_prefix_path_scenarios() {
    let separator = separator();
    let paths_all = PathsConfig {
        qt_install: Some("C:/Qt/6.7.0".to_string()),
        vcpkg: Some("C:/vcpkg".to_string()),
        install_libs: Some("C:/mo2/install/lib".to_string()),
        ..Default::default()
    };
    let result_all = paths_all.cmake_prefix_path();
    assert!(result_all.contains("Qt"), "should contain Qt path");
    assert!(result_all.contains("vcpkg"), "should contain vcpkg path");
    assert!(result_all.contains("install"), "should contain install path");
    assert!(result_all.contains(separator), "should use platform separator");

    let paths_partial = PathsConfig {
        qt_install: Some("C:/Qt".to_string()),
        vcpkg: None,
        install_libs: Some("C:/lib".to_string()),
        ..Default::default()
    };
    let result_partial = paths_partial.cmake_prefix_path();
    assert_eq!(result_partial, format!("C:/Qt{separator}C:/lib"));
    if separator == ";" {
        let count = result_partial.split(separator).count();
        assert_eq!(count, 2, "should only have 2 paths when one is None");
    }

    let paths_empty = PathsConfig { qt_install: None, vcpkg: None, install_libs: None, ..Default::default() };
    let result_empty = paths_empty.cmake_prefix_path();
    assert_eq!(result_empty, "", "should be empty when no paths");
}

#[test]
fn test_cmake_install_prefix_with_install() {
    let paths = PathsConfig { install: Some("C:/mo2/install".to_string()), ..Default::default() };
    let result = paths.cmake_install_prefix();
    assert!(result.is_some());
    assert_eq!(result.unwrap(), "C:/mo2/install");
}

#[test]
fn test_cmake_install_prefix_none_when_missing() {
    let paths = PathsConfig { install: None, ..Default::default() };
    let result = paths.cmake_install_prefix();
    assert!(result.is_none());
}

#[test]
fn test_flatten_absorbs_unknown_fields_global() {
    let toml = r#"
[global]
dry = true
unknown_field = "absorbed by flatten"
"#;
    let result = Config::parse(toml);
    assert!(result.is_ok(), "expected Ok because flatten absorbs unknown fields, got: {result:?}");
}

#[test]
fn test_flatten_absorbs_unknown_fields_task() {
    let toml = r#"
[task]
mo_org = "Test"
typo_field = true
"#;
    let result = Config::parse(toml);
    assert!(result.is_ok(), "expected Ok because flatten absorbs unknown fields, got: {result:?}");
}

#[test]
fn test_deny_unknown_fields_top_level() {
    let toml = r#"
[global]
dry = true

[unknown_section]
foo = "bar"
"#;
    let result = Config::parse(toml);
    assert!(result.is_err());
    let message = result.unwrap_err().message();
    assert!(message.contains("unknown field `unknown_section`"), "{message}");
}

#[test]
fn test_merge_task_config_partial_override() {
    let toml = r#"
[task]
git_shallow = true
mo_org = "DefaultOrg"
no_pull = false

[tasks.custom]
git_shallow = false
"#;
    let config = Config::parse(toml).unwrap();
    let custom_config = config.task_config("custom");
    assert!(!custom_config.git_clone.git_shallow);
    assert_eq!(custom_config.mo_org, "DefaultOrg");
    assert!(!custom_config.git_behavior.no_pull);
}

#[test]
fn test_merge_task_config_full_override() {
    let toml = r#"
[task]
git_shallow = true
mo_org = "DefaultOrg"

[tasks.full]
git_shallow = false
mo_org = "CustomOrg"
mo_branch = "custom_branch"
"#;
    let config = Config::parse(toml).unwrap();
    let full_config = config.task_config("full");
    assert!(!full_config.git_clone.git_shallow);
    assert_eq!(full_config.mo_org, "CustomOrg");
    assert_eq!(full_config.mo_branch, "custom_branch");
}

#[test]
fn test_merge_task_config_nonexistent_task() {
    let toml = r#"
[task]
git_shallow = true
mo_org = "DefaultOrg"

[tasks.custom]
git_shallow = false
"#;
    let config = Config::parse(toml).unwrap();
    let nonexistent_config = config.task_config("nonexistent");
    assert!(nonexistent_config.git_clone.git_shallow);
    assert_eq!(nonexistent_config.mo_org, "DefaultOrg");
}

#[test]
fn test_merge_task_config_boolean_fields() {
    let toml = r"
[task]
enabled = true
no_pull = false

[tasks.booltest]
enabled = false
";
    let config = Config::parse(toml).unwrap();
    let bool_config = config.task_config("booltest");
    assert!(!bool_config.enabled);
    assert!(!bool_config.git_behavior.no_pull);
}

#[test]
fn test_merge_task_config_string_fields() {
    let toml = r#"
[task]
mo_org = "ModOrganizer2"
mo_branch = "master"
mo_fallback = ""

[tasks.stringtest]
mo_org = "CustomOrg"
mo_fallback = "develop"
"#;
    let config = Config::parse(toml).unwrap();
    let string_config = config.task_config("stringtest");
    assert_eq!(string_config.mo_org, "CustomOrg");
    assert_eq!(string_config.mo_branch, "master");
    assert_eq!(string_config.mo_fallback, "develop");
}

#[test]
fn test_merge_task_config_remote_fields() {
    let toml = r#"
[task]
remote_no_push_upstream = false

[tasks.remotetest]
remote_org = "MyOrg"
"#;
    let config = Config::parse(toml).unwrap();
    let remote_config = config.task_config("remotetest");
    assert_eq!(remote_config.remote_setup.remote_org, "MyOrg");
    assert!(!remote_config.remote_setup.remote_no_push_upstream);
}

#[test]
fn test_config_loader_add_toml_file_success() {
    let mut file = tempfile::NamedTempFile::new().expect("failed to create temp file");
    file.write_all(b"\n[global]\ndry = true\n\n[paths]\nprefix = \"/test/prefix\"\n\n")
        .expect("failed to write temp file");
    let path = file.path().to_string_lossy().into_owned();
    let config = ConfigLoader::new().add_toml_file(&path).build().expect("build should succeed");
    assert!(config.global.dry);
    assert_eq!(config.paths.prefix.as_deref(), Some("/test/prefix"));
}

#[test]
fn test_config_loader_add_toml_file_not_found() {
    let loader = ConfigLoader::new().add_toml_file("/nonexistent/path/to/config.toml");
    let build_result = loader.build();
    assert!(build_result.is_err());
}

#[test]
fn test_config_loader_add_toml_file_invalid_toml() {
    let mut file = tempfile::NamedTempFile::new().expect("failed to create temp file");
    file.write_all(b"this is not valid toml {{{\n").expect("failed to write");
    let path = file.path().to_string_lossy().into_owned();
    let loader = ConfigLoader::new().add_toml_file(&path);
    let result = loader.build();
    assert!(result.is_err(), "build should fail with invalid TOML");
}

#[test]
fn test_config_loader_set_override() {
    let config = ConfigLoader::new()
        .add_toml_str("[global]\n dry = false")
        .set("global.dry", true)
        .expect("set should succeed")
        .build()
        .expect("build should succeed");
    assert!(config.global.dry, "set override should take effect");
}

#[test]
fn test_config_loader_layered_sources() {
    let mut file = tempfile::NamedTempFile::new().expect("failed to create temp file");
    file.write_all(b"\n[global]\ndry = false\nredownload = true\n\n[task]\nmo_org = \"FileOrg\"\n\n")
        .expect("failed to write");
    let path = file.path().to_string_lossy().into_owned();
    let config = ConfigLoader::new()
        .add_toml_file(&path)
        .add_toml_str(
            r#"
[global]
dry = true

[task]
mo_branch = "develop"
"#,
        )
        .build()
        .expect("build should succeed");
    assert!(config.global.dry, "string should override file");
    assert!(config.global.clean_download_actions.redownload, "file value should persist");
    assert_eq!(config.task.mo_org, "FileOrg", "file value should persist");
    assert_eq!(config.task.mo_branch, "develop", "string should add new value");
}

#[test]
fn test_config_loader_build_deserialization_error() {
    let result = ConfigLoader::new().add_toml_str("[global]\n dry = \"not a boolean\"").build();
    assert!(result.is_err(), "build should fail with type mismatch");
    let err_str = result.unwrap_err().message();
    assert!(
        err_str.contains("dry") || err_str.contains("invalid type"),
        "error should mention the problematic field: {err_str}"
    );
}

#[test]
fn test_config_loader_default_impl() {
    let loader1 = ConfigLoader::new();
    let loader2 = ConfigLoader::default();
    let config1 = loader1.build().expect("build should succeed");
    let config2 = loader2.build().expect("build should succeed");
    assert_eq!(config1.global.dry, config2.global.dry);
    assert_eq!(config1.task.mo_org, config2.task.mo_org);
}

#[test]
fn test_plain_value_scalars_and_depth() {
    assert!(matches!(plain_value(RawNode::I64(7), 0), ConfigValue::I64(7)));
    assert!(matches!(plain_value(RawNode::Str("x".to_string()), 3), ConfigValue::Str(s) if s == "x"));
    let node = RawNode::Table(vec![
        ("a".to_string(), config::Value::from(1i64)),
        ("b".to_string(), config::Value::from("two")),
    ]);
    match plain_value(node, 1) {
        ConfigValue::Table(t) => {
            assert_eq!(t.len(), 2);
            assert_eq!(t[0].0, "a");
            assert!(matches!(t[0].1, ConfigValue::I64(1)));
            assert_eq!(t[1].0, "b");
            assert!(matches!(&t[1].1, ConfigValue::Str(s) if s == "two"));
        }
        other => panic!("expected a table, got {other:?}"),
    }
    let shallow = RawNode::Array(vec![config::Value::from(1i64)]);
    assert!(matches!(plain_value(shallow, 0), ConfigValue::Array(a) if a.is_empty()));
}

#[test]
fn test_from_tree_reads_and_rejects() {
    let empty = ConfigValue::Table(Vec::new());
    assert!(Config::from_tree(&empty).is_ok());
    let bad = ConfigValue::Table(vec![(
        "global".to_string(),
        ConfigValue::Table(vec![("dry".to_string(), ConfigValue::Array(Vec::new()))]),
    )]);
    let err = Config::from_tree(&bad).unwrap_err().message();
    assert!(err.contains("invalid type: sequence, expected a boolean"), "{err}");
}

#[test]
fn test_env_override_names() {
    let (k, v) = env_override_of("MOB_TASK_MO_ORG", "MyOrg").unwrap();
    assert_eq!(k, "task.mo_org");
    assert_eq!(v, OverrideValue::Text("MyOrg".to_string()));
    let (k, v) = env_override_of("MOB_GLOBAL_DRY", "TRUE").unwrap();
    assert_eq!(k, "global.dry");
    assert_eq!(v, OverrideValue::Bool(true));
    let (k, v) = env_override_of("mob_global_output_log_level", "5").unwrap();
    assert_eq!(k, "global.output_log_level");
    assert_eq!(v, OverrideValue::Int(5));
    assert!(env_override_of("PATH", "/bin").is_none());
    assert!(env_override_of("MOB_DRY", "true").is_none());
    assert!(env_override_of("MOB_PATHS_PRE.FIX", "x").is_none());
}

#[test]
fn test_env_over_toml_and_cli_over_env() {
    let toml = "[task]\nmo_org = \"TomlOrg\"\n\n[paths]\nprefix = \"/test/path\"\n";
    let env = vec![
        ("MOB_TASK_MO_ORG".to_string(), "EnvOrg".to_string()),
        ("MOB_TASK_MO_BRANCH".to_string(), "dev".to_string()),
    ];
    let global = GlobalOptions::default();
    let config = Config::text_loader(toml).with_env_overrides(&env).with_options(&global).unwrap().build().unwrap();
    assert_eq!(config.task.mo_org, "EnvOrg");
    assert_eq!(config.task.mo_branch, "dev");

    let mut global = GlobalOptions::default();
    global.options = vec!["task/mo_org=CliOrg".to_string()];
    let config = Config::text_loader(toml).with_env_overrides(&env).with_options(&global).unwrap().build().unwrap();
    assert_eq!(config.task.mo_org, "CliOrg");
    assert_eq!(config.task.mo_branch, "dev");
}

#[test]
fn test_later_option_replaces_earlier() {
    let mut global = GlobalOptions::default();
    global.options = vec!["task/mo_org=First".to_string(), "task/mo_org=Second".to_string()];
    let config = Config::text_loader("").with_options(&global).unwrap().build().unwrap();
    assert_eq!(config.task.mo_org, "Second");
}

#[test]
fn test_later_text_wins_and_earlier_keys_persist() {
    let config = ConfigLoader::new()
        .add_toml_str("[global]\ndry = false\n[task]\nmo_org = \"First\"\nmo_branch = \"one\"")
        .add_toml_str("[task]\nmo_branch = \"two\"")
        .build()
        .expect("build should succeed");
    assert!(!config.global.dry);
    assert_eq!(config.task.mo_org, "First");
    assert_eq!(config.task.mo_branch, "two");
}

#[test]
fn test_override_beats_later_text() {
    let config = ConfigLoader::new()
        .set("task.mo_org", "FromOverride".to_string())
        .expect("set should succeed")
        .add_toml_str("[task]\nmo_org = \"FromText\"")
        .build()
        .expect("build should succeed");
    assert_eq!(config.task.mo_org, "FromOverride");
}

#[test]
fn test_fresh_loader_builds_defaults() {
    let config = ConfigLoader::new().build().expect("a loader with no sources builds");
    assert!(!config.global.dry);
    assert_eq!(config.task.mo_org, "ModOrganizer2");
    assert_eq!(config.task.mo_branch, "master");
    assert!(config.paths.prefix.is_none());
    assert!(ConfigLoader::new().loaded_files().is_empty());
}

#[test]
fn test_parse_invalid_toml_fails() {
    assert!(Config::parse("[global\ndry = true").is_err());
    assert!(Config::parse("").is_ok());
}
