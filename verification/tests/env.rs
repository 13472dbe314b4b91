use mob_rs::host::env::container::Env;
use mob_rs::host::env::types::{Arch, EnvFlags};
use mob_rs::host::env::vcvars::{devshell_script, env_from_devshell_output};
use mob_rs::strmap::StrMap;

#[test]
fn test_env_basic_operations() {
    let mut env = Env::new();
    env.set("FOO", "bar");
    assert_eq!(env.get("FOO"), Some("bar"));
    assert_eq!(env.get("foo"), Some("bar"));
    assert_eq!(env.get("NOTEXIST"), None);
}

#[test]
fn test_env_flags() {
    let mut env = Env::new();
    env.set("KEY", "initial");
    assert_eq!(env.get("KEY").unwrap(), "initial");
    env.set_with_flags("KEY", "_appended", EnvFlags::Append);
    assert_eq!(env.get("KEY").unwrap(), "initial_appended");
    env.set_with_flags("KEY", "prepended_", EnvFlags::Prepend);
    assert_eq!(env.get("KEY").unwrap(), "prepended_initial_appended");
    env.set_with_flags("KEY", "replaced", EnvFlags::Replace);
    assert_eq!(env.get("KEY").unwrap(), "replaced");
}

#[test]
fn test_env_path_manipulation() {
    let sep = if std::path::MAIN_SEPARATOR == '\\' { ";" } else { ":" };
    let mut env = Env::new();
    env.set("PATH", "/usr/bin");
    assert_eq!(env.get("PATH").unwrap(), "/usr/bin");
    env.prepend_path("/usr/local/bin");
    let path = env.get("PATH").unwrap().to_string();
    assert_eq!(path, format!("/usr/local/bin{sep}/usr/bin"));
    assert!(path.starts_with("/usr/local/bin"));
    env.append_path("/opt/bin");
    let path = env.get("PATH").unwrap().to_string();
    assert_eq!(path, format!("/usr/local/bin{sep}/usr/bin{sep}/opt/bin"));
    assert!(path.ends_with("/opt/bin"));
}

#[test]
fn test_env_copy_on_write() {
    let mut env1 = Env::new();
    env1.set("KEY1", "value1");
    let mut env2 = env1.clone();
    env2.set("KEY2", "value2");
    assert_eq!(env1.get("KEY1"), Some("value1"));
    assert_eq!(env1.get("KEY2"), None);
    assert_eq!(env2.get("KEY1"), Some("value1"));
    assert_eq!(env2.get("KEY2"), Some("value2"));
}

#[test]
fn test_env_from_map() {
    let mut map: StrMap<String> = StrMap::new();
    map.insert("KEY1".to_string(), "value1".to_string());
    map.insert("KEY2".to_string(), "value2".to_string());
    let env = Env::from_map(map);
    assert_eq!(env.get("KEY1"), Some("value1"));
    assert_eq!(env.get("KEY2"), Some("value2"));
    assert_eq!(env.len(), 2);
}

#[test]
fn test_env_to_map() {
    let mut env = Env::new();
    env.set("KEY1", "value1");
    env.set("KEY2", "value2");
    let map = env.to_map();
    assert_eq!(map.len(), 2);
    assert_eq!(map.get("KEY1"), Some(&"value1".to_string()));
    assert_eq!(map.get("KEY2"), Some(&"value2".to_string()));
}

#[test]
fn test_env_to_windows_env_block() {
    let mut env = Env::new();
    env.set("KEY1", "value1");
    env.set("KEY2", "value2");
    let block = env.to_windows_env_block();
    assert!(!block.is_empty(), "env block should not be empty");
    let len = block.len();
    assert!(len >= 2, "block must have at least 2 elements for terminator");
    assert_eq!(block[len - 1], 0, "block should end with null terminator");
}

#[test]
fn test_env_windows_block_encoding() {
    let mut env = Env::new();
    env.set("A", "\u{1F600}");
    let block = env.to_windows_env_block();
    assert_eq!(block, vec![65, 61, 0xD83D, 0xDE00, 0, 0]);
}

#[test]
fn test_env_keeps_first_spelling() {
    let mut env = Env::new();
    env.set("Path", "a");
    env.set("PATH", "b");
    assert_eq!(env.len(), 1);
    assert_eq!(env.iter(), vec![("Path".to_string(), "b".to_string())]);
    env.remove("pATH");
    assert!(env.is_empty());
}

#[test]
fn test_env_iter_in_name_order() {
    let mut env = Env::new();
    env.set("b", "2");
    env.set("A", "1");
    env.set("C", "3");
    assert_eq!(
        env.iter(),
        vec![
            ("A".to_string(), "1".to_string()),
            ("b".to_string(), "2".to_string()),
            ("C".to_string(), "3".to_string())
        ]
    );
}

#[test]
fn test_env_from_devshell_output() {
    let text = "  Path=C:\\bin\r\n\r\nnoequals\n=empty\nINCLUDE=a=b\npath=C:\\other";
    let env = env_from_devshell_output(text);
    assert_eq!(env.len(), 2);
    assert_eq!(env.get("PATH"), Some("C:\\other"));
    assert_eq!(env.get("include"), Some("a=b"));
    assert_eq!(env.iter()[1].0, "Path");
}

#[test]
fn test_devshell_script() {
    let s = devshell_script("C:\\VS\\DevShell.dll", "abc", Arch::X86);
    assert_eq!(
        s,
        "\nImport-Module \"C:\\VS\\DevShell.dll\"\nEnter-VsDevShell abc -SkipAutomaticLocation -DevCmdArguments \"-arch=x86 -host_arch=x64\" | Out-Null\nGet-ChildItem Env: | ForEach-Object { \"$($_.Name)=$($_.Value)\" }\n"
    );
    assert_eq!(Arch::X64.vcvars_arg(), "amd64");
    assert_eq!(Arch::X86.vcvars_arg(), "x86");
    assert_eq!(Arch::X64.to_string(), "x64");
}

#[test]
fn test_env_set_get_any_case_and_others_kept() {
    let mut e = Env::new();
    e.set("Path", "a");
    e.set("TEMP", "t");
    e.set("PATH", "b");
    assert_eq!(e.get("path"), Some("b"));
    assert_eq!(e.get("temp"), Some("t"));
    e.remove("pAtH");
    assert_eq!(e.get("Path"), None);
    assert_eq!(e.get("TEMP"), Some("t"));
}

#[test]
fn test_iter_orders_by_lowercased_name() {
    let mut env = Env::new();
    env.set("beta", "2");
    env.set("ALPHA", "1");
    env.set("Gamma", "3");
    env.set("alpha", "one");
    assert_eq!(
        env.iter(),
        vec![
            ("ALPHA".to_string(), "one".to_string()),
            ("beta".to_string(), "2".to_string()),
            ("Gamma".to_string(), "3".to_string()),
        ]
    );
    assert_eq!(env.len(), 3);
}
