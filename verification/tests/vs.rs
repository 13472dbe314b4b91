use mob_rs::host::vs::{find_latest, find_vswhere, select_installations, VsInstallation};

fn install(id: &str, version: &str, complete: bool, prerelease: bool) -> VsInstallation {
    VsInstallation {
        instance_id: id.to_string(),
        installation_path: format!("C:\\{id}"),
        installation_version: version.to_string(),
        display_name: id.to_string(),
        is_complete: complete,
        is_prerelease: prerelease,
    }
}

#[test]
fn test_derived_paths() {
    let vs = VsInstallation {
        instance_id: "test".to_string(),
        installation_path: r"C:\Program Files\Microsoft Visual Studio\2022\Community".to_string(),
        installation_version: "17.9.0.0".to_string(),
        display_name: "Test".to_string(),
        is_complete: true,
        is_prerelease: false,
    };
    let normalize = |p: String| p.replace('\\', "/");
    assert_eq!(
        normalize(vs.devshell_dll()),
        "C:/Program Files/Microsoft Visual Studio/2022/Community/Common7/Tools/Microsoft.VisualStudio.DevShell.dll"
    );
    assert_eq!(
        normalize(vs.msbuild_path()),
        "C:/Program Files/Microsoft Visual Studio/2022/Community/MSBuild/Current/Bin/MSBuild.exe"
    );
    assert_eq!(
        normalize(vs.devenv_path()),
        "C:/Program Files/Microsoft Visual Studio/2022/Community/Common7/IDE/devenv.exe"
    );
}

#[test]
fn test_version_tuple_parsing() {
    let vs = VsInstallation {
        instance_id: "test".to_string(),
        installation_path: "C:\\test".to_string(),
        installation_version: "17.14.36915.13".to_string(),
        display_name: "Test".to_string(),
        is_complete: true,
        is_prerelease: false,
    };
    assert_eq!(vs.version_tuple(), (17, 14, 36915, 13));
}

#[test]
fn test_version_tuple_skips_non_numbers() {
    let vs = install("x", "17.beta.3", true, false);
    assert_eq!(vs.version_tuple(), (17, 3, 0, 0));
    let vs = install("y", "", true, false);
    assert_eq!(vs.version_tuple(), (0, 0, 0, 0));
}

#[test]
fn test_parse_vswhere_json_multiple_sorted() {
    let list = vec![install("old", "16.5.0.0", true, false), install("new", "17.9.0.0", true, false)];
    let sorted = select_installations(list);
    let ids: Vec<_> = sorted.iter().map(|v| v.instance_id.as_str()).collect();
    assert_eq!(ids, vec!["new", "old"]);
}

#[test]
fn test_parse_vswhere_json_version_sorting() {
    let list = vec![install("a", "17.9.0.0", true, false), install("b", "17.14.0.0", true, false)];
    let sorted = select_installations(list);
    let versions: Vec<_> = sorted.iter().map(|v| v.installation_version.as_str()).collect();
    assert_eq!(versions, vec!["17.14.0.0", "17.9.0.0"]);
}

#[test]
fn test_select_installations_filters_and_keeps_order() {
    let list = vec![
        install("a", "17.0", true, false),
        install("pre", "18.0", true, true),
        install("incomplete", "18.0", false, false),
        install("b", "17.0", true, false),
        install("c", "17.1", true, false),
    ];
    let sorted = select_installations(list);
    let ids: Vec<_> = sorted.iter().map(|v| v.instance_id.as_str()).collect();
    assert_eq!(ids, vec!["c", "a", "b"]);
}

#[test]
fn test_find_latest_picks_newest_usable() {
    let list = vec![
        install("a", "16.11.1", true, false),
        install("b", "17.9.2", true, false),
        install("c", "17.10.0", true, true),
        install("d", "17.9.2", true, false),
    ];
    let v = find_latest(list).ok().unwrap();
    assert_eq!(v.instance_id, "b");
    let none = find_latest(vec![install("x", "17.0", false, false)]);
    assert_eq!(none.err(), Some("No Visual Studio installations found with C++ tools".to_string()));
}

#[test]
fn test_find_vswhere_prefers_given_path() {
    let found = find_vswhere(Some("D:/tools/vswhere.exe"), |p: &str| p == "D:/tools/vswhere.exe");
    assert_eq!(found, Ok("D:/tools/vswhere.exe".to_string()));
}

#[test]
fn test_find_vswhere_falls_back_to_standard_places() {
    let second = "C:\\Program Files\\Microsoft Visual Studio\\Installer\\vswhere.exe";
    assert_eq!(find_vswhere(Some("D:/missing.exe"), |p: &str| p == second), Ok(second.to_string()));
    let first = "C:\\Program Files (x86)\\Microsoft Visual Studio\\Installer\\vswhere.exe";
    assert_eq!(find_vswhere(None, |_p: &str| true), Ok(first.to_string()));
}

#[test]
fn test_find_vswhere_not_found() {
    assert_eq!(
        find_vswhere(None, |_p: &str| false),
        Err("vswhere.exe not found in standard VS Installer directories".to_string())
    );
}
