use mob_rs::config::Config;
use mob_rs::cmd::pr::{
    find_local_repo, local_repo_candidates, parse_pr_arg, pr_info_url, pr_refspec, search_query, search_url, split_repository_url,
    PrMatch,
};

#[test]
fn test_parse_pr_arg_cases() {
    let r = parse_pr_arg("modorganizer/123").unwrap();
    assert_eq!(r, (Some("modorganizer".to_string()), 123));
    let r = parse_pr_arg("456").unwrap();
    assert_eq!(r, (None, 456));
}

#[test]
fn test_parse_pr_arg_invalid() {
    assert!(parse_pr_arg("invalid").is_err());
    assert!(parse_pr_arg("repo/invalid").is_err());
    assert!(parse_pr_arg("repo/123/extra").is_err());
}

#[test]
fn test_parse_pr_arg_error_message() {
    let e = parse_pr_arg("repo/12x").unwrap_err();
    assert_eq!(e.message(), "invalid PR number: 12x");
}

#[test]
fn test_pr_urls() {
    assert_eq!(pr_info_url("ModOrganizer2", "modorganizer", 42), "https://api.github.com/repos/ModOrganizer2/modorganizer/pulls/42");
    let q = search_query("ModOrganizer2", None, Some(7));
    assert_eq!(q, "org:ModOrganizer2 type:pr 7 in:title,body");
    assert_eq!(
        search_url(&q),
        "https://api.github.com/search/issues?q=org%3AModOrganizer2+type%3Apr+7+in%3Atitle,body&per_page=100"
    );
    assert_eq!(search_query("o", Some("me"), None), "org:o type:pr author:me");
    assert_eq!(pr_refspec(9), "refs/pull/9/head");
}

#[test]
fn test_split_repository_url() {
    assert_eq!(
        split_repository_url("https://api.github.com/repos/ModOrganizer2/usvfs"),
        Some(("ModOrganizer2".to_string(), "usvfs".to_string()))
    );
    assert_eq!(split_repository_url("a/b"), Some(("a".to_string(), "b".to_string())));
    assert_eq!(split_repository_url("nothing"), None);
}

#[test]
fn test_local_repo_candidates() {
    assert_eq!(
        local_repo_candidates("/b", "usvfs", '/'),
        vec!["/b/usvfs".to_string(), "/b/modorganizer_super/usvfs".to_string()]
    );
    assert_eq!(local_repo_candidates("/b", "modorganizer", '/'), vec!["/b/modorganizer_super/modorganizer".to_string()]);
}

#[test]
fn test_pr_match_getters() {
    let m = PrMatch::new(
        "repo".to_string(),
        5,
        "title".to_string(),
        "branch".to_string(),
        "abc".to_string(),
        "url".to_string(),
        None,
    );
    assert_eq!(m.repo(), "repo");
    assert_eq!(m.pr_number(), 5);
    assert_eq!(m.title(), "title");
    assert_eq!(m.head_ref(), "branch");
    assert_eq!(m.head_sha(), "abc");
    assert_eq!(m.clone_url(), "url");
    assert!(m.local_path().is_none());
}

#[test]
fn test_find_local_repo_not_found() {
    let temp = tempfile::tempdir().expect("failed to create temp dir");
    let build = temp.path();

    let mut config = Config::default();
    config.paths.build = Some(build.to_string_lossy().to_string());

    let found = find_local_repo(&config, "nonexistent", |p: &str| std::path::Path::new(p).join(".git").exists());
    assert!(found.is_none());
}

#[test]
fn test_find_local_repo_found() {
    let temp = tempfile::tempdir().expect("failed to create temp dir");
    let sup = named_dir(temp.path(), "modorganizer_super");
    let repo_dir = named_dir(sup.path(), "uibase");
    let _git = named_dir(repo_dir.path(), ".git");
    let repo = repo_dir.path().to_path_buf();

    let mut config = Config::default();
    config.paths.build = Some(temp.path().to_string_lossy().to_string());
    let found = find_local_repo(&config, "uibase", |p: &str| std::path::Path::new(p).join(".git").exists());
    assert_eq!(found.map(std::path::PathBuf::from), Some(repo));
    assert!(find_local_repo(&Config::default(), "uibase", |_p: &str| true).is_none());
}

fn named_dir(parent: &std::path::Path, name: &str) -> tempfile::TempDir {
    tempfile::Builder::new().rand_bytes(0).prefix(name).tempdir_in(parent).expect("failed to create directory")
}

#[test]
fn test_find_local_repo_usvfs() {
    let temp = tempfile::tempdir().expect("failed to create temp dir");
    let usvfs = named_dir(temp.path(), "usvfs");
    let _git = named_dir(usvfs.path(), ".git");
    let mut config = Config::default();
    config.paths.build = Some(temp.path().to_string_lossy().to_string());
    let found = find_local_repo(&config, "usvfs", |p: &str| std::path::Path::new(p).join(".git").exists());
    assert!(found.is_some());
    assert!(found.unwrap().ends_with("usvfs"));
}

#[test]
fn test_find_local_repo_modorganizer() {
    let temp = tempfile::tempdir().expect("failed to create temp dir");
    let sup = named_dir(temp.path(), "modorganizer_super");
    let repo = named_dir(sup.path(), "modorganizer");
    let _git = named_dir(repo.path(), ".git");
    let mut config = Config::default();
    config.paths.build = Some(temp.path().to_string_lossy().to_string());
    let found = find_local_repo(&config, "modorganizer", |p: &str| std::path::Path::new(p).join(".git").exists());
    assert!(found.is_some());
    assert!(found.unwrap().ends_with("modorganizer"));
}
