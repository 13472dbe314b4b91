use mob_rs::cmd::git::{add_remote_only, branch_line, ignore_ts_summary, shows_branch};
use mob_rs::config::types::RemoteSetup;
use mob_rs::config::Config;
use mob_rs::error::GitError;
use mob_rs::git::cmd::{head_branch, head_branch_args, 
    add_remote_args, assume_unchanged_args, branch_listed, checkout_args, clone_args, command_text,
    fetch_refspec_args, ls_remote_args, pull_args, putty_key_args,
};
use mob_rs::git::ops::{
    add_remote_calls, add_remote_to_repos, branch_label, build_dir, fetch_refspec, find_ts_files, fork_url,
    ignore_ts_calls, list_branches, remote_org, repo_dirs, repo_name, set_ignore_ts, set_remotes_calls,
    set_remotes_for_all, wants_repo, GitCall,
};

fn strs(v: &[&str]) -> Vec<String> {
    v.iter().map(|s| s.to_string()).collect()
}

fn calls(v: &[GitCall]) -> Vec<(Vec<String>, bool)> {
    v.iter().map(|c| (c.args.clone(), c.may_fail)).collect()
}

#[test]
fn test_clone_args_shallow_with_branch() {
    let a = clone_args("https://x/y.git", "/tmp/y", Some("dev"), true);
    assert_eq!(
        a,
        strs(&[
            "clone",
            "--recurse-submodules",
            "--quiet",
            "-c",
            "advice.detachedHead=false",
            "--depth",
            "1",
            "--branch",
            "dev",
            "https://x/y.git",
            "/tmp/y"
        ])
    );
}

#[test]
fn test_clone_args_plain() {
    let a = clone_args("u", "d", None, false);
    assert_eq!(a, strs(&["clone", "--recurse-submodules", "--quiet", "-c", "advice.detachedHead=false", "u", "d"]));
}

#[test]
fn test_other_git_args() {
    assert_eq!(pull_args("origin", "master"), strs(&["pull", "--recurse-submodules", "--quiet", "origin", "master"]));
    assert_eq!(checkout_args("v1"), strs(&["-c", "advice.detachedHead=false", "checkout", "-q", "v1"]));
    assert_eq!(fetch_refspec_args("url", "refs/pull/3/head"), strs(&["fetch", "--quiet", "url", "refs/pull/3/head"]));
    assert_eq!(add_remote_args("origin", "url"), strs(&["remote", "add", "origin", "url"]));
    assert_eq!(putty_key_args("origin", "k.ppk"), strs(&["config", "remote.origin.puttykeyfile", "k.ppk"]));
    assert_eq!(assume_unchanged_args("a.ts", true), strs(&["update-index", "--assume-unchanged", "a.ts"]));
    assert_eq!(assume_unchanged_args("a.ts", false), strs(&["update-index", "--no-assume-unchanged", "a.ts"]));
    assert_eq!(ls_remote_args("url", "dev"), strs(&["ls-remote", "--heads", "url", "refs/heads/dev"]));
}

#[test]
fn test_branch_listed_and_command_text() {
    assert!(branch_listed(Some("abc\trefs/heads/dev")));
    assert!(!branch_listed(Some("")));
    assert!(!branch_listed(None));
    assert_eq!(command_text(&strs(&["fetch", "--quiet", "origin"])), "git fetch --quiet origin");
}

#[test]
fn test_repo_dirs_sorted_hidden_skipped() {
    let entries = vec![
        ("uibase".to_string(), true),
        (".git".to_string(), true),
        ("archive".to_string(), true),
        ("README.md".to_string(), false),
        ("modorganizer".to_string(), true),
    ];
    let r = repo_dirs("/b", true, entries, '/');
    assert_eq!(
        r,
        strs(&[
            "/b/modorganizer_super/archive",
            "/b/modorganizer_super/modorganizer",
            "/b/modorganizer_super/uibase",
            "/b/usvfs"
        ])
    );
    let r = repo_dirs("/b", false, vec![], '/');
    assert!(r.is_empty());
}

#[test]
fn test_ts_files_filter_and_order() {
    let r = find_ts_files(
        "/r/src",
        strs(&["/r/src/b.ts", "/r/src/a.cpp", "/r/src/a.ts", "/r/src/x.tsx", "/r/src/b.ts", "/r/src/sub/c.ts"]),
        '/',
    );
    assert_eq!(r, strs(&["/r/src/a.ts", "/r/src/b.ts", "/r/src/sub/c.ts"]));
}

#[test]
fn test_ts_files_component_order() {
    let r = find_ts_files("/r/src", strs(&["/r/src/a-b.ts", "/r/src/a/b.ts"]), '/');
    assert_eq!(r, strs(&["/r/src/a/b.ts", "/r/src/a-b.ts"]));
}

#[test]
fn test_repo_name() {
    assert_eq!(repo_name("/b/modorganizer_super/uibase", '/'), "uibase");
    assert_eq!(repo_name("/", '/'), "unknown");
}

#[test]
fn test_build_dir() {
    let mut c = Config::default();
    assert_eq!(build_dir(&c), Err("paths.build not configured".to_string()));
    c.paths.build = Some("/mo/build".to_string());
    assert_eq!(build_dir(&c), Ok("/mo/build".to_string()));
}

#[test]
fn test_fork_url_and_remote_org() {
    assert_eq!(fork_url("git@github.com//", "me", "uibase"), "git@github.com:me/uibase.git");
    let mut setup = RemoteSetup::default();
    assert_eq!(remote_org(&setup, "user"), "user");
    setup.remote_org = "org".to_string();
    assert_eq!(remote_org(&setup, "user"), "org");
}

#[test]
fn test_set_remotes_calls_all_options() {
    let setup = RemoteSetup {
        remote_org: "".to_string(),
        remote_no_push_upstream: true,
        remote_push_default_origin: true,
    };
    let c = set_remotes_calls(&setup, "me", "me@x.org", Some("k.ppk"), "uibase");
    assert_eq!(
        calls(&c),
        vec![
            (strs(&["config", "user.name", "me"]), false),
            (strs(&["config", "user.email", "me@x.org"]), false),
            (strs(&["remote", "rename", "origin", "upstream"]), true),
            (strs(&["remote", "set-url", "--push", "upstream", "nopushurl"]), true),
            (strs(&["remote", "add", "origin", "git@github.com:me/uibase.git"]), false),
            (strs(&["config", "remote.origin.puttykeyfile", "k.ppk"]), false),
            (strs(&["config", "remote.pushDefault", "origin"]), false),
        ]
    );
}

#[test]
fn test_set_remotes_calls_minimal() {
    let setup = RemoteSetup::default();
    let c = set_remotes_calls(&setup, "me", "e", None, "r");
    assert_eq!(c.len(), 4);
    assert_eq!(c[3].args, strs(&["remote", "add", "origin", "git@github.com:me/r.git"]));
}

#[test]
fn test_add_remote_calls_and_filter() {
    let c = add_remote_calls("fork", "u", None);
    assert_eq!(calls(&c), vec![(strs(&["remote", "add", "fork", "u"]), false)]);
    assert!(wants_repo(&vec![], "any"));
    assert!(wants_repo(&strs(&["a", "b"]), "b"));
    assert!(!wants_repo(&strs(&["a", "b"]), "c"));
}

#[test]
fn test_ignore_ts_calls_and_branch_label() {
    let c = ignore_ts_calls(&strs(&["x.ts", "y.ts"]), false);
    assert_eq!(c.len(), 2);
    assert_eq!(c[1].args, strs(&["update-index", "--no-assume-unchanged", "y.ts"]));
    assert_eq!(branch_label(None), "(detached)");
    assert_eq!(branch_label(Some("dev".to_string())), "dev");
}

#[test]
fn test_git_command_reports() {
    assert_eq!(ignore_ts_summary(true, 3, true), "Would set assume-unchanged on 3 .ts files");
    assert_eq!(ignore_ts_summary(false, 0, false), "Unset assume-unchanged on 0 .ts files");
    assert!(!shows_branch(false, "master"));
    assert!(!shows_branch(false, "main"));
    assert!(shows_branch(false, "dev"));
    assert!(shows_branch(true, "main"));
    assert_eq!(branch_line("uibase", "dev"), format!("{:30} {}", "uibase", "dev"));
    let long = "x".repeat(35);
    assert_eq!(branch_line(&long, "b"), format!("{} b", long));
    assert_eq!(add_remote_only(Some("/b/super/uibase"), '/'), strs(&["uibase"]));
    assert!(add_remote_only(None, '/').is_empty());
}

#[test]
fn test_git_error_messages() {
    let e = GitError::CommandFailed { command: "git fetch".to_string(), message: "boom".to_string() };
    assert_eq!(e.message(), "git command failed: git fetch - boom");
    assert_eq!(GitError::Gix("x".to_string()).message(), "gix error: x");
}

#[test]
fn test_set_remotes_for_all_plans_each_repo() {
    let mut c = Config::default();
    c.task.remote_setup.remote_org = "myorg".to_string();
    let repos = strs(&["/b/modorganizer_super/uibase", "/b/usvfs"]);
    let plans = set_remotes_for_all(&c, "me", "me@x.org", None, &repos, '/');
    assert_eq!(plans.len(), 2);
    assert_eq!(plans[1].name, "usvfs");
    assert_eq!(plans[1].repo, "/b/usvfs");
    assert_eq!(plans[0].calls[3].args, strs(&["remote", "add", "origin", "git@github.com:myorg/uibase.git"]));
}

#[test]
fn test_add_remote_to_repos_filters() {
    let c = Config::default();
    let repos = strs(&["/b/modorganizer_super/uibase", "/b/modorganizer_super/archive"]);
    let plans = add_remote_to_repos(&c, "fork", "me", Some("k"), &strs(&["archive"]), &repos, '/');
    assert_eq!(plans.len(), 1);
    assert_eq!(plans[0].name, "archive");
    assert_eq!(plans[0].calls.len(), 2);
    let all = add_remote_to_repos(&c, "fork", "me", None, &vec![], &repos, '/');
    assert_eq!(all.len(), 2);
}

#[test]
fn test_set_ignore_ts_counts_ts_files() {
    let found = vec![
        ("/b/a".to_string(), strs(&["/b/a/src/x.ts", "/b/a/src/y.cpp"])),
        ("/b/c".to_string(), strs(&["/b/c/src/z.ts", "/b/c/src/w.ts"])),
    ];
    let (plans, count) = set_ignore_ts(&found, true, '/');
    assert_eq!(count, 3);
    assert_eq!(plans.len(), 2);
    assert_eq!(plans[1].calls[0].args, strs(&["update-index", "--assume-unchanged", "/b/c/src/w.ts"]));
}

#[test]
fn test_list_branches_and_fetch_refspec() {
    let l = list_branches(&strs(&["/a", "/b"]), vec![Some("dev".to_string()), None]);
    assert_eq!(l, vec![("/a".to_string(), "dev".to_string()), ("/b".to_string(), "(detached)".to_string())]);
    let f = fetch_refspec("url", "refs/pull/5/head");
    assert_eq!(f.args, strs(&["fetch", "--quiet", "url", "refs/pull/5/head"]));
    assert!(!f.may_fail);
}

#[test]
fn test_get_repos_errors_without_build_path() {
    let config = Config::default();
    let result = build_dir(&config);
    assert!(result.is_err());
    assert!(result.unwrap_err().contains("paths.build"));
}

#[test]
fn test_get_repos_handles_missing_directories() {
    let repos = repo_dirs("/nonexistent/build", false, vec![], '/');
    assert!(repos.is_empty());
}

#[test]
fn test_set_ignore_ts_counts_files_correctly() {
    let found = vec![(
        "/b/modorganizer_super/test-repo".to_string(),
        strs(&[
            "/b/modorganizer_super/test-repo/src/test1.ts",
            "/b/modorganizer_super/test-repo/src/test2.ts",
            "/b/modorganizer_super/test-repo/src/subdir/test3.ts",
            "/b/modorganizer_super/test-repo/src/test.js",
        ]),
    )];
    let (_plans, count) = set_ignore_ts(&found, true, '/');
    assert_eq!(count, 3, "should find 3 .ts files");
}

#[test]
fn test_head_branch() {
    assert_eq!(head_branch_args(), strs(&["rev-parse", "--abbrev-ref", "HEAD"]));
    assert_eq!(head_branch("main"), Some("main".to_string()));
    assert_eq!(head_branch("HEAD"), None);
}
