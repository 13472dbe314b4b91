use mob_rs::cmd::tx::{tx_add_remote_args, tx_init_args, tx_pull_args};

fn strs(v: &[&str]) -> Vec<String> {
    v.iter().map(|s| s.to_string()).collect()
}

#[test]
fn test_tx_client_arguments() {
    assert_eq!(tx_init_args(), strs(&["init"]));
    assert_eq!(
        tx_add_remote_args("https://app.transifex.com/team/project"),
        strs(&["add", "remote", "https://app.transifex.com/team/project"])
    );
    assert_eq!(tx_pull_args(60, false), strs(&["pull", "--all", "--minimum-perc=60"]));
    assert_eq!(tx_pull_args(100, true), strs(&["pull", "--all", "--minimum-perc=100", "--force"]));
}
