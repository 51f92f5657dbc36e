use boi::config::{
    config_search, join_path, split_path_list, Config, ConfigSearch, GlobalConfig, LoadError,
    RepoChoiceError, RepoConfig,
};
use indexmap::IndexMap;

fn repo(url: &str, remote: Option<&str>) -> RepoConfig {
    RepoConfig::new(url.to_string(), "pass show borg".to_string(), remote.map(|s| s.to_string()))
}

fn config(names: &[&str]) -> Config {
    let mut m = IndexMap::new();
    for n in names {
        m.insert(n.to_string(), repo(&format!("ssh://{n}/./repo"), None));
    }
    Config::new(GlobalConfig::new("Europe/Paris".to_string()), m)
}

#[test]
fn timezone_and_url() {
    let c = config(&["nas"]);
    assert_eq!(c.global().timezone(), "Europe/Paris");
    assert_eq!(repo("ssh://x/y", None).repo_url(), "ssh://x/y");
}

#[test]
fn repo_environment() {
    let r = repo("ssh://nas/./repo", None);
    assert_eq!(
        r.env(),
        vec![("BORG_REPO", "ssh://nas/./repo".to_string()), ("BORG_PASSCOMMAND", "pass show borg".to_string())]
    );
    let r = repo("ssh://h/r", Some("borg-1.4"));
    assert_eq!(
        r.env(),
        vec![
            ("BORG_REPO", "ssh://h/r".to_string()),
            ("BORG_PASSCOMMAND", "pass show borg".to_string()),
            ("BORG_REMOTE_PATH", "borg-1.4".to_string()),
        ]
    );
}

#[test]
fn repos_in_order() {
    let c = config(&["nas", "remote", "usb"]);
    let names: Vec<&str> = c.repos().iter().map(|(n, _)| *n).collect();
    assert_eq!(names, vec!["nas", "remote", "usb"]);
    assert_eq!(c.repos()[1].1.repo_url(), "ssh://remote/./repo");
    assert!(config(&[]).repos().is_empty());
}

#[test]
fn choosing_the_only_repo() {
    let c = config(&["nas"]);
    let (name, r) = c.one().unwrap();
    assert_eq!(name, "nas");
    assert_eq!(r.repo_url(), "ssh://nas/./repo");
    assert_eq!(config(&["a", "b"]).one().unwrap_err(), RepoChoiceError::MoreThanOne);
    assert_eq!(config(&[]).one().unwrap_err(), RepoChoiceError::NoRepos);
}

#[test]
fn choosing_by_name() {
    let c = config(&["nas", "remote"]);
    assert_eq!(c.get("remote").unwrap().repo_url(), "ssh://remote/./repo");
    let e = c.get("cloud").unwrap_err();
    assert_eq!(e, RepoChoiceError::Unknown("cloud".to_string()));
    assert_eq!(e.message(), "Can't find any \"cloud\" repo in your config; what do I operate on?");
    assert_eq!(
        RepoChoiceError::MoreThanOne.message(),
        "Found more than one repo in your config; you'll need to pick one."
    );
    assert_eq!(
        RepoChoiceError::NoRepos.message(),
        "Can't find any repos in your config; what do I operate on?"
    );
    assert_eq!(
        RepoChoiceError::Unknown("a\"b".to_string()).message(),
        "Can't find any \"a\\\"b\" repo in your config; what do I operate on?"
    );
}

#[test]
fn load_errors() {
    let open = LoadError::Open("No such file or directory (os error 2)".to_string());
    assert_eq!(open.describe(), "No such file or directory (os error 2)");
    assert_eq!(
        open.die_message(),
        "Can't load the boi config (No such file or directory (os error 2)); I can't do anything!"
    );
    let parse = LoadError::Parse { message: "missing field `global`".to_string(), detail: "TOML parse error\nmissing field `global`\n".to_string() };
    assert_eq!(parse.describe(), "missing field `global`");
    assert_eq!(
        parse.die_message(),
        "Can't load the boi config; I can't do anything!\n\nTOML parse error\nmissing field `global`\n"
    );
}

#[test]
fn path_joining() {
    assert_eq!(join_path("/etc", "boi"), "/etc/boi");
    assert_eq!(join_path("/etc/", "boi"), "/etc/boi");
    assert_eq!(join_path("", "boi"), "boi");
    assert_eq!(join_path("/", "boi.toml"), "/boi.toml");
}

#[test]
fn path_lists() {
    assert_eq!(split_path_list("/etc/xdg"), vec!["/etc/xdg"]);
    assert_eq!(split_path_list("/a:/b::/c"), vec!["/a", "/b", "", "/c"]);
    assert_eq!(split_path_list(""), vec![""]);
    assert_eq!(split_path_list(":"), vec!["", ""]);
}

#[test]
fn explicit_config_dir_is_the_only_place() {
    let s = config_search(Some("/srv/conf".to_string()), Some("/x".to_string()), Some("/home/me".to_string()), None);
    assert_eq!(s, ConfigSearch::Exactly("/srv/conf/boi.toml".to_string()));
}

#[test]
fn xdg_search_order() {
    let s = config_search(None, None, Some("/home/me".to_string()), None);
    assert_eq!(
        s,
        ConfigSearch::FirstExisting(vec![
            "/home/me/.config/boi/boi.toml".to_string(),
            "/etc/xdg/boi/boi.toml".to_string(),
        ])
    );
    let s = config_search(None, Some("/cfg/".to_string()), Some("/home/me".to_string()), Some("/a:/b".to_string()));
    assert_eq!(
        s,
        ConfigSearch::FirstExisting(vec![
            "/cfg/boi/boi.toml".to_string(),
            "/a/boi/boi.toml".to_string(),
            "/b/boi/boi.toml".to_string(),
        ])
    );
    let s = config_search(None, None, None, Some(String::new()));
    assert_eq!(s, ConfigSearch::FirstExisting(vec!["boi/boi.toml".to_string()]));
}
