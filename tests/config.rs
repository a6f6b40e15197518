use miniapp_factory::config::{aider, datadir, git, join_path, model, npm, projectsdir, Config};
use miniapp_factory::text::concatenate;

#[test]
fn defaults() {
    assert_eq!(datadir(None), "/var/lib/miniapp-factory");
    assert_eq!(projectsdir(None, "/var/lib/miniapp-factory"), "/var/lib/miniapp-factory/projects");
    assert_eq!(model(None), "gpt-oss:20b");
    assert_eq!(git(None), "");
    assert_eq!(npm(None), "npm");
    assert_eq!(aider(None), "");
}

#[test]
fn configured_values_win() {
    assert_eq!(datadir(Some("/d".to_string())), "/d");
    assert_eq!(projectsdir(Some("/p".to_string()), "/d"), "/p");
    assert_eq!(model(Some("m".to_string())), "m");
    assert_eq!(git(Some("/usr/bin/".to_string())), "/usr/bin/");
    assert_eq!(npm(Some("pnpm".to_string())), "pnpm");
    assert_eq!(aider(Some("/opt/".to_string())), "/opt/");
}

#[test]
fn config_from_values() {
    let c = Config::from_values(Some("/d".to_string()), None, None, Some("x-".to_string()), None, None);
    assert_eq!(c.datadir, "/d");
    assert_eq!(c.projectsdir, "/d/projects");
    assert_eq!(c.git, "x-");
    assert_eq!(c.npm, "npm");
}

#[test]
fn joining_and_concatenating() {
    assert_eq!(join_path("/a", "b"), "/a/b");
    assert_eq!(concatenate("ab", "cd"), "abcd");
}
