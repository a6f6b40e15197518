use miniapp_factory::config::Config;
use miniapp_factory::deployment::{
    begin, race, result_record, Action, Assignment, Command, Deployment, Event, Stage,
    WaitResult, EDIT_BUDGET_SECS,
};

fn config() -> Config {
    Config::from_values(Some("/data".to_string()), None, None, None, None, None)
}

fn assignment(version: Option<&str>) -> Assignment {
    Assignment {
        project: "demo".to_string(),
        instructions: "add a footer".to_string(),
        version: version.map(|v| v.to_string()),
    }
}

fn ok(stdout: &[u8]) -> Event {
    Event::Completed { success: true, stdout: stdout.to_vec() }
}

fn run_args(a: &Action) -> Vec<String> {
    match a {
        Action::Run(Command { program, args, cwd, envs }) => {
            assert_eq!(program, "git");
            assert!(cwd.is_none());
            assert!(envs.is_empty());
            args.clone()
        }
        _ => panic!("expected a command"),
    }
}

fn strs(v: &[&str]) -> Vec<String> {
    v.iter().map(|s| s.to_string()).collect()
}

#[test]
fn no_assignment_does_nothing() {
    assert!(begin(config(), None).is_none());
}

#[test]
fn example_run_without_version() {
    let (mut d, act) = begin(config(), Some(assignment(None))).unwrap();
    assert_eq!(run_args(&act), strs(&["clone", "github:miniapp-factory/demo", "/data/projects/demo"]));

    let act = d.step(ok(b""));
    assert_eq!(d.stage, Stage::Editing);
    match act {
        Action::Edit(cmd, budget) => {
            assert_eq!(budget, 1200);
            assert_eq!(cmd.program, "aider");
            assert_eq!(cmd.cwd.as_deref(), Some("/data/projects/demo/mini-app"));
            assert_eq!(cmd.args.last().unwrap(), "add a footer");
            assert_eq!(cmd.args[1], "ollama_chat/gpt-oss:20b");
            assert_eq!(cmd.args[3], "/data/.aider.model.settings.yml");
            assert_eq!(
                cmd.args[7],
                "npm i --cwd /data/projects/demo/mini-app --no-save && npm run --cwd /data/projects/demo/mini-app build"
            );
            assert_eq!(cmd.args[10], "/data/projects/demo/documentation/index.md");
            assert_eq!(cmd.args[12], "/data/projects/demo/mini-app/lib/metadata.ts");
            assert_eq!(cmd.args.len(), 20);
            assert_eq!(cmd.envs[0], ("OLLAMA_API_BASE".to_string(), "http://127.0.0.1:11434".to_string()));
            assert_eq!(cmd.envs[1], ("HOME".to_string(), "/data".to_string()));
        }
        _ => panic!("expected the edit"),
    }

    let act = d.step(ok(b""));
    assert_eq!(run_args(&act), strs(&["-C", "/data/projects/demo", "add", "-A"]));
    let act = d.step(ok(b""));
    assert_eq!(run_args(&act), strs(&["-C", "/data/projects/demo", "commit", "-m", "aider chat history"]));
    let act = d.step(ok(b""));
    assert_eq!(run_args(&act), strs(&["-C", "/data/projects/demo", "push", "-f"]));
    let act = d.step(ok(b""));
    assert_eq!(run_args(&act), strs(&["-C", "/data/projects/demo", "rev-parse", "HEAD"]));

    let act = d.step(ok(b"abc123\n"));
    assert_eq!(d.git_hash, "abc123\n");
    assert!(matches!(act, Action::RemoveDir(ref p) if p == "/data/projects/demo"));

    let act = d.step(Event::Failed);
    match act {
        Action::WriteFile(p, t) => {
            assert_eq!(p, "/data/assignment.json");
            assert_eq!(t, "{\"git_hash\":\"abc123\\n\"}");
        }
        _ => panic!("expected the result"),
    }
    let act = d.step(ok(b""));
    assert!(matches!(act, Action::Finish));
    assert_eq!(d.stage, Stage::Done);
}

#[test]
fn version_is_pinned_and_failure_passed_over() {
    let (mut d, _) = begin(config(), Some(assignment(Some("v1.2")))).unwrap();
    let act = d.step(ok(b""));
    assert_eq!(run_args(&act), strs(&["-C", "/data/projects/demo", "reset", "--hard", "v1.2"]));
    let act = d.step(Event::Completed { success: false, stdout: vec![] });
    assert_eq!(d.stage, Stage::Editing);
    assert!(matches!(act, Action::Edit(_, _)));
}

#[test]
fn timeout_kills_and_still_publishes() {
    assert_eq!(race(Some(25 * 60), EDIT_BUDGET_SECS), WaitResult::Expired);
    let (mut d, _) = begin(config(), Some(assignment(None))).unwrap();
    d.step(ok(b""));
    let act = d.step(Event::TimedOut);
    assert!(matches!(act, Action::Kill));
    let act = d.step(Event::Failed);
    assert_eq!(run_args(&act)[2], "add");
    let act = d.step(Event::Failed);
    assert_eq!(run_args(&act)[2], "commit");
    let act = d.step(Event::Completed { success: false, stdout: vec![] });
    assert_eq!(run_args(&act)[2], "push");
    let act = d.step(Event::Failed);
    assert_eq!(run_args(&act)[2], "rev-parse");
    d.step(ok(b"deadbeef"));
    let act = d.step(ok(b""));
    assert!(matches!(act, Action::WriteFile(_, ref t) if t == "{\"git_hash\":\"deadbeef\"}"));
}

#[test]
fn race_outcomes() {
    assert_eq!(race(Some(10), 1200), WaitResult::Exited);
    assert_eq!(race(Some(1200), 1200), WaitResult::Exited);
    assert_eq!(race(Some(1201), 1200), WaitResult::Expired);
    assert_eq!(race(None, 1200), WaitResult::Expired);
}

#[test]
fn failed_clone_aborts() {
    let (mut d, _) = begin(config(), Some(assignment(None))).unwrap();
    assert!(matches!(d.step(Event::Failed), Action::Abort));
    assert!(matches!(d.step(ok(b"")), Action::Abort));
    let (mut d, _) = begin(config(), Some(assignment(None))).unwrap();
    assert!(matches!(d.step(Event::Completed { success: false, stdout: vec![] }), Action::Abort));
}

fn at_capture() -> Deployment {
    let mut d = Deployment::new(config(), assignment(None));
    d.stage = Stage::Capturing;
    d
}

#[test]
fn failed_capture_aborts() {
    let mut d = at_capture();
    assert!(matches!(d.step(Event::Failed), Action::Abort));
    let mut d = at_capture();
    assert!(matches!(d.step(Event::Completed { success: false, stdout: b"abc".to_vec() }), Action::Abort));
    let mut d = at_capture();
    assert!(matches!(d.step(ok(&[0xff, 0xfe])), Action::Abort));
    assert_eq!(d.stage, Stage::Aborted);
}

#[test]
fn capture_decodes_utf8() {
    let mut d = at_capture();
    d.step(ok("h\u{e9}".as_bytes()));
    assert_eq!(d.git_hash, "h\u{e9}");
    let act = d.step(ok(b""));
    assert!(matches!(act, Action::WriteFile(_, ref t) if t == "{\"git_hash\":\"h\u{e9}\"}"));
}

#[test]
fn result_record_frames_the_encoded_hash() {
    assert_eq!(result_record("\"x\""), "{\"git_hash\":\"x\"}");
}
