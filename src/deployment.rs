//! One deployment run as a state machine.
//!
//! A run moves through fixed stages: clone, pin the version, edit under a
//! time budget, stage, commit, push, capture the revision, remove the
//! checkout, write the result. `Deployment::step` takes how the last
//! operation ended and returns the next operation to perform. Only a failed
//! clone, a failed capture and a failed encoding of the result end a run
//! early; every other failure is passed over.

use vstd::prelude::*;
use crate::config::{join, join_path, Config};
use crate::text::{
    append, concatenate, decode_utf8, encode_json_str, json_str_of, owned, text_of, utf8_text_of,
};

verus! {

/// Seconds the editing tool may run before it is killed.
pub const EDIT_BUDGET_SECS: u64 = 1200;

/// Where the remote repositories live; the project name follows.
pub const REMOTE_PREFIX: &'static str = "github:miniapp-factory/";

/// The message of the commit that records the edit.
pub const COMMIT_MESSAGE: &'static str = "aider chat history";

/// The file, in the data directory, that holds the assignment and later the
/// result.
pub const RECORD_FILE: &'static str = "assignment.json";

/// The model settings file, in the data directory.
pub const SETTINGS_FILE: &'static str = ".aider.model.settings.yml";

/// The address of the model server handed to the editing tool.
pub const API_BASE: &'static str = "http://127.0.0.1:11434";

/// The task of one run.
pub struct Assignment {
    /// Names the remote repository and the checkout directory.
    pub project: String,
    /// The edit request, handed to the editing tool as it is.
    pub instructions: String,
    /// The revision to reset the checkout to, if any.
    pub version: Option<String>,
}

/// An outside program to run.
pub struct Command {
    pub program: String,
    pub args: Vec<String>,
    /// The working directory; `None` keeps the caller's.
    pub cwd: Option<String>,
    /// Environment variables set for the program.
    pub envs: Vec<(String, String)>,
}

/// Where a run stands: the stage names the operation last requested.
#[derive(PartialEq, Eq, Structural, Clone, Copy, Debug)]
pub enum Stage {
    Cloning,
    Resetting,
    Editing,
    Killing,
    Adding,
    Committing,
    Pushing,
    Capturing,
    Cleaning,
    Writing,
    Done,
    Aborted,
}

/// The next operation for the caller to perform.
pub enum Action {
    /// Run the command to completion.
    Run(Command),
    /// Start the command and wait for it at most the given number of seconds.
    Edit(Command, u64),
    /// Kill the editing tool, which is still running.
    Kill,
    /// Remove the directory and all it holds.
    RemoveDir(String),
    /// Write the text to the file, replacing what it held.
    WriteFile(String, String),
    /// Stop the process at once: the run cannot go on.
    Abort,
    /// Nothing is left to do.
    Finish,
}

/// How the last operation ended.
pub enum Event {
    /// It ran and ended, successfully or not, with this standard output.
    Completed { success: bool, stdout: Vec<u8> },
    /// It could not be performed (the program could not be started).
    Failed,
    /// The time budget ran out first.
    TimedOut,
}

/// One run: its settings, its task and where it stands.
pub struct Deployment {
    pub config: Config,
    pub assignment: Assignment,
    pub stage: Stage,
    /// The captured revision, once there is one.
    pub git_hash: String,
}

/// What a sequence of strings holds.
pub open spec fn views(v: Seq<String>) -> Seq<Seq<char>> {
    v.map_values(|s: String| s@)
}

/// The checkout directory of the project.
pub open spec fn workspace(c: Config, a: Assignment) -> Seq<char> {
    join(c.projectsdir@, a.project@)
}

/// The part of the checkout that the editing tool works in.
pub open spec fn project_dir(c: Config, a: Assignment) -> Seq<char> {
    join(workspace(c, a), "mini-app"@)
}

/// The file that holds the assignment and then the result.
pub open spec fn record_path(c: Config) -> Seq<char> {
    join(c.datadir@, RECORD_FILE@)
}

/// The version control program.
pub open spec fn git_program(c: Config) -> Seq<char> {
    c.git@ + "git"@
}

/// The editing program.
pub open spec fn edit_program(c: Config) -> Seq<char> {
    c.aider@ + "aider"@
}

/// The revision named by the assignment; empty where there is none.
pub open spec fn version_of(a: Assignment) -> Seq<char> {
    match a.version {
        Some(v) => v@,
        None => Seq::empty(),
    }
}

/// The version control arguments of a stage that runs one.
pub open spec fn git_args(s: Stage, c: Config, a: Assignment) -> Seq<Seq<char>> {
    let ws = workspace(c, a);
    match s {
        Stage::Cloning => seq!["clone"@, REMOTE_PREFIX@ + a.project@, ws],
        Stage::Resetting => seq!["-C"@, ws, "reset"@, "--hard"@, version_of(a)],
        Stage::Adding => seq!["-C"@, ws, "add"@, "-A"@],
        Stage::Committing => seq!["-C"@, ws, "commit"@, "-m"@, COMMIT_MESSAGE@],
        Stage::Pushing => seq!["-C"@, ws, "push"@, "-f"@],
        _ => seq!["-C"@, ws, "rev-parse"@, "HEAD"@],
    }
}

/// Whether a stage runs a version control command.
pub open spec fn is_git_stage(s: Stage) -> bool {
    s == Stage::Cloning || s == Stage::Resetting || s == Stage::Adding || s == Stage::Committing
        || s == Stage::Pushing || s == Stage::Capturing
}

/// The self-test command of the editing tool: install, then build.
pub open spec fn test_cmd(c: Config, a: Assignment) -> Seq<char> {
    let pd = project_dir(c, a);
    c.npm@ + " i --cwd "@ + pd + " --no-save && "@ + c.npm@ + " run --cwd "@ + pd + " build"@
}

/// The arguments of the editing tool.
pub open spec fn edit_args(c: Config, a: Assignment) -> Seq<Seq<char>> {
    let ws = workspace(c, a);
    let pd = project_dir(c, a);
    seq![
        "--model"@,
        "ollama_chat/"@ + c.model@,
        "--model-settings-file"@,
        join(c.datadir@, SETTINGS_FILE@),
        "--restore-chat-history"@,
        "--no-gitignore"@,
        "--test-cmd"@,
        test_cmd(c, a),
        "--auto-test"@,
        "--read"@,
        join(join(ws, "documentation"@), "index.md"@),
        "--file"@,
        join(join(pd, "lib"@), "metadata.ts"@),
        "--disable-playwright"@,
        "--no-detect-urls"@,
        "--no-suggest-shell-commands"@,
        "--edit-format"@,
        "diff"@,
        "--message"@,
        a.instructions@,
    ]
}

/// The text of the result record for a revision.
pub open spec fn record_text(hash: Seq<char>) -> Seq<char> {
    "{\"git_hash\":"@ + json_str_of(hash) + "}"@
}

/// The command is the version control command of stage `s`.
pub open spec fn is_git_command(cmd: Command, s: Stage, c: Config, a: Assignment) -> bool {
    &&& cmd.program@ == git_program(c)
    &&& views(cmd.args@) == git_args(s, c, a)
    &&& cmd.cwd is None
    &&& cmd.envs@.len() == 0
}

/// The command is the editing tool's, in the project directory, with the
/// model server's address and the data directory as home.
pub open spec fn is_edit_command(cmd: Command, c: Config, a: Assignment) -> bool {
    &&& cmd.program@ == edit_program(c)
    &&& views(cmd.args@) == edit_args(c, a)
    &&& text_of(cmd.cwd) == Some(project_dir(c, a))
    &&& cmd.envs@.len() == 2
    &&& cmd.envs@[0].0@ == "OLLAMA_API_BASE"@
    &&& cmd.envs@[0].1@ == API_BASE@
    &&& cmd.envs@[1].0@ == "HOME"@
    &&& cmd.envs@[1].1@ == c.datadir@
}

/// `act` is the operation that a run in stage `d.stage` requests.
pub open spec fn emits(d: Deployment, act: Action) -> bool {
    match d.stage {
        Stage::Editing => act matches Action::Edit(cmd, budget) && budget == EDIT_BUDGET_SECS
            && is_edit_command(cmd, d.config, d.assignment),
        Stage::Killing => act is Kill,
        Stage::Cleaning => act matches Action::RemoveDir(p) && p@ == workspace(
            d.config,
            d.assignment,
        ),
        Stage::Writing => act matches Action::WriteFile(p, t) && p@ == record_path(d.config)
            && t@ == record_text(d.git_hash@),
        Stage::Done => act is Finish,
        Stage::Aborted => act is Abort,
        _ => act matches Action::Run(cmd) && is_git_command(cmd, d.stage, d.config, d.assignment),
    }
}

/// The event is a command that ran and succeeded.
pub open spec fn succeeded(e: Event) -> bool {
    e matches Event::Completed { success: true, .. }
}

/// The revision that a capture event reports: the output of a successful
/// command, where it is valid UTF-8.
pub open spec fn captured(e: Event) -> Option<Seq<char>> {
    match e {
        Event::Completed { success, stdout } => if success {
            utf8_text_of(stdout@)
        } else {
            None
        },
        _ => None,
    }
}

/// The stage after `s` on event `e`. After `Cleaning` the run goes on to
/// `Writing` unless the result cannot be encoded.
pub open spec fn next_stage(s: Stage, has_version: bool, e: Event) -> Stage {
    match s {
        Stage::Cloning => if !succeeded(e) {
            Stage::Aborted
        } else if has_version {
            Stage::Resetting
        } else {
            Stage::Editing
        },
        Stage::Resetting => Stage::Editing,
        Stage::Editing => if e is TimedOut {
            Stage::Killing
        } else {
            Stage::Adding
        },
        Stage::Killing => Stage::Adding,
        Stage::Adding => Stage::Committing,
        Stage::Committing => Stage::Pushing,
        Stage::Pushing => Stage::Capturing,
        Stage::Capturing => if captured(e) is Some {
            Stage::Cleaning
        } else {
            Stage::Aborted
        },
        Stage::Cleaning => Stage::Writing,
        Stage::Writing => Stage::Done,
        Stage::Done => Stage::Done,
        Stage::Aborted => Stage::Aborted,
    }
}

/// The result record for a revision, given its JSON string form `encoded`.
pub fn result_record(encoded: &str) -> (r: String)
    ensures
        r@ == "{\"git_hash\":"@ + encoded@ + "}"@,
{
    let mut r = owned("{\"git_hash\":");
    append(&mut r, encoded);
    append(&mut r, "}");
    r
}

fn push_arg(v: &mut Vec<String>, s: String)
    ensures
        views(final(v)@) == views(old(v)@).push(s@),
{
    v.push(s);
    assert(views(v@) =~= views(old(v)@).push(s@));
}

impl Deployment {
    /// A run of `assignment` that is about to clone.
    pub fn new(config: Config, assignment: Assignment) -> (r: Deployment)
        ensures
            r.config == config,
            r.assignment == assignment,
            r.stage == Stage::Cloning,
            r.git_hash@ == Seq::<char>::empty(),
    {
        Deployment { config, assignment, stage: Stage::Cloning, git_hash: String::new() }
    }

    fn workspace_path(&self) -> (r: String)
        ensures
            r@ == workspace(self.config, self.assignment),
    {
        join_path(self.config.projectsdir.as_str(), self.assignment.project.as_str())
    }

    fn git_command(&self, s: Stage) -> (r: Command)
        requires
            is_git_stage(s),
        ensures
            is_git_command(r, s, self.config, self.assignment),
    {
        let ws = self.workspace_path();
        let mut args: Vec<String> = Vec::new();
        match s {
            Stage::Cloning => {
                push_arg(&mut args, owned("clone"));
                push_arg(&mut args, concatenate(REMOTE_PREFIX, self.assignment.project.as_str()));
                push_arg(&mut args, ws);
            },
            _ => {
                push_arg(&mut args, owned("-C"));
                push_arg(&mut args, ws);
                match s {
                    Stage::Resetting => {
                        push_arg(&mut args, owned("reset"));
                        push_arg(&mut args, owned("--hard"));
                        let v = match &self.assignment.version {
                            Some(v) => v.clone(),
                            None => String::new(),
                        };
                        push_arg(&mut args, v);
                    },
                    Stage::Adding => {
                        push_arg(&mut args, owned("add"));
                        push_arg(&mut args, owned("-A"));
                    },
                    Stage::Committing => {
                        push_arg(&mut args, owned("commit"));
                        push_arg(&mut args, owned("-m"));
                        push_arg(&mut args, owned(COMMIT_MESSAGE));
                    },
                    Stage::Pushing => {
                        push_arg(&mut args, owned("push"));
                        push_arg(&mut args, owned("-f"));
                    },
                    _ => {
                        push_arg(&mut args, owned("rev-parse"));
                        push_arg(&mut args, owned("HEAD"));
                    },
                }
            },
        }
        assert(views(args@) =~= git_args(s, self.config, self.assignment));
        Command {
            program: concatenate(self.config.git.as_str(), "git"),
            args,
            cwd: None,
            envs: Vec::new(),
        }
    }

    fn edit_command(&self) -> (r: Command)
        ensures
            is_edit_command(r, self.config, self.assignment),
    {
        let c = &self.config;
        let ws = self.workspace_path();
        let pd = join_path(ws.as_str(), "mini-app");
        let mut test = concatenate(c.npm.as_str(), " i --cwd ");
        append(&mut test, pd.as_str());
        append(&mut test, " --no-save && ");
        append(&mut test, c.npm.as_str());
        append(&mut test, " run --cwd ");
        append(&mut test, pd.as_str());
        append(&mut test, " build");
        let docs = join_path(ws.as_str(), "documentation");
        let lib = join_path(pd.as_str(), "lib");
        let mut args: Vec<String> = Vec::new();
        push_arg(&mut args, owned("--model"));
        push_arg(&mut args, concatenate("ollama_chat/", c.model.as_str()));
        push_arg(&mut args, owned("--model-settings-file"));
        push_arg(&mut args, join_path(c.datadir.as_str(), SETTINGS_FILE));
        push_arg(&mut args, owned("--restore-chat-history"));
        push_arg(&mut args, owned("--no-gitignore"));
        push_arg(&mut args, owned("--test-cmd"));
        push_arg(&mut args, test);
        push_arg(&mut args, owned("--auto-test"));
        push_arg(&mut args, owned("--read"));
        push_arg(&mut args, join_path(docs.as_str(), "index.md"));
        push_arg(&mut args, owned("--file"));
        push_arg(&mut args, join_path(lib.as_str(), "metadata.ts"));
        push_arg(&mut args, owned("--disable-playwright"));
        push_arg(&mut args, owned("--no-detect-urls"));
        push_arg(&mut args, owned("--no-suggest-shell-commands"));
        push_arg(&mut args, owned("--edit-format"));
        push_arg(&mut args, owned("diff"));
        push_arg(&mut args, owned("--message"));
        push_arg(&mut args, self.assignment.instructions.clone());
        assert(views(args@) =~= edit_args(self.config, self.assignment));
        let mut envs: Vec<(String, String)> = Vec::new();
        envs.push((owned("OLLAMA_API_BASE"), owned(API_BASE)));
        envs.push((owned("HOME"), c.datadir.clone()));
        Command { program: concatenate(c.aider.as_str(), "aider"), args, cwd: Some(pd), envs }
    }

    /// The operation that the current stage requests; the result record is
    /// only made on the way into `Writing`.
    fn action(&self) -> (r: Action)
        requires
            self.stage != Stage::Writing,
        ensures
            emits(*self, r),
    {
        match self.stage {
            Stage::Editing => Action::Edit(self.edit_command(), EDIT_BUDGET_SECS),
            Stage::Killing => Action::Kill,
            Stage::Cleaning => Action::RemoveDir(self.workspace_path()),
            Stage::Done => Action::Finish,
            Stage::Aborted => Action::Abort,
            s => Action::Run(self.git_command(s)),
        }
    }

    /// Moves the run on by how the last requested operation ended, and
    /// returns the next operation to perform.
    pub fn step(&mut self, event: Event) -> (r: Action)
        ensures
            final(self).config == old(self).config,
            final(self).assignment == old(self).assignment,
            old(self).stage != Stage::Cleaning ==> final(self).stage == next_stage(
                old(self).stage,
                old(self).assignment.version is Some,
                event,
            ),
            old(self).stage == Stage::Cleaning ==> (final(self).stage == Stage::Writing
                || final(self).stage == Stage::Aborted),
            old(self).stage == Stage::Capturing ==> (captured(event) matches Some(h)
                ==> final(self).git_hash@ == h),
            old(self).stage != Stage::Capturing ==> final(self).git_hash == old(self).git_hash,
            emits(*final(self), r),
    {
        let has_version = self.assignment.version.is_some();
        match self.stage {
            Stage::Cleaning => {
                match encode_json_str(self.git_hash.as_str()) {
                    Ok(t) => {
                        self.stage = Stage::Writing;
                        let p = join_path(self.config.datadir.as_str(), RECORD_FILE);
                        return Action::WriteFile(p, result_record(t.as_str()));
                    },
                    Err(_) => {
                        self.stage = Stage::Aborted;
                        return Action::Abort;
                    },
                }
            },
            Stage::Capturing => {
                let decoded = match event {
                    Event::Completed { success, stdout } => if success {
                        decode_utf8(stdout)
                    } else {
                        None
                    },
                    _ => None,
                };
                match decoded {
                    Some(h) => {
                        self.git_hash = h;
                        self.stage = Stage::Cleaning;
                    },
                    None => {
                        self.stage = Stage::Aborted;
                    },
                }
            },
            Stage::Cloning => {
                let ok = match &event {
                    Event::Completed { success, .. } => *success,
                    _ => false,
                };
                self.stage = if !ok {
                    Stage::Aborted
                } else if has_version {
                    Stage::Resetting
                } else {
                    Stage::Editing
                };
            },
            Stage::Editing => {
                self.stage = match event {
                    Event::TimedOut => Stage::Killing,
                    _ => Stage::Adding,
                };
            },
            Stage::Resetting => {
                self.stage = Stage::Editing;
            },
            Stage::Killing => {
                self.stage = Stage::Adding;
            },
            Stage::Adding => {
                self.stage = Stage::Committing;
            },
            Stage::Committing => {
                self.stage = Stage::Pushing;
            },
            Stage::Pushing => {
                self.stage = Stage::Capturing;
            },
            Stage::Writing => {
                self.stage = Stage::Done;
            },
            Stage::Done => {},
            Stage::Aborted => {},
        }
        self.action()
    }
}

/// Starts a run: `None` where there is no assignment, else the run and its
/// first operation, the clone.
pub fn begin(config: Config, assignment: Option<Assignment>) -> (r: Option<(Deployment, Action)>)
    ensures
        r is None <==> assignment is None,
        r matches Some((d, act)) ==> {
            &&& assignment == Some(d.assignment)
            &&& d.config == config
            &&& d.stage == Stage::Cloning
            &&& emits(d, act)
        },
{
    match assignment {
        None => None,
        Some(a) => {
            let d = Deployment::new(config, a);
            let act = d.action();
            Some((d, act))
        },
    }
}

/// Which of two things comes first.
#[derive(PartialEq, Eq, Structural, Clone, Copy, Debug)]
pub enum WaitResult {
    /// The process ended within the budget.
    Exited,
    /// The budget ran out with the process still running.
    Expired,
}

/// The race between a process that ends after `exit_secs` seconds (`None`:
/// never) and a timer of `budget_secs` seconds: a process that has ended when
/// the timer fires wins.
pub fn race(exit_secs: Option<u64>, budget_secs: u64) -> (r: WaitResult)
    ensures
        r == WaitResult::Exited <==> (exit_secs matches Some(t) && t <= budget_secs),
{
    match exit_secs {
        Some(t) => if t <= budget_secs {
            WaitResult::Exited
        } else {
            WaitResult::Expired
        },
        None => WaitResult::Expired,
    }
}

} // verus!
