//! Configuration: where data lives and which programs to run.
//!
//! Each setting is read from an optional value (an environment variable, read
//! by the caller) and falls back to a default.

use vstd::prelude::*;
use crate::text::{append, owned};

verus! {

/// Data directory used when none is configured.
pub const DEFAULT_DATADIR: &'static str = "/var/lib/miniapp-factory";

/// Model used when none is configured.
pub const DEFAULT_MODEL: &'static str = "gpt-oss:20b";

/// Package manager used when none is configured.
pub const DEFAULT_NPM: &'static str = "npm";

/// A path with one more component: `base`, a separator, then `name`.
pub open spec fn join(base: Seq<char>, name: Seq<char>) -> Seq<char> {
    base + seq!['/'] + name
}

/// The configured value where there is one, else `default`.
pub open spec fn or_default(v: Option<String>, default: Seq<char>) -> Seq<char> {
    match v {
        Some(s) => s@,
        None => default,
    }
}

/// Appends a separator and `name` to the path `base`.
pub fn join_path(base: &str, name: &str) -> (r: String)
    ensures
        r@ == join(base@, name@),
{
    let mut r = base.to_owned();
    append(&mut r, "/");
    proof {
        reveal_strlit("/");
    }
    append(&mut r, name);
    r
}

fn value_or(v: Option<String>, default: &str) -> (r: String)
    ensures
        r@ == or_default(v, default@),
{
    match v {
        Some(s) => s,
        None => owned(default),
    }
}

/// The data directory: `var`, or `/var/lib/miniapp-factory`.
pub fn datadir(var: Option<String>) -> (r: String)
    ensures
        r@ == or_default(var, DEFAULT_DATADIR@),
{
    value_or(var, DEFAULT_DATADIR)
}

/// The root of the project checkouts: `var`, or `projects` inside the data
/// directory `datadir`.
pub fn projectsdir(var: Option<String>, datadir: &str) -> (r: String)
    ensures
        r@ == or_default(var, join(datadir@, "projects"@)),
{
    match var {
        Some(s) => s,
        None => join_path(datadir, "projects"),
    }
}

/// The model name: `var`, or `gpt-oss:20b`.
pub fn model(var: Option<String>) -> (r: String)
    ensures
        r@ == or_default(var, DEFAULT_MODEL@),
{
    value_or(var, DEFAULT_MODEL)
}

/// The prefix put before `git` to form the version control program: `var`,
/// or nothing.
pub fn git(var: Option<String>) -> (r: String)
    ensures
        r@ == or_default(var, Seq::empty()),
{
    proof {
        reveal_strlit("");
    }
    value_or(var, "")
}

/// The package manager program: `var`, or `npm`.
pub fn npm(var: Option<String>) -> (r: String)
    ensures
        r@ == or_default(var, DEFAULT_NPM@),
{
    value_or(var, DEFAULT_NPM)
}

/// The prefix put before `aider` to form the editing program: `var`, or
/// nothing.
pub fn aider(var: Option<String>) -> (r: String)
    ensures
        r@ == or_default(var, Seq::empty()),
{
    proof {
        reveal_strlit("");
    }
    value_or(var, "")
}

/// All settings of one run.
pub struct Config {
    pub datadir: String,
    pub projectsdir: String,
    pub model: String,
    pub git: String,
    pub npm: String,
    pub aider: String,
}

impl Config {
    /// The settings from the optional configured values, each with its
    /// default.
    pub fn from_values(
        datadir_var: Option<String>,
        projectsdir_var: Option<String>,
        model_var: Option<String>,
        git_var: Option<String>,
        npm_var: Option<String>,
        aider_var: Option<String>,
    ) -> (r: Config)
        ensures
            r.datadir@ == or_default(datadir_var, DEFAULT_DATADIR@),
            r.projectsdir@ == or_default(projectsdir_var, join(r.datadir@, "projects"@)),
            r.model@ == or_default(model_var, DEFAULT_MODEL@),
            r.git@ == or_default(git_var, Seq::empty()),
            r.npm@ == or_default(npm_var, DEFAULT_NPM@),
            r.aider@ == or_default(aider_var, Seq::empty()),
    {
        let d = datadir(datadir_var);
        let p = projectsdir(projectsdir_var, d.as_str());
        Config { datadir: d, projectsdir: p, model: model(model_var), git: git(git_var), npm: npm(npm_var), aider: aider(aider_var) }
    }
}

} // verus!
