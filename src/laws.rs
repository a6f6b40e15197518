//! Properties of a deployment run, stated over the transition relation that
//! `Deployment::step` follows.

use vstd::prelude::*;
use crate::config::Config;
use crate::deployment::{
    captured, emits, git_args, next_stage, succeeded, version_of, workspace, Action, Assignment,
    Deployment, Event, Stage,
};

verus! {

/// Without a version the checkout is never reset: a successful clone leads
/// straight to the edit, and no stage leads to `Resetting`.
pub proof fn lemma_no_version_skips_reset(s: Stage, e: Event)
    ensures
        succeeded(e) ==> next_stage(Stage::Cloning, false, e) == Stage::Editing,
        next_stage(s, false, e) != Stage::Resetting,
{
}

/// With a version the checkout is reset to exactly that revision after a
/// successful clone, and the edit follows whether the reset worked or not.
pub proof fn lemma_version_pins_then_edits(c: Config, a: Assignment, e: Event, e2: Event)
    requires
        a.version is Some,
    ensures
        succeeded(e) ==> next_stage(Stage::Cloning, true, e) == Stage::Resetting,
        git_args(Stage::Resetting, c, a).last() == version_of(a),
        git_args(Stage::Resetting, c, a)[1] == workspace(c, a),
        next_stage(Stage::Resetting, true, e2) == Stage::Editing,
{
}

/// An edit that runs out of time is killed, and staging, committing, pushing
/// and capturing still follow, whatever each of them reports.
pub proof fn lemma_timeout_still_publishes(
    has_version: bool,
    e1: Event,
    e2: Event,
    e3: Event,
    e4: Event,
)
    ensures
        next_stage(Stage::Editing, has_version, Event::TimedOut) == Stage::Killing,
        next_stage(Stage::Killing, has_version, e1) == Stage::Adding,
        next_stage(Stage::Adding, has_version, e2) == Stage::Committing,
        next_stage(Stage::Committing, has_version, e3) == Stage::Pushing,
        next_stage(Stage::Pushing, has_version, e4) == Stage::Capturing,
{
}

/// An edit that ends, well or not, or that cannot start, is followed by
/// staging all changes.
pub proof fn lemma_edit_outcome_ignored(has_version: bool, e: Event)
    requires
        !(e is TimedOut),
    ensures
        next_stage(Stage::Editing, has_version, e) == Stage::Adding,
{
}

/// A failed capture aborts the run, an aborted run stays aborted, and it
/// requests nothing but the abort: no result is written.
pub proof fn lemma_failed_capture_aborts(has_version: bool, e: Event, e2: Event, d: Deployment, act: Action)
    requires
        captured(e) is None,
    ensures
        next_stage(Stage::Capturing, has_version, e) == Stage::Aborted,
        next_stage(Stage::Aborted, has_version, e2) == Stage::Aborted,
        d.stage == Stage::Aborted && emits(d, act) ==> act is Abort,
{
}

/// The result is written only right after the checkout is removed, and
/// removing it is requested whatever the edit produced.
pub proof fn lemma_cleanup_before_result(s: Stage, has_version: bool, e: Event, d: Deployment, act: Action)
    ensures
        next_stage(s, has_version, e) == Stage::Writing ==> s == Stage::Cleaning,
        captured(e) is Some ==> next_stage(Stage::Capturing, has_version, e) == Stage::Cleaning,
        d.stage == Stage::Cleaning && emits(d, act) ==> (act matches Action::RemoveDir(p) && p@
            == workspace(d.config, d.assignment)),
{
}

} // verus!
