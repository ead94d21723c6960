//! The operations of the tool as runs: each operation is a sequence of requests
//! to the host, and each answer of the host decides the next request.

use vstd::prelude::*;
use vstd::string::*;
use crate::command::{Command, CommandView, Invocation, InvocationView};
use crate::error::{text_view, unit_view, TaskError, TaskErrorView};
use crate::run::{Action, ActionView, Directive, DirectiveView, Run, RunView, Stage};
use crate::text::{texts, trimmed};

pub use crate::manifest::{default_members, package_version, read_toml};

verus! {

/// What the host answers a request with: the text that the request gave, or why
/// it failed. A request that gives no text is answered with any text.
pub type Answer = Result<Seq<char>, Seq<char>>;

/// An answer of the host, by its view.
pub open spec fn answer_view(outcome: Result<String, String>) -> Answer {
    match outcome {
        Ok(text) => Ok(text@),
        Err(cause) => Err(cause@),
    }
}

/// The failure of a command that was run for its effect: the bare cause.
pub open spec fn go_result(outcome: Answer) -> Result<(), TaskErrorView> {
    match outcome {
        Ok(_) => Ok(()),
        Err(cause) => Err(TaskErrorView::CommandExecution { invocation: None, cause }),
    }
}

/// What the evaluation of a command gives: its output without the white space
/// at its end, or its failure with the command attached.
pub open spec fn eval_result(invocation: InvocationView, outcome: Answer) -> Result<
    Seq<char>,
    TaskErrorView,
> {
    match outcome {
        Ok(output) => Ok(trimmed(output)),
        Err(cause) => Err(
            TaskErrorView::CommandExecution { invocation: Some(invocation), cause },
        ),
    }
}

/// What a manifest that could not be read is reported with.
pub open spec fn read_result(outcome: Answer) -> Result<Seq<char>, TaskErrorView> {
    match outcome {
        Ok(manifest) => Ok(manifest),
        Err(cause) => Err(TaskErrorView::ManifestParse(cause)),
    }
}

/// Whether something that a run can do without is there.
#[derive(Clone, Copy, Debug, PartialEq, Eq)]
pub enum Capability {
    Present,
    Absent,
}

/// What a probe shows: what it asks for is present where it succeeds, and
/// absent where it fails, whatever the failure.
pub open spec fn detected(outcome: Answer) -> Capability {
    match outcome {
        Ok(_) => Capability::Present,
        Err(_) => Capability::Absent,
    }
}

/// A working tree is clean when its status is empty.
pub open spec fn clean_check(status: Seq<char>) -> Result<(), TaskErrorView> {
    if status.len() == 0 {
        Ok(())
    } else {
        Err(TaskErrorView::DirtyTree(status))
    }
}

/// A branch is a release branch when it is `main` or `master`.
pub open spec fn branch_check(branch: Seq<char>) -> Result<(), TaskErrorView> {
    if branch == "master"@ || branch == "main"@ {
        Ok(())
    } else {
        Err(TaskErrorView::WrongBranch(branch))
    }
}

/// Something that is carried out by the host and judged by its answer.
pub trait Recipe {
    /// How the host is to invoke it.
    spec fn described(&self) -> InvocationView;

    /// Judges the answer to running it for its effect.
    fn go(&self, outcome: Result<String, String>) -> (r: Result<(), TaskError>)
        ensures
            unit_view(r) == go_result(answer_view(outcome)),
    ;

    /// Judges the answer to evaluating it: the output without the white space at
    /// its end, or the failure with the invocation attached.
    fn eval(&self, outcome: Result<String, String>) -> (r: Result<String, TaskError>)
        ensures
            text_view(r) == eval_result(self.described(), answer_view(outcome)),
    ;
}

impl Recipe for Invocation {
    open spec fn described(&self) -> InvocationView {
        self@
    }

    fn go(&self, outcome: Result<String, String>) -> (r: Result<(), TaskError>) {
        match outcome {
            Ok(_) => Ok(()),
            Err(cause) => Err(TaskError::CommandExecution { invocation: None, cause }),
        }
    }

    fn eval(&self, outcome: Result<String, String>) -> (r: Result<String, TaskError>) {
        match outcome {
            Ok(output) => Ok(crate::text::trim_end(output.as_str())),
            Err(cause) => Err(
                TaskError::CommandExecution { invocation: Some(copy_of(self)), cause },
            ),
        }
    }
}

/// A copy of an invocation.
pub fn copy_of(invocation: &Invocation) -> (r: Invocation)
    ensures
        r@ == invocation@,
{
    let mut args: Vec<String> = Vec::new();
    let mut i: usize = 0;
    while i < invocation.args.len()
        invariant
            i <= invocation.args.len(),
            args.len() == i,
            forall|j: int| 0 <= j < i ==> args[j]@ == invocation.args[j]@,
        decreases invocation.args.len() - i,
    {
        args.push(invocation.args[i].clone());
        i = i + 1;
    }
    let mut env: Vec<(String, String)> = Vec::new();
    let mut k: usize = 0;
    while k < invocation.env.len()
        invariant
            k <= invocation.env.len(),
            env.len() == k,
            forall|j: int|
                0 <= j < k ==> env[j].0@ == invocation.env[j].0@ && env[j].1@
                    == invocation.env[j].1@,
        decreases invocation.env.len() - k,
    {
        env.push((invocation.env[k].0.clone(), invocation.env[k].1.clone()));
        k = k + 1;
    }
    assert(texts(args@) =~= texts(invocation.args@));
    assert(crate::text::pairs(env@) =~= crate::text::pairs(invocation.env@));
    Invocation {
        program: invocation.program.clone(),
        args,
        env,
        stderr_to_stdout: invocation.stderr_to_stdout,
        stdout_capture: invocation.stdout_capture,
    }
}

/// Judges the answer to a probe: a failure means absence, and is no error.
pub fn detect(outcome: Result<String, String>) -> (r: Capability)
    ensures
        r == detected(answer_view(outcome)),
{
    match outcome {
        Ok(_) => Capability::Present,
        Err(_) => Capability::Absent,
    }
}

/// Judges the status of the working tree: it must be empty.
pub fn check_wd_clean(status: String) -> (r: Result<(), TaskError>)
    ensures
        unit_view(r) == clean_check(status@),
{
    if status.as_str().unicode_len() == 0 {
        Ok(())
    } else {
        Err(TaskError::DirtyTree(status))
    }
}

/// Judges the current branch: it must be `main` or `master`.
pub fn check_main_branch(branch: String) -> (r: Result<(), TaskError>)
    ensures
        unit_view(r) == branch_check(branch@),
{
    if crate::text::same(branch.as_str(), "master") || crate::text::same(branch.as_str(), "main") {
        Ok(())
    } else {
        Err(TaskError::WrongBranch(branch))
    }
}

/// A run at a stage, with nothing known yet.
pub open spec fn fresh(stage: Stage, publishing: bool, bump: Seq<char>) -> RunView {
    RunView { stage, publishing, bump, plan: seq![], index: 0, package: seq![], version: seq![] }
}

/// How a bump begins: with the question whether the working tree is clean.
pub open spec fn bump_start(bump: Seq<char>) -> (RunView, DirectiveView) {
    (
        fresh(Stage::BumpStatus, false, bump),
        DirectiveView { notes: seq![], action: ActionView::Eval(CommandView::Status) },
    )
}

/// How a publication begins: with the question whether the working tree is
/// clean. The bump that follows the release advances the patch version.
pub open spec fn publish_start() -> (RunView, DirectiveView) {
    (
        fresh(Stage::PublishStatus, true, "patch"@),
        DirectiveView { notes: seq![], action: ActionView::Eval(CommandView::Status) },
    )
}

/// How the coverage for an editor begins: with the instrumented test run.
pub open spec fn coverage_start() -> (RunView, DirectiveView) {
    (
        fresh(Stage::Test, false, seq![]),
        DirectiveView { notes: seq![], action: ActionView::Go(CommandView::Test) },
    )
}

/// No lines to print, and a request.
fn only(action: Action) -> (r: Directive)
    ensures
        r@ == (DirectiveView { notes: seq![], action: action@ }),
{
    let notes: Vec<String> = Vec::new();
    assert(texts(notes@) =~= seq![]);
    Directive { notes, action }
}

/// The push to the remote, announced and run for its effect.
pub fn push_verbose() -> (r: Action)
    ensures
        r@ == ActionView::Go(CommandView::Push),
{
    Action::Go(Command::Push)
}

/// Begins a bump of the version: the part of the version named by `bump` is
/// advanced in every package but the tool's own, and the change is committed.
/// Nothing is changed unless the working tree is clean.
pub fn bump_version(bump: &str) -> (r: (Run, Directive))
    ensures
        (r.0@, r.1@) == bump_start(bump@),
{
    (Run::at(Stage::BumpStatus, false, bump), only(Action::Eval(Command::Status)))
}

/// Begins a publication: every package of the workspace is checked by a dry
/// run, then published, in the order of the workspace; a tagged release is
/// created; and the patch version is bumped for the development that follows.
/// Nothing is done unless the working tree is clean and the branch is a
/// release branch.
pub fn publish() -> (r: (Run, Directive))
    ensures
        (r.0@, r.1@) == publish_start(),
{
    (Run::at(Stage::PublishStatus, true, "patch"), only(Action::Eval(Command::Status)))
}

/// Begins the coverage for an editor: an instrumented test run, the report,
/// and the removal of the recorded profiles.
pub fn neo_coverage() -> (r: (Run, Directive))
    ensures
        (r.0@, r.1@) == coverage_start(),
{
    let run = Run::at(Stage::Test, false, "");
    proof {
        reveal_strlit("");
        assert(""@ =~= Seq::<char>::empty());
    }
    (run, only(Action::Go(Command::Test)))
}

} // verus!
