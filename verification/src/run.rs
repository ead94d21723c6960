//! A run of one operation: where it stands, what it asks of the host next, and
//! how the host's answer moves it on.

use vstd::prelude::*;
use vstd::string::*;
use crate::command::{Command, CommandView};
use crate::error::{unit_view, TaskError, TaskErrorView};
use crate::manifest::{
    default_members, manifest_path, package_manifest, package_version, resolve_members,
    resolve_version, workspace_manifest,
};
use crate::ops::{
    answer_view, branch_check, check_main_branch, check_wd_clean, clean_check, detect, detected,
    eval_result, go_result, read_result, Answer, Capability, Recipe,
};
use crate::text::texts;

verus! {

/// The request that a run waits to have answered.
#[derive(Clone, Copy, Debug, PartialEq, Eq)]
pub enum Stage {
    /// Publishing: the status of the working tree.
    PublishStatus,
    /// Publishing: the name of the current branch.
    Branch,
    /// Publishing: the push that precedes the release.
    Push,
    /// Publishing: the manifest of the workspace.
    Plan,
    /// Publishing: the dry run of the package at the index.
    DryRun,
    /// Publishing: the publication of the package at the index.
    Publish,
    /// Publishing: the manifest of the first package.
    ReleaseVersion,
    /// Publishing: the creation of the tagged release.
    Release,
    /// Publishing: the fetch of the tags.
    FetchTags,
    /// Bumping: the status of the working tree.
    BumpStatus,
    /// Bumping: the change of the versions.
    SetVersion,
    /// Bumping: the manifest of the workspace.
    Members,
    /// Bumping: the manifest of the last package.
    Version,
    /// Bumping: the probe for auxiliary packaging metadata.
    Probe,
    /// Bumping: the update of the auxiliary packaging metadata.
    Update,
    /// Bumping: the commit.
    Commit,
    /// Publishing: the push that follows the bump.
    FinalPush,
    /// Coverage: the instrumented test run.
    Test,
    /// Coverage: the report.
    Report,
    /// Coverage: the removal of the recorded profiles.
    Clean,
    /// A chore that the host carries out by itself.
    Delegated,
    /// Nothing: the run is over.
    Finished,
}

/// What the host carries out by itself.
#[derive(Clone, Copy, Debug, PartialEq, Eq)]
pub enum Chore {
    /// The regular checks: format, lints, tests.
    Ci,
    /// The documentation, in watch mode.
    Docs,
    /// The coverage report; `dev` asks for one to read in a browser.
    Coverage { dev: bool },
}

/// A run of one operation.
#[derive(Clone, Debug, PartialEq, Eq)]
pub struct Run {
    /// The request that waits for its answer.
    pub stage: Stage,
    /// Whether the run publishes, or only bumps the version.
    pub publishing: bool,
    /// The part of the version that the bump advances.
    pub bump: String,
    /// The packages to publish, in order.
    pub plan: Vec<String>,
    /// The place in the plan of the package that is being handled.
    pub index: usize,
    /// The package whose manifest is being read.
    pub package: String,
    /// The version that the bump arrived at.
    pub version: String,
}

pub struct RunView {
    pub stage: Stage,
    pub publishing: bool,
    pub bump: Seq<char>,
    pub plan: Seq<Seq<char>>,
    pub index: int,
    pub package: Seq<char>,
    pub version: Seq<char>,
}

impl View for Run {
    type V = RunView;

    open spec fn view(&self) -> RunView {
        RunView {
            stage: self.stage,
            publishing: self.publishing,
            bump: self.bump@,
            plan: texts(self.plan@),
            index: self.index as int,
            package: self.package@,
            version: self.version@,
        }
    }
}

/// What a run asks of the host.
#[derive(Debug, PartialEq, Eq)]
pub enum Action {
    /// Announce the command and run it for its effect.
    Go(Command),
    /// Announce the command, run it and answer with its output.
    Eval(Command),
    /// Run the command to learn whether it can be run at all.
    Probe(Command),
    /// Answer with the text of the file at a path.
    Read(String),
    /// Remove the files that match a pattern.
    Clean(String),
    /// Carry out a chore.
    Delegate(Chore),
    /// Stop: the operation is over, with this result.
    Finish(Result<(), TaskError>),
    /// Nothing: the operation was over before.
    Halt,
}

pub enum ActionView {
    Go(CommandView),
    Eval(CommandView),
    Probe(CommandView),
    Read(Seq<char>),
    Clean(Seq<char>),
    Delegate(Chore),
    Finish(Result<(), TaskErrorView>),
    Halt,
}

impl View for Action {
    type V = ActionView;

    open spec fn view(&self) -> ActionView {
        match self {
            Action::Go(command) => ActionView::Go(command@),
            Action::Eval(command) => ActionView::Eval(command@),
            Action::Probe(command) => ActionView::Probe(command@),
            Action::Read(path) => ActionView::Read(path@),
            Action::Clean(pattern) => ActionView::Clean(pattern@),
            Action::Delegate(chore) => ActionView::Delegate(*chore),
            Action::Finish(result) => ActionView::Finish(unit_view(*result)),
            Action::Halt => ActionView::Halt,
        }
    }
}

/// What the host does next: the lines to print, then the request to carry out.
#[derive(Debug, PartialEq, Eq)]
pub struct Directive {
    pub notes: Vec<String>,
    pub action: Action,
}

pub struct DirectiveView {
    pub notes: Seq<Seq<char>>,
    pub action: ActionView,
}

impl View for Directive {
    type V = DirectiveView;

    open spec fn view(&self) -> DirectiveView {
        DirectiveView { notes: texts(self.notes@), action: self.action@ }
    }
}

/// The line that opens a bump.
pub open spec fn bump_header() -> Seq<char> {
    "=== bump version ==="@
}

/// The line that opens the dry runs.
pub open spec fn dry_run_header() -> Seq<char> {
    "=== dry run check all ==="@
}

/// The line that opens the publications.
pub open spec fn publish_header() -> Seq<char> {
    "=== do publish ==="@
}

/// The line that opens the release.
pub open spec fn release_header() -> Seq<char> {
    "=== github release ==="@
}

/// The line that opens the bump after a release.
pub open spec fn patch_header() -> Seq<char> {
    "=== bump patch version ==="@
}

/// The line that announces the dry run of a package.
pub open spec fn checking_note(package: Seq<char>) -> Seq<char> {
    "=== checking "@ + package + " ==="@
}

/// The line that announces the publication of a package.
pub open spec fn publishing_note(package: Seq<char>) -> Seq<char> {
    "=== publishing "@ + package + " ==="@
}

/// The line that names the package whose version stands for the workspace.
pub open spec fn package_note(package: Seq<char>) -> Seq<char> {
    "pkg: "@ + package
}

/// The files that an instrumented test run leaves behind.
pub open spec fn profiles() -> Seq<char> {
    "**/*.profraw"@
}

/// The run moves on to a stage, with lines to print and a request.
pub open spec fn next(run: RunView, stage: Stage, notes: Seq<Seq<char>>, action: ActionView) -> (
    RunView,
    DirectiveView,
) {
    (RunView { stage, ..run }, DirectiveView { notes, action })
}

/// The run ends with a result.
pub open spec fn stop(run: RunView, notes: Seq<Seq<char>>, result: Result<(), TaskErrorView>) -> (
    RunView,
    DirectiveView,
) {
    next(run, Stage::Finished, notes, ActionView::Finish(result))
}

/// The first dry run, or the end of a run that has nothing to publish.
pub open spec fn begin_dry_runs(run: RunView) -> (RunView, DirectiveView) {
    if run.plan.len() > 0 {
        next(
            RunView { index: 0, ..run },
            Stage::DryRun,
            seq![dry_run_header(), checking_note(run.plan[0])],
            ActionView::Go(CommandView::DryRun { package: run.plan[0] }),
        )
    } else {
        stop(
            run,
            seq![dry_run_header(), publish_header(), release_header()],
            Err(TaskErrorView::EmptyPlan),
        )
    }
}

/// The first publication.
pub open spec fn begin_publishing(run: RunView) -> (RunView, DirectiveView) {
    if run.plan.len() > 0 {
        next(
            RunView { index: 0, ..run },
            Stage::Publish,
            seq![publish_header(), publishing_note(run.plan[0])],
            ActionView::Go(CommandView::Publish { package: run.plan[0] }),
        )
    } else {
        stop(run, seq![publish_header(), release_header()], Err(TaskErrorView::EmptyPlan))
    }
}

/// The release: first the version of the first package is read.
pub open spec fn begin_release(run: RunView) -> (RunView, DirectiveView) {
    if run.plan.len() > 0 {
        next(
            RunView { package: run.plan[0], ..run },
            Stage::ReleaseVersion,
            seq![release_header()],
            ActionView::Read(package_manifest(run.plan[0])),
        )
    } else {
        stop(run, seq![release_header()], Err(TaskErrorView::EmptyPlan))
    }
}

/// After the status of the working tree: a dirty tree ends the run; a clean one
/// lets a publication ask for the branch and a bump change the versions.
pub open spec fn after_status(run: RunView, outcome: Answer) -> (RunView, DirectiveView) {
    match eval_result(crate::command::invocation_of(CommandView::Status), outcome) {
        Err(error) => stop(run, seq![], Err(error)),
        Ok(status) => match clean_check(status) {
            Err(error) => stop(run, seq![], Err(error)),
            Ok(_) => if run.stage == Stage::PublishStatus {
                next(run, Stage::Branch, seq![], ActionView::Eval(CommandView::Branch))
            } else {
                next(
                    run,
                    Stage::SetVersion,
                    seq![bump_header()],
                    ActionView::Go(CommandView::SetVersion { bump: run.bump }),
                )
            },
        },
    }
}

/// After the name of the branch: only a release branch lets the run push.
pub open spec fn after_branch(run: RunView, outcome: Answer) -> (RunView, DirectiveView) {
    match eval_result(crate::command::invocation_of(CommandView::Branch), outcome) {
        Err(error) => stop(run, seq![], Err(error)),
        Ok(branch) => match branch_check(branch) {
            Err(error) => stop(run, seq![], Err(error)),
            Ok(_) => next(run, Stage::Push, seq![], ActionView::Go(CommandView::Push)),
        },
    }
}

/// After the manifest of the workspace, when publishing: the plan is fixed and
/// the dry runs begin.
pub open spec fn after_plan(run: RunView, outcome: Answer) -> (RunView, DirectiveView) {
    match read_result(outcome) {
        Err(error) => stop(run, seq![], Err(error)),
        Ok(manifest) => match resolve_members(manifest) {
            Err(error) => stop(run, seq![], Err(error)),
            Ok(plan) => begin_dry_runs(RunView { plan, ..run }),
        },
    }
}

/// After a dry run: the next package is checked; after the last, the
/// publications begin. A failure ends the run.
pub open spec fn after_dry_run(run: RunView, outcome: Answer) -> (RunView, DirectiveView) {
    match go_result(outcome) {
        Err(error) => stop(run, seq![], Err(error)),
        Ok(_) => if run.index + 1 < run.plan.len() {
            next(
                RunView { index: run.index + 1, ..run },
                Stage::DryRun,
                seq![checking_note(run.plan[run.index + 1])],
                ActionView::Go(CommandView::DryRun { package: run.plan[run.index + 1] }),
            )
        } else {
            begin_publishing(run)
        },
    }
}

/// After a publication: the next package is published; after the last, the
/// release begins. A failure ends the run.
pub open spec fn after_publication(run: RunView, outcome: Answer) -> (RunView, DirectiveView) {
    match go_result(outcome) {
        Err(error) => stop(run, seq![], Err(error)),
        Ok(_) => if run.index + 1 < run.plan.len() {
            next(
                RunView { index: run.index + 1, ..run },
                Stage::Publish,
                seq![publishing_note(run.plan[run.index + 1])],
                ActionView::Go(CommandView::Publish { package: run.plan[run.index + 1] }),
            )
        } else {
            begin_release(run)
        },
    }
}

/// After the manifest of the first package: the release is created under its
/// version.
pub open spec fn after_release_version(run: RunView, outcome: Answer) -> (
    RunView,
    DirectiveView,
) {
    match read_result(outcome) {
        Err(error) => stop(run, seq![], Err(error)),
        Ok(manifest) => match resolve_version(run.package, manifest) {
            Err(error) => stop(run, seq![], Err(error)),
            Ok(version) => next(
                run,
                Stage::Release,
                seq![],
                ActionView::Go(CommandView::Release { version }),
            ),
        },
    }
}

/// After the manifest of the workspace, when bumping: the last package of the
/// plan stands for the workspace, and its manifest is read.
pub open spec fn after_members(run: RunView, outcome: Answer) -> (RunView, DirectiveView) {
    match read_result(outcome) {
        Err(error) => stop(run, seq![], Err(error)),
        Ok(manifest) => match resolve_members(manifest) {
            Err(error) => stop(run, seq![], Err(error)),
            Ok(plan) => if plan.len() > 0 {
                next(
                    RunView { package: plan.last(), ..run },
                    Stage::Version,
                    seq![package_note(plan.last())],
                    ActionView::Read(package_manifest(plan.last())),
                )
            } else {
                stop(run, seq![], Err(TaskErrorView::EmptyPlan))
            },
        },
    }
}

/// After the manifest of the last package: the new version is known, and the
/// auxiliary packaging metadata is probed for.
pub open spec fn after_version(run: RunView, outcome: Answer) -> (RunView, DirectiveView) {
    match read_result(outcome) {
        Err(error) => stop(run, seq![], Err(error)),
        Ok(manifest) => match resolve_version(run.package, manifest) {
            Err(error) => stop(run, seq![], Err(error)),
            Ok(version) => next(
                RunView { version, ..run },
                Stage::Probe,
                seq![],
                ActionView::Probe(CommandView::Probe),
            ),
        },
    }
}

/// After the probe: where it succeeded the auxiliary packaging metadata is
/// updated; where it failed there is none, and the run commits at once.
pub open spec fn after_probe(run: RunView, outcome: Answer) -> (RunView, DirectiveView) {
    match detected(outcome) {
        Capability::Present => next(
            run,
            Stage::Update,
            seq![],
            ActionView::Go(CommandView::Update { version: run.version }),
        ),
        Capability::Absent => next(
            run,
            Stage::Commit,
            seq![],
            ActionView::Go(CommandView::Commit { version: run.version }),
        ),
    }
}

/// After the commit: a publication pushes once more; a bump is over.
pub open spec fn after_commit(run: RunView, outcome: Answer) -> (RunView, DirectiveView) {
    match go_result(outcome) {
        Err(error) => stop(run, seq![], Err(error)),
        Ok(_) => if run.publishing {
            next(run, Stage::FinalPush, seq![], ActionView::Go(CommandView::Push))
        } else {
            stop(run, seq![], Ok(()))
        },
    }
}

/// After a command that was run for its effect and is followed by one request.
pub open spec fn after_go(
    run: RunView,
    outcome: Answer,
    stage: Stage,
    notes: Seq<Seq<char>>,
    action: ActionView,
) -> (RunView, DirectiveView) {
    match go_result(outcome) {
        Err(error) => stop(run, seq![], Err(error)),
        Ok(_) => next(run, stage, notes, action),
    }
}

/// How the answer to its request moves a run on, and what it asks next.
pub open spec fn step(run: RunView, outcome: Answer) -> (RunView, DirectiveView) {
    match run.stage {
        Stage::PublishStatus => after_status(run, outcome),
        Stage::Branch => after_branch(run, outcome),
        Stage::Push => after_go(
            run,
            outcome,
            Stage::Plan,
            seq![],
            ActionView::Read(workspace_manifest()),
        ),
        Stage::Plan => after_plan(run, outcome),
        Stage::DryRun => after_dry_run(run, outcome),
        Stage::Publish => after_publication(run, outcome),
        Stage::ReleaseVersion => after_release_version(run, outcome),
        Stage::Release => after_go(
            run,
            outcome,
            Stage::FetchTags,
            seq![],
            ActionView::Go(CommandView::FetchTags),
        ),
        Stage::FetchTags => after_go(
            run,
            outcome,
            Stage::BumpStatus,
            seq![patch_header()],
            ActionView::Eval(CommandView::Status),
        ),
        Stage::BumpStatus => after_status(run, outcome),
        Stage::SetVersion => after_go(
            run,
            outcome,
            Stage::Members,
            seq![],
            ActionView::Read(workspace_manifest()),
        ),
        Stage::Members => after_members(run, outcome),
        Stage::Version => after_version(run, outcome),
        Stage::Probe => after_probe(run, outcome),
        Stage::Update => after_go(
            run,
            outcome,
            Stage::Commit,
            seq![],
            ActionView::Go(CommandView::Commit { version: run.version }),
        ),
        Stage::Commit => after_commit(run, outcome),
        Stage::FinalPush => match go_result(outcome) {
            Err(error) => stop(run, seq![], Err(error)),
            Ok(_) => stop(run, seq![], Ok(())),
        },
        Stage::Test => after_go(
            run,
            outcome,
            Stage::Report,
            seq![],
            ActionView::Go(CommandView::Report),
        ),
        Stage::Report => after_go(
            run,
            outcome,
            Stage::Clean,
            seq![],
            ActionView::Clean(profiles()),
        ),
        Stage::Clean => match go_result(outcome) {
            Err(error) => stop(run, seq![], Err(error)),
            Ok(_) => stop(run, seq![], Ok(())),
        },
        Stage::Delegated => match go_result(outcome) {
            Err(error) => stop(run, seq![], Err(error)),
            Ok(_) => stop(run, seq![], Ok(())),
        },
        Stage::Finished => (run, DirectiveView { notes: seq![], action: ActionView::Halt }),
    }
}

/// No lines to print.
fn no_notes() -> (notes: Vec<String>)
    ensures
        texts(notes@) == Seq::<Seq<char>>::empty(),
{
    let notes: Vec<String> = Vec::new();
    assert(texts(notes@) =~= Seq::<Seq<char>>::empty());
    notes
}

/// One line to print.
fn one_note(line: String) -> (notes: Vec<String>)
    ensures
        texts(notes@) == seq![line@],
{
    let mut notes: Vec<String> = Vec::new();
    notes.push(line);
    assert(texts(notes@) =~= seq![line@]);
    notes
}

/// Two lines to print.
fn two_notes(first: String, second: String) -> (notes: Vec<String>)
    ensures
        texts(notes@) == seq![first@, second@],
{
    let mut notes: Vec<String> = Vec::new();
    notes.push(first);
    notes.push(second);
    assert(texts(notes@) =~= seq![first@, second@]);
    notes
}

/// A text between two others.
fn framed(head: &str, body: &str, tail: &str) -> (r: String)
    ensures
        r@ == head@ + body@ + tail@,
{
    String::from_str(head).concat(body).concat(tail)
}

/// The failure of a command that was run for its effect.
fn judge_go(outcome: Result<String, String>) -> (r: Result<(), TaskError>)
    ensures
        unit_view(r) == go_result(answer_view(outcome)),
{
    match outcome {
        Ok(_) => Ok(()),
        Err(cause) => Err(TaskError::CommandExecution { invocation: None, cause }),
    }
}

impl Run {
    /// A run at a stage, with nothing known yet.
    pub fn at(stage: Stage, publishing: bool, bump: &str) -> (run: Run)
        ensures
            run@ == (RunView {
                stage,
                publishing,
                bump: bump@,
                plan: seq![],
                index: 0,
                package: seq![],
                version: seq![],
            }),
    {
        let plan: Vec<String> = Vec::new();
        assert(texts(plan@) =~= seq![]);
        Run {
            stage,
            publishing,
            bump: String::from_str(bump),
            plan,
            index: 0,
            package: String::new(),
            version: String::new(),
        }
    }

    /// Whether the run is over.
    pub fn is_finished(&self) -> (r: bool)
        ensures
            r == (self@.stage == Stage::Finished),
    {
        match self.stage {
            Stage::Finished => true,
            _ => false,
        }
    }

    fn next(self, stage: Stage, notes: Vec<String>, action: Action) -> (r: (Run, Directive))
        ensures
            (r.0@, r.1@) == next(self@, stage, texts(notes@), action@),
    {
        let mut run = self;
        run.stage = stage;
        (run, Directive { notes, action })
    }

    fn stop(self, notes: Vec<String>, result: Result<(), TaskError>) -> (r: (Run, Directive))
        ensures
            (r.0@, r.1@) == stop(self@, texts(notes@), unit_view(result)),
    {
        self.next(Stage::Finished, notes, Action::Finish(result))
    }

    fn after_go(
        self,
        outcome: Result<String, String>,
        stage: Stage,
        notes: Vec<String>,
        action: Action,
    ) -> (r: (Run, Directive))
        ensures
            (r.0@, r.1@) == after_go(self@, answer_view(outcome), stage, texts(notes@), action@),
    {
        match judge_go(outcome) {
            Err(error) => self.stop(no_notes(), Err(error)),
            Ok(_) => self.next(stage, notes, action),
        }
    }

    fn begin_dry_runs(self) -> (r: (Run, Directive))
        ensures
            (r.0@, r.1@) == begin_dry_runs(self@),
    {
        if self.plan.len() > 0 {
            let package = self.plan[0].clone();
            let notes = two_notes(
                String::from_str("=== dry run check all ==="),
                framed("=== checking ", package.as_str(), " ==="),
            );
            let mut run = self;
            run.index = 0;
            run.next(Stage::DryRun, notes, Action::Go(Command::DryRun { package }))
        } else {
            let mut notes = two_notes(
                String::from_str("=== dry run check all ==="),
                String::from_str("=== do publish ==="),
            );
            crate::text::push_word(&mut notes, "=== github release ===");
            assert(texts(notes@) =~= seq![dry_run_header(), publish_header(), release_header()]);
            self.stop(notes, Err(TaskError::EmptyPlan))
        }
    }

    fn begin_publishing(self) -> (r: (Run, Directive))
        ensures
            (r.0@, r.1@) == begin_publishing(self@),
    {
        if self.plan.len() > 0 {
            let package = self.plan[0].clone();
            let notes = two_notes(
                String::from_str("=== do publish ==="),
                framed("=== publishing ", package.as_str(), " ==="),
            );
            let mut run = self;
            run.index = 0;
            run.next(Stage::Publish, notes, Action::Go(Command::Publish { package }))
        } else {
            let notes = two_notes(
                String::from_str("=== do publish ==="),
                String::from_str("=== github release ==="),
            );
            self.stop(notes, Err(TaskError::EmptyPlan))
        }
    }

    fn begin_release(self) -> (r: (Run, Directive))
        ensures
            (r.0@, r.1@) == begin_release(self@),
    {
        let notes = one_note(String::from_str("=== github release ==="));
        if self.plan.len() > 0 {
            let path = manifest_path(self.plan[0].as_str());
            let mut run = self;
            run.package = run.plan[0].clone();
            run.next(Stage::ReleaseVersion, notes, Action::Read(path))
        } else {
            self.stop(notes, Err(TaskError::EmptyPlan))
        }
    }

    fn after_status(self, outcome: Result<String, String>) -> (r: (Run, Directive))
        ensures
            (r.0@, r.1@) == after_status(self@, answer_view(outcome)),
    {
        let status = match Command::Status.invocation().eval(outcome) {
            Ok(status) => status,
            Err(error) => {
                return self.stop(no_notes(), Err(error));
            },
        };
        match check_wd_clean(status) {
            Err(error) => self.stop(no_notes(), Err(error)),
            Ok(_) => match self.stage {
                Stage::PublishStatus => self.next(
                    Stage::Branch,
                    no_notes(),
                    Action::Eval(Command::Branch),
                ),
                _ => {
                    let bump = self.bump.clone();
                    self.next(
                        Stage::SetVersion,
                        one_note(String::from_str("=== bump version ===")),
                        Action::Go(Command::SetVersion { bump }),
                    )
                },
            },
        }
    }

    fn after_branch(self, outcome: Result<String, String>) -> (r: (Run, Directive))
        ensures
            (r.0@, r.1@) == after_branch(self@, answer_view(outcome)),
    {
        let branch = match Command::Branch.invocation().eval(outcome) {
            Ok(branch) => branch,
            Err(error) => {
                return self.stop(no_notes(), Err(error));
            },
        };
        match check_main_branch(branch) {
            Err(error) => self.stop(no_notes(), Err(error)),
            Ok(_) => self.next(Stage::Push, no_notes(), Action::Go(Command::Push)),
        }
    }

    fn after_plan(self, outcome: Result<String, String>) -> (r: (Run, Directive))
        ensures
            (r.0@, r.1@) == after_plan(self@, answer_view(outcome)),
    {
        let manifest = match outcome {
            Ok(manifest) => manifest,
            Err(cause) => {
                return self.stop(no_notes(), Err(TaskError::ManifestParse(cause)));
            },
        };
        match default_members(manifest.as_str()) {
            Err(error) => self.stop(no_notes(), Err(error)),
            Ok(plan) => {
                let mut run = self;
                run.plan = plan;
                run.begin_dry_runs()
            },
        }
    }

    fn after_dry_run(self, outcome: Result<String, String>) -> (r: (Run, Directive))
        ensures
            (r.0@, r.1@) == after_dry_run(self@, answer_view(outcome)),
    {
        match judge_go(outcome) {
            Err(error) => self.stop(no_notes(), Err(error)),
            Ok(_) => if self.index < self.plan.len() && self.index + 1 < self.plan.len() {
                let package = self.plan[self.index + 1].clone();
                let notes = one_note(framed("=== checking ", package.as_str(), " ==="));
                let mut run = self;
                run.index = run.index + 1;
                run.next(Stage::DryRun, notes, Action::Go(Command::DryRun { package }))
            } else {
                self.begin_publishing()
            },
        }
    }

    fn after_publication(self, outcome: Result<String, String>) -> (r: (Run, Directive))
        ensures
            (r.0@, r.1@) == after_publication(self@, answer_view(outcome)),
    {
        match judge_go(outcome) {
            Err(error) => self.stop(no_notes(), Err(error)),
            Ok(_) => if self.index < self.plan.len() && self.index + 1 < self.plan.len() {
                let package = self.plan[self.index + 1].clone();
                let notes = one_note(framed("=== publishing ", package.as_str(), " ==="));
                let mut run = self;
                run.index = run.index + 1;
                run.next(Stage::Publish, notes, Action::Go(Command::Publish { package }))
            } else {
                self.begin_release()
            },
        }
    }

    fn after_release_version(self, outcome: Result<String, String>) -> (r: (Run, Directive))
        ensures
            (r.0@, r.1@) == after_release_version(self@, answer_view(outcome)),
    {
        let manifest = match outcome {
            Ok(manifest) => manifest,
            Err(cause) => {
                return self.stop(no_notes(), Err(TaskError::ManifestParse(cause)));
            },
        };
        match package_version(self.package.as_str(), manifest.as_str()) {
            Err(error) => self.stop(no_notes(), Err(error)),
            Ok(version) => self.next(
                Stage::Release,
                no_notes(),
                Action::Go(Command::Release { version }),
            ),
        }
    }

    fn after_members(self, outcome: Result<String, String>) -> (r: (Run, Directive))
        ensures
            (r.0@, r.1@) == after_members(self@, answer_view(outcome)),
    {
        let manifest = match outcome {
            Ok(manifest) => manifest,
            Err(cause) => {
                return self.stop(no_notes(), Err(TaskError::ManifestParse(cause)));
            },
        };
        match default_members(manifest.as_str()) {
            Err(error) => self.stop(no_notes(), Err(error)),
            Ok(plan) => {
                let mut plan = plan;
                let ghost listed = texts(plan@);
                match plan.pop() {
                    Some(package) => {
                        assert(package@ == listed.last());
                        let notes = one_note(crate::text::join("pkg: ", package.as_str()));
                        let path = manifest_path(package.as_str());
                        let mut run = self;
                        run.package = package;
                        run.next(Stage::Version, notes, Action::Read(path))
                    },
                    None => self.stop(no_notes(), Err(TaskError::EmptyPlan)),
                }
            },
        }
    }

    fn after_version(self, outcome: Result<String, String>) -> (r: (Run, Directive))
        ensures
            (r.0@, r.1@) == after_version(self@, answer_view(outcome)),
    {
        let manifest = match outcome {
            Ok(manifest) => manifest,
            Err(cause) => {
                return self.stop(no_notes(), Err(TaskError::ManifestParse(cause)));
            },
        };
        match package_version(self.package.as_str(), manifest.as_str()) {
            Err(error) => self.stop(no_notes(), Err(error)),
            Ok(version) => {
                let mut run = self;
                run.version = version;
                run.next(Stage::Probe, no_notes(), Action::Probe(Command::Probe))
            },
        }
    }

    fn after_probe(self, outcome: Result<String, String>) -> (r: (Run, Directive))
        ensures
            (r.0@, r.1@) == after_probe(self@, answer_view(outcome)),
    {
        let version = self.version.clone();
        match detect(outcome) {
            Capability::Present => self.next(
                Stage::Update,
                no_notes(),
                Action::Go(Command::Update { version }),
            ),
            Capability::Absent => self.next(
                Stage::Commit,
                no_notes(),
                Action::Go(Command::Commit { version }),
            ),
        }
    }

    fn after_commit(self, outcome: Result<String, String>) -> (r: (Run, Directive))
        ensures
            (r.0@, r.1@) == after_commit(self@, answer_view(outcome)),
    {
        match judge_go(outcome) {
            Err(error) => self.stop(no_notes(), Err(error)),
            Ok(_) => if self.publishing {
                self.next(Stage::FinalPush, no_notes(), Action::Go(Command::Push))
            } else {
                self.stop(no_notes(), Ok(()))
            },
        }
    }

    fn after_last(self, outcome: Result<String, String>) -> (r: (Run, Directive))
        ensures
            (r.0@, r.1@) == (match go_result(answer_view(outcome)) {
                Err(error) => stop(self@, seq![], Err(error)),
                Ok(_) => stop(self@, seq![], Ok(())),
            }),
    {
        match judge_go(outcome) {
            Err(error) => self.stop(no_notes(), Err(error)),
            Ok(_) => self.stop(no_notes(), Ok(())),
        }
    }

    /// Takes the host's answer to the request that the run waits on: moves the
    /// run on and gives what the host does next. The first failure ends the
    /// run, and a run that is over asks for nothing.
    pub fn advance(self, outcome: Result<String, String>) -> (r: (Run, Directive))
        ensures
            (r.0@, r.1@) == step(self@, answer_view(outcome)),
    {
        match self.stage {
            Stage::PublishStatus => self.after_status(outcome),
            Stage::Branch => self.after_branch(outcome),
            Stage::Push => self.after_go(
                outcome,
                Stage::Plan,
                no_notes(),
                Action::Read(String::from_str("./Cargo.toml")),
            ),
            Stage::Plan => self.after_plan(outcome),
            Stage::DryRun => self.after_dry_run(outcome),
            Stage::Publish => self.after_publication(outcome),
            Stage::ReleaseVersion => self.after_release_version(outcome),
            Stage::Release => self.after_go(
                outcome,
                Stage::FetchTags,
                no_notes(),
                Action::Go(Command::FetchTags),
            ),
            Stage::FetchTags => self.after_go(
                outcome,
                Stage::BumpStatus,
                one_note(String::from_str("=== bump patch version ===")),
                Action::Eval(Command::Status),
            ),
            Stage::BumpStatus => self.after_status(outcome),
            Stage::SetVersion => self.after_go(
                outcome,
                Stage::Members,
                no_notes(),
                Action::Read(String::from_str("./Cargo.toml")),
            ),
            Stage::Members => self.after_members(outcome),
            Stage::Version => self.after_version(outcome),
            Stage::Probe => self.after_probe(outcome),
            Stage::Update => {
                let version = self.version.clone();
                self.after_go(
                    outcome,
                    Stage::Commit,
                    no_notes(),
                    Action::Go(Command::Commit { version }),
                )
            },
            Stage::Commit => self.after_commit(outcome),
            Stage::FinalPush => self.after_last(outcome),
            Stage::Test => self.after_go(
                outcome,
                Stage::Report,
                no_notes(),
                Action::Go(Command::Report),
            ),
            Stage::Report => self.after_go(
                outcome,
                Stage::Clean,
                no_notes(),
                Action::Clean(String::from_str("**/*.profraw")),
            ),
            Stage::Clean => self.after_last(outcome),
            Stage::Delegated => self.after_last(outcome),
            Stage::Finished => (self, Directive { notes: no_notes(), action: Action::Halt }),
        }
    }
}

} // verus!
