//! What holds of every run, whatever the host answers.

use vstd::prelude::*;
use crate::command::{invocation_of, CommandView};
use crate::document::parsed;
use crate::error::TaskErrorView;
use crate::manifest::{declared_package, release_plan, resolve_members, resolve_version, tool};
use crate::ops::{branch_check, bump_start, eval_result, publish_start, Answer};
use crate::run::{step, ActionView, RunView, Stage};
use crate::text::{is_space, trimmed};

verus! {

/// The run after the host has answered its requests with `answers`, in turn.
pub open spec fn run_after(run: RunView, answers: Seq<Answer>) -> RunView
    decreases answers.len(),
{
    if answers.len() == 0 {
        run
    } else {
        run_after(step(run, answers.first()).0, answers.drop_first())
    }
}

/// What the run asks of the host when it is given the answer at `i`, after the
/// answers before it.
pub open spec fn asked(run: RunView, answers: Seq<Answer>, i: int) -> ActionView {
    step(run_after(run, answers.take(i)), answers[i]).1.action
}

/// Whether a request makes a package or a release public.
pub open spec fn is_live(action: ActionView) -> bool {
    action matches ActionView::Go(command) && (command is Publish || command is Release)
}

/// Whether a request has the host run a command.
pub open spec fn is_command(action: ActionView) -> bool {
    action is Go || action is Eval || action is Probe
}

/// How far a stage lies in the course of a run.
pub open spec fn phase(stage: Stage) -> nat {
    match stage {
        Stage::PublishStatus => 0,
        Stage::Branch => 1,
        Stage::Push => 2,
        Stage::Plan => 3,
        Stage::DryRun => 4,
        Stage::Publish => 5,
        Stage::ReleaseVersion => 6,
        Stage::Release => 7,
        Stage::FetchTags => 8,
        Stage::BumpStatus => 9,
        Stage::SetVersion => 10,
        Stage::Members => 11,
        Stage::Version => 12,
        Stage::Probe => 13,
        Stage::Update => 14,
        Stage::Commit => 15,
        Stage::FinalPush => 16,
        Stage::Test => 17,
        Stage::Report => 18,
        Stage::Clean => 19,
        Stage::Delegated => 20,
        Stage::Finished => 21,
    }
}

/// Answering two lists in a row is answering the first, then the second.
pub proof fn lemma_run_after_concat(run: RunView, first: Seq<Answer>, second: Seq<Answer>)
    ensures
        run_after(run, first + second) == run_after(run_after(run, first), second),
    decreases first.len(),
{
    if first.len() == 0 {
        assert(first + second =~= second);
    } else {
        assert((first + second).drop_first() =~= first.drop_first() + second);
        lemma_run_after_concat(step(run, first.first()).0, first.drop_first(), second);
    }
}

/// The run after the answer at `i` is one step from the run before it.
pub proof fn lemma_run_after_next(run: RunView, answers: Seq<Answer>, i: int)
    requires
        0 <= i < answers.len(),
    ensures
        run_after(run, answers.take(i + 1)) == step(run_after(run, answers.take(i)), answers[i]).0,
{
    let one = seq![answers[i]];
    assert(answers.take(i + 1) =~= answers.take(i) + one);
    lemma_run_after_concat(run, answers.take(i), one);
    let before = run_after(run, answers.take(i));
    assert(one.drop_first() =~= Seq::<Answer>::empty());
    assert(run_after(before, one) == run_after(step(before, one.first()).0, one.drop_first()));
}

/// The run after `i` answers is the run after `j` of them, given the rest.
pub proof fn lemma_run_after_split(run: RunView, answers: Seq<Answer>, j: int, i: int)
    requires
        0 <= j <= i <= answers.len(),
    ensures
        run_after(run, answers.take(i)) == run_after(
            run_after(run, answers.take(j)),
            answers.subrange(j, i),
        ),
{
    assert(answers.take(i) =~= answers.take(j) + answers.subrange(j, i));
    lemma_run_after_concat(run, answers.take(j), answers.subrange(j, i));
}

/// A run that is over stays as it is.
pub proof fn lemma_finished_stays(run: RunView, answers: Seq<Answer>)
    requires
        run.stage == Stage::Finished,
    ensures
        run_after(run, answers) == run,
    decreases answers.len(),
{
    if answers.len() > 0 {
        lemma_finished_stays(run, answers.drop_first());
    }
}

/// A run never goes back: a step leaves it at its stage or at a later one.
pub proof fn lemma_step_advances(run: RunView, answer: Answer)
    ensures
        phase(step(run, answer).0.stage) >= phase(run.stage),
{
}

/// A run never goes back, however many answers it is given.
pub proof fn lemma_run_advances(run: RunView, answers: Seq<Answer>)
    ensures
        phase(run_after(run, answers).stage) >= phase(run.stage),
    decreases answers.len(),
{
    if answers.len() > 0 {
        lemma_step_advances(run, answers.first());
        lemma_run_advances(step(run, answers.first()).0, answers.drop_first());
    }
}

/// A request that makes something public leaves the run past the dry runs.
pub proof fn lemma_live_step(run: RunView, answer: Answer)
    ensures
        is_live(step(run, answer).1.action) ==> phase(step(run, answer).0.stage) > phase(
            Stage::DryRun,
        ),
{
}

/// Once a run is over, it asks for nothing.
pub proof fn law_finished_run_is_silent(run: RunView, answers: Seq<Answer>, j: int, i: int)
    requires
        0 <= j <= i < answers.len(),
        run_after(run, answers.take(j)).stage == Stage::Finished,
    ensures
        asked(run, answers, i) == ActionView::Halt,
{
    lemma_run_after_split(run, answers, j, i);
    lemma_finished_stays(run_after(run, answers.take(j)), answers.subrange(j, i));
}

/// The first failure ends a run: whatever request fails, but for the probe,
/// the run is over and says so with an error.
pub proof fn law_first_failure_ends_run(run: RunView, answer: Answer)
    requires
        answer is Err,
        run.stage != Stage::Probe,
        run.stage != Stage::Finished,
    ensures
        step(run, answer).0.stage == Stage::Finished,
        step(run, answer).1.action matches ActionView::Finish(result) && result is Err,
{
}

/// A failed probe is no failure: the run goes on to the commit.
pub proof fn law_failed_probe_is_absorbed(run: RunView, answer: Answer)
    requires
        answer is Err,
        run.stage == Stage::Probe,
    ensures
        step(run, answer).0.stage == Stage::Commit,
        step(run, answer).1.action == ActionView::Go(
            CommandView::Commit { version: run.version },
        ),
{
}

/// A working tree that is not clean stops a bump before any command: the
/// answer to the status query ends the run with the status, and nothing is
/// asked after it.
pub proof fn law_dirty_tree_stops_bump(bump: Seq<char>, answers: Seq<Answer>, i: int)
    requires
        0 <= i < answers.len(),
        answers[0] matches Ok(status) && trimmed(status).len() > 0,
    ensures
        bump_start(bump).1.action == ActionView::Eval(CommandView::Status),
        asked(bump_start(bump).0, answers, 0) == ActionView::Finish(
            Err(TaskErrorView::DirtyTree(trimmed(answers[0]->Ok_0))),
        ),
        !is_command(asked(bump_start(bump).0, answers, i)),
{
    let start = bump_start(bump).0;
    assert(answers.take(0) =~= Seq::<Answer>::empty());
    assert(run_after(start, answers.take(0)) == start);
    if i > 0 {
        lemma_run_after_next(start, answers, 0);
        law_finished_run_is_silent(start, answers, 1, i);
    }
}

/// A working tree that is not clean stops a publication before any command:
/// the answer to the status query ends the run with the status, and nothing is
/// asked after it.
pub proof fn law_dirty_tree_stops_publish(answers: Seq<Answer>, i: int)
    requires
        0 <= i < answers.len(),
        answers[0] matches Ok(status) && trimmed(status).len() > 0,
    ensures
        publish_start().1.action == ActionView::Eval(CommandView::Status),
        asked(publish_start().0, answers, 0) == ActionView::Finish(
            Err(TaskErrorView::DirtyTree(trimmed(answers[0]->Ok_0))),
        ),
        !is_command(asked(publish_start().0, answers, i)),
{
    let start = publish_start().0;
    assert(answers.take(0) =~= Seq::<Answer>::empty());
    assert(run_after(start, answers.take(0)) == start);
    if i > 0 {
        lemma_run_after_next(start, answers, 0);
        law_finished_run_is_silent(start, answers, 1, i);
    }
}

/// A branch that is no release branch stops a publication: after the branch
/// query the run asks for no command, so it neither pushes, nor checks, nor
/// publishes. The same holds where the branch query itself fails.
pub proof fn law_wrong_branch_stops_publish(answers: Seq<Answer>, i: int)
    requires
        1 <= i < answers.len(),
        answers[0] matches Ok(status) && trimmed(status).len() == 0,
        eval_result(invocation_of(CommandView::Branch), answers[1]) matches Ok(branch) ==> (
        branch_check(branch) is Err),
    ensures
        asked(publish_start().0, answers, 0) == ActionView::Eval(CommandView::Branch),
        answers[1] matches Ok(branch) ==> (asked(publish_start().0, answers, 1)
            == ActionView::Finish(Err(TaskErrorView::WrongBranch(trimmed(branch))))),
        !is_command(asked(publish_start().0, answers, i)),
{
    let start = publish_start().0;
    assert(answers.take(0) =~= Seq::<Answer>::empty());
    assert(run_after(start, answers.take(0)) == start);
    lemma_run_after_next(start, answers, 0);
    let branching = run_after(start, answers.take(1));
    assert(branching.stage == Stage::Branch);
    if i > 1 {
        lemma_run_after_next(start, answers, 1);
        law_finished_run_is_silent(start, answers, 2, i);
    }
}

/// A dry run that fails keeps everything private: where the answer at `k`
/// answers a dry run and is a failure, no request of the whole run, before or
/// after it, publishes a package or creates a release.
pub proof fn law_failed_dry_run_publishes_nothing(answers: Seq<Answer>, k: int, i: int)
    requires
        0 <= k < answers.len(),
        0 <= i < answers.len(),
        run_after(publish_start().0, answers.take(k)).stage == Stage::DryRun,
        answers[k] is Err,
    ensures
        !is_live(asked(publish_start().0, answers, i)),
        i == k ==> (asked(publish_start().0, answers, i) matches ActionView::Finish(result)
            && result is Err),
        i > k ==> asked(publish_start().0, answers, i) == ActionView::Halt,
{
    let start = publish_start().0;
    let checking = run_after(start, answers.take(k));
    if i < k {
        let before = run_after(start, answers.take(i));
        let after = step(before, answers[i]).0;
        lemma_run_after_next(start, answers, i);
        lemma_run_after_split(start, answers, i + 1, k);
        lemma_run_advances(after, answers.subrange(i + 1, k));
        lemma_live_step(before, answers[i]);
    } else if i > k {
        lemma_run_after_next(start, answers, k);
        law_finished_run_is_silent(start, answers, k + 1, i);
    }
}

/// Nothing is published before the whole plan has passed its dry runs: a
/// publication is asked for only in answer to the successful dry run of the
/// last package, which starts with the first package, or to the successful
/// publication of the package before.
pub proof fn law_publication_follows_the_dry_runs(run: RunView, answer: Answer)
    requires
        step(run, answer).1.action matches ActionView::Go(command) && command is Publish,
    ensures
        answer is Ok,
        run.stage == Stage::DryRun || run.stage == Stage::Publish,
        run.stage == Stage::DryRun ==> run.index + 1 >= run.plan.len() && step(run, answer).1.action
            == ActionView::Go(CommandView::Publish { package: run.plan[0] }),
        run.stage == Stage::Publish ==> run.index + 1 < run.plan.len() && step(
            run,
            answer,
        ).1.action == ActionView::Go(CommandView::Publish { package: run.plan[run.index + 1] }),
{
}

/// The dry runs go through the plan in order: the successful dry run of a
/// package that is not the last is followed by the dry run of the next.
pub proof fn law_dry_runs_follow_the_plan(run: RunView, answer: Answer)
    requires
        run.stage == Stage::DryRun,
        answer is Ok,
        run.index + 1 < run.plan.len(),
    ensures
        step(run, answer).0.stage == Stage::DryRun,
        step(run, answer).0.index == run.index + 1,
        step(run, answer).1.action == ActionView::Go(
            CommandView::DryRun { package: run.plan[run.index + 1] },
        ),
{
}

/// The tool itself is in no release plan, whatever the manifest of the
/// workspace declares.
pub proof fn law_plan_excludes_tool(manifest: Seq<char>)
    ensures
        resolve_members(manifest) matches Ok(plan) ==> !plan.contains(tool()),
{
    if let Ok(document) = parsed(manifest) {
        if let Some(members) = crate::manifest::declared_members(document) {
            crate::manifest::lemma_plan_excludes_tool(members);
        }
    }
}

/// A manifest that declares another name than the package asked for is a
/// mismatch, which names both.
pub proof fn law_mismatch_is_reported(package: Seq<char>, manifest: Seq<char>)
    requires
        parsed(manifest) matches Ok(document) && declared_package(document) matches Some(found)
            && found.0 != package,
    ensures
        resolve_version(package, manifest) == Err::<Seq<char>, TaskErrorView>(
            TaskErrorView::ManifestMismatch {
                requested: package,
                declared: declared_package(parsed(manifest)->Ok_0)->Some_0.0,
            },
        ),
{
}

/// Planning a release from a plan changes nothing: the tool is out already.
pub proof fn law_plan_is_idempotent(members: Seq<Seq<char>>)
    ensures
        release_plan(release_plan(members)) == release_plan(members),
    decreases members.len(),
{
    let keep = |name: Seq<char>| name != tool();
    reveal(Seq::filter);
    if members.len() > 0 {
        law_plan_is_idempotent(members.drop_last());
        if keep(members.last()) {
            release_plan(members.drop_last()).lemma_filter_push(members.last(), keep);
        }
    }
}

/// Resolving the members of an unchanged manifest again gives the same plan,
/// in the same order, or the same error.
pub proof fn law_members_are_repeatable(
    manifest: Seq<char>,
    first: Result<Seq<Seq<char>>, TaskErrorView>,
    second: Result<Seq<Seq<char>>, TaskErrorView>,
)
    requires
        first == resolve_members(manifest),
        second == resolve_members(manifest),
    ensures
        first == second,
{
}

/// Trimming leaves no white space at the end: what is left is the text up to
/// its last visible character.
pub proof fn law_trimmed_text_ends_visibly(text: Seq<char>)
    ensures
        trimmed(text).len() <= text.len(),
        trimmed(text) == text.subrange(0, trimmed(text).len() as int),
        trimmed(text).len() > 0 ==> !is_space(trimmed(text).last()),
    decreases text.len(),
{
    if text.len() > 0 && is_space(text.last()) {
        law_trimmed_text_ends_visibly(text.drop_last());
        assert(trimmed(text) =~= text.subrange(0, trimmed(text).len() as int));
    } else {
        assert(text =~= text.subrange(0, text.len() as int));
    }
}

/// Trimming twice is trimming once.
pub proof fn law_trimming_is_idempotent(text: Seq<char>)
    ensures
        trimmed(trimmed(text)) == trimmed(text),
    decreases text.len(),
{
    if text.len() > 0 && is_space(text.last()) {
        law_trimming_is_idempotent(text.drop_last());
    }
}

/// A release plan holds the members other than the tool, and only those.
pub proof fn law_plan_holds_the_packages(members: Seq<Seq<char>>, name: Seq<char>)
    ensures
        release_plan(members).contains(name) <==> members.contains(name) && name != tool(),
{
    let keep = |name: Seq<char>| name != tool();
    if release_plan(members).contains(name) {
        let i = choose|i: int| 0 <= i < members.filter(keep).len() && members.filter(keep)[i] == name;
        members.lemma_filter_pred(keep, i);
        members.lemma_filter_contains_rev(keep, name);
    }
    if members.contains(name) && name != tool() {
        let i = choose|i: int| 0 <= i < members.len() && members[i] == name;
        members.lemma_filter_contains(keep, i);
    }
}

/// A release plan keeps the order of the workspace: the plan of two lists in a
/// row is the plan of the first followed by the plan of the second.
pub proof fn law_plan_keeps_order(first: Seq<Seq<char>>, second: Seq<Seq<char>>)
    ensures
        release_plan(first + second) == release_plan(first) + release_plan(second),
{
    Seq::filter_distributes_over_add(first, second, |name: Seq<char>| name != tool());
}

} // verus!
