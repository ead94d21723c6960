//! Release automation for a multi-package workspace, as a verified decision engine.
//!
//! Every operation is a [`run::Run`]: it asks the host to carry out one request at
//! a time, and the host's answer decides the next request. The host runs the
//! commands and reads the files; what is asked, in which order, and when a run
//! stops is decided here.

use vstd::prelude::*;
use vstd::string::*;

pub mod command;
pub mod document;
pub mod error;
pub mod laws;
pub mod manifest;
pub mod ops;
pub mod run;
pub mod text;

use crate::error::TaskError;
use crate::ops::{bump_start, coverage_start, fresh, publish_start};
use crate::run::{Action, ActionView, Chore, Directive, DirectiveView, Run, RunView, Stage};
use crate::text::{debug_list, list_debug, texts};

verus! {

/// What the tool is asked to do.
#[derive(Debug, PartialEq, Eq)]
pub enum Commands {
    /// The coverage report; `dev` asks for one to read in a browser, `neo` for
    /// one that an editor reads.
    Coverage { dev: bool, neo: bool },
    /// The regular checks: format, lints, tests.
    Ci,
    /// The documentation, in watch mode.
    Docs,
    /// Bump the version and commit.
    Bump { bump: String },
    /// Publish, then bump the version and commit.
    Publish,
    /// The distribution recipe of the project.
    Dist,
    /// A target of the project's own.
    Rule { target: String, rule_options: Vec<String> },
}

pub enum CommandsView {
    Coverage { dev: bool, neo: bool },
    Ci,
    Docs,
    Bump { bump: Seq<char> },
    Publish,
    Dist,
    Rule { target: Seq<char>, rule_options: Seq<Seq<char>> },
}

impl View for Commands {
    type V = CommandsView;

    open spec fn view(&self) -> CommandsView {
        match self {
            Commands::Coverage { dev, neo } => CommandsView::Coverage { dev: *dev, neo: *neo },
            Commands::Ci => CommandsView::Ci,
            Commands::Docs => CommandsView::Docs,
            Commands::Bump { bump } => CommandsView::Bump { bump: bump@ },
            Commands::Publish => CommandsView::Publish,
            Commands::Dist => CommandsView::Dist,
            Commands::Rule { target, rule_options } => CommandsView::Rule {
                target: target@,
                rule_options: texts(rule_options@),
            },
        }
    }
}

/// What an empty distribution recipe reports.
pub open spec fn dist_warning() -> Seq<char> {
    "Warning: Empty dist receipt."@
}

/// What an empty recipe for a target reports.
pub open spec fn rule_warning(target: Seq<char>, options: Seq<Seq<char>>) -> Seq<char> {
    "Warning: Empty receipt for target "@ + target + ", options: "@ + list_debug(options)
}

/// How a chore that the host carries out by itself begins.
pub open spec fn chore_start(chore: Chore) -> (RunView, DirectiveView) {
    (
        fresh(Stage::Delegated, false, seq![]),
        DirectiveView { notes: seq![], action: ActionView::Delegate(chore) },
    )
}

/// A run that was over when it began: the lines that a recipe of the project
/// reported, and its result.
pub open spec fn concluded(result: Result<Seq<Seq<char>>, error::TaskErrorView>) -> (
    RunView,
    DirectiveView,
) {
    (
        fresh(Stage::Finished, false, seq![]),
        match result {
            Ok(notes) => DirectiveView { notes, action: ActionView::Finish(Ok(())) },
            Err(error) => DirectiveView { notes: seq![], action: ActionView::Finish(Err(error)) },
        },
    )
}

/// How each command but the project's own recipes begins.
pub open spec fn begun(command: CommandsView) -> (RunView, DirectiveView) {
    match command {
        CommandsView::Coverage { dev, neo } => if neo {
            coverage_start()
        } else {
            chore_start(Chore::Coverage { dev })
        },
        CommandsView::Ci => chore_start(Chore::Ci),
        CommandsView::Docs => chore_start(Chore::Docs),
        CommandsView::Bump { bump } => bump_start(bump),
        CommandsView::Publish => publish_start(),
        CommandsView::Dist => concluded(Ok(seq![dist_warning()])),
        CommandsView::Rule { target, rule_options } => concluded(
            Ok(seq![rule_warning(target, rule_options)]),
        ),
    }
}

/// The empty distribution recipe: it reports that it is empty.
pub fn empty_dist() -> (r: Result<Vec<String>, TaskError>)
    ensures
        error::list_view(r) == Ok::<Seq<Seq<char>>, error::TaskErrorView>(seq![dist_warning()]),
{
    let mut notes: Vec<String> = Vec::new();
    notes.push(String::from_str("Warning: Empty dist receipt."));
    assert(texts(notes@) =~= seq![dist_warning()]);
    Ok(notes)
}

/// The empty recipe for a target: it reports that it is empty, and for which
/// target and options.
pub fn empty_rule(target: String, options: Vec<String>) -> (r: Result<Vec<String>, TaskError>)
    ensures
        error::list_view(r) == Ok::<Seq<Seq<char>>, error::TaskErrorView>(
            seq![rule_warning(target@, texts(options@))],
        ),
{
    let mut line = String::from_str("Warning: Empty receipt for target ");
    line.append(target.as_str());
    line.append(", options: ");
    line.append(debug_list(&options).as_str());
    let mut notes: Vec<String> = Vec::new();
    notes.push(line);
    assert(texts(notes@) =~= seq![rule_warning(target@, texts(options@))]);
    Ok(notes)
}

/// The recipes that a project adds to the tool. Each gives the lines to print,
/// or fails.
pub trait Addon {
    /// The distribution recipe. Where a project gives none, it is the empty
    /// one: it succeeds, and reports that it is empty.
    fn dist() -> (r: Result<Vec<String>, TaskError>)
        default_ensures
            error::list_view(r) == Ok::<Seq<Seq<char>>, error::TaskErrorView>(
                seq![dist_warning()],
            ),
    {
        empty_dist()
    }

    /// The recipe for a target. Where a project gives none, it is the empty
    /// one: it succeeds, and reports that it is empty, for which target and
    /// with which options.
    fn rule(target: String, options: Vec<String>) -> (r: Result<Vec<String>, TaskError>)
        default_ensures
            error::list_view(r) == Ok::<Seq<Seq<char>>, error::TaskErrorView>(
                seq![rule_warning(target@, texts(options@))],
            ),
    {
        empty_rule(target, options)
    }
}

/// A run that is over as it begins, with what a recipe of the project gave.
pub fn conclude(result: Result<Vec<String>, TaskError>) -> (r: (Run, Directive))
    ensures
        (r.0@, r.1@) == concluded(error::list_view(result)),
{
    let run = Run::at(Stage::Finished, false, "");
    proof {
        reveal_strlit("");
        assert(""@ =~= Seq::<char>::empty());
    }
    match result {
        Ok(notes) => (run, Directive { notes, action: Action::Finish(Ok(())) }),
        Err(error) => {
            let notes: Vec<String> = Vec::new();
            assert(texts(notes@) =~= seq![]);
            (run, Directive { notes, action: Action::Finish(Err(error)) })
        },
    }
}

/// Begins a chore that the host carries out by itself.
pub fn delegate(chore: Chore) -> (r: (Run, Directive))
    ensures
        (r.0@, r.1@) == chore_start(chore),
{
    let run = Run::at(Stage::Delegated, false, "");
    proof {
        reveal_strlit("");
        assert(""@ =~= Seq::<char>::empty());
    }
    let notes: Vec<String> = Vec::new();
    assert(texts(notes@) =~= seq![]);
    (run, Directive { notes, action: Action::Delegate(chore) })
}

/// The tool with the recipes of a project.
pub trait Make: Addon {
    /// Begins what a command asks for. A recipe of the project is carried out
    /// at once, and the run is over as it begins.
    fn make(command: Commands) -> (r: (Run, Directive))
        ensures
            match command@ {
                CommandsView::Dist => r.0@ == fresh(Stage::Finished, false, seq![])
                    && r.1@.action is Finish,
                CommandsView::Rule { .. } => r.0@ == fresh(Stage::Finished, false, seq![])
                    && r.1@.action is Finish,
                _ => (r.0@, r.1@) == begun(command@),
            },
    {
        match command {
            Commands::Ci => delegate(Chore::Ci),
            Commands::Docs => delegate(Chore::Docs),
            Commands::Coverage { dev, neo: false } => delegate(Chore::Coverage { dev }),
            Commands::Coverage { neo: true, .. } => ops::neo_coverage(),
            Commands::Bump { bump } => ops::bump_version(bump.as_str()),
            Commands::Publish => ops::publish(),
            Commands::Dist => conclude(Self::dist()),
            Commands::Rule { target, rule_options } => conclude(Self::rule(target, rule_options)),
        }
    }
}

impl<T> Make for T where T: Addon {
}

/// The tool without recipes of a project.
pub struct MakeImpl();

impl Addon for MakeImpl {
    fn dist() -> (r: Result<Vec<String>, TaskError>)
        ensures
            error::list_view(r) == Ok::<Seq<Seq<char>>, error::TaskErrorView>(
                seq![dist_warning()],
            ),
    {
        empty_dist()
    }

    fn rule(target: String, options: Vec<String>) -> (r: Result<Vec<String>, TaskError>)
        ensures
            error::list_view(r) == Ok::<Seq<Seq<char>>, error::TaskErrorView>(
                seq![rule_warning(target@, texts(options@))],
            ),
    {
        empty_rule(target, options)
    }
}

/// Begins what a command asks for, with the empty recipes.
pub fn make(command: Commands) -> (r: (Run, Directive))
    ensures
        (r.0@, r.1@) == begun(command@),
{
    match command {
        Commands::Dist => conclude(MakeImpl::dist()),
        Commands::Rule { target, rule_options } => conclude(MakeImpl::rule(target, rule_options)),
        command => MakeImpl::make(command),
    }
}

} // verus!
