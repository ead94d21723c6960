//! The ways in which a task fails.

use vstd::prelude::*;
use vstd::string::*;
use crate::command::{line_of, Invocation, InvocationView};
use crate::text::texts;

verus! {

/// Why a task stopped short.
#[derive(Clone, Debug, PartialEq, Eq)]
pub enum TaskError {
    /// A manifest could not be read, is no TOML document, or lacks what is read from it.
    ManifestParse(String),
    /// The manifest found under a package's name declares another name.
    ManifestMismatch { requested: String, declared: String },
    /// The working tree holds changes that are not committed: the status text.
    DirtyTree(String),
    /// The current branch is no release branch: its name.
    WrongBranch(String),
    /// An external command failed. An evaluated command is attached to its failure.
    CommandExecution { invocation: Option<Invocation>, cause: String },
    /// The workspace has no package to release.
    EmptyPlan,
}

pub enum TaskErrorView {
    ManifestParse(Seq<char>),
    ManifestMismatch { requested: Seq<char>, declared: Seq<char> },
    DirtyTree(Seq<char>),
    WrongBranch(Seq<char>),
    CommandExecution { invocation: Option<InvocationView>, cause: Seq<char> },
    EmptyPlan,
}

impl View for TaskError {
    type V = TaskErrorView;

    open spec fn view(&self) -> TaskErrorView {
        match self {
            TaskError::ManifestParse(detail) => TaskErrorView::ManifestParse(detail@),
            TaskError::ManifestMismatch { requested, declared } => TaskErrorView::ManifestMismatch {
                requested: requested@,
                declared: declared@,
            },
            TaskError::DirtyTree(status) => TaskErrorView::DirtyTree(status@),
            TaskError::WrongBranch(branch) => TaskErrorView::WrongBranch(branch@),
            TaskError::CommandExecution { invocation, cause } => TaskErrorView::CommandExecution {
                invocation: match invocation {
                    Some(invocation) => Some(invocation@),
                    None => None,
                },
                cause: cause@,
            },
            TaskError::EmptyPlan => TaskErrorView::EmptyPlan,
        }
    }
}

/// A result that gives nothing, with its error by its view.
pub open spec fn unit_view(r: Result<(), TaskError>) -> Result<(), TaskErrorView> {
    match r {
        Ok(_) => Ok(()),
        Err(error) => Err(error@),
    }
}

/// A result that gives a text, by its view.
pub open spec fn text_view(r: Result<String, TaskError>) -> Result<Seq<char>, TaskErrorView> {
    match r {
        Ok(text) => Ok(text@),
        Err(error) => Err(error@),
    }
}

/// A result that gives a list of texts, by its view.
pub open spec fn list_view(r: Result<Vec<String>, TaskError>) -> Result<
    Seq<Seq<char>>,
    TaskErrorView,
> {
    match r {
        Ok(list) => Ok(texts(list@)),
        Err(error) => Err(error@),
    }
}

/// What an error says of itself.
pub open spec fn message_of(error: TaskErrorView) -> Seq<char> {
    match error {
        TaskErrorView::ManifestParse(detail) => "manifest: "@ + detail,
        TaskErrorView::ManifestMismatch { requested, declared } => "package `"@ + requested
            + "` declares the name `"@ + declared + "`"@,
        TaskErrorView::DirtyTree(status) => status + "\nworking directory dirty."@,
        TaskErrorView::WrongBranch(branch) => "branch `"@ + branch + "` is not main branch"@,
        TaskErrorView::CommandExecution { invocation, cause } => match invocation {
            Some(invocation) => "eval: "@ + line_of(invocation) + ": "@ + cause,
            None => cause,
        },
        TaskErrorView::EmptyPlan => "bad default-members"@,
    }
}

impl TaskError {
    /// What the error says of itself.
    pub fn message(&self) -> (r: String)
        ensures
            r@ == message_of(self@),
    {
        match self {
            TaskError::ManifestParse(detail) => String::from_str("manifest: ").concat(
                detail.as_str(),
            ),
            TaskError::ManifestMismatch { requested, declared } => {
                let mut out = String::from_str("package `");
                out.append(requested.as_str());
                out.append("` declares the name `");
                out.append(declared.as_str());
                out.append("`");
                out
            },
            TaskError::DirtyTree(status) => status.clone().concat("\nworking directory dirty."),
            TaskError::WrongBranch(branch) => {
                let mut out = String::from_str("branch `");
                out.append(branch.as_str());
                out.append("` is not main branch");
                out
            },
            TaskError::CommandExecution { invocation, cause } => match invocation {
                Some(invocation) => {
                    let mut out = String::from_str("eval: ");
                    out.append(invocation.line().as_str());
                    out.append(": ");
                    out.append(cause.as_str());
                    out
                },
                None => cause.clone(),
            },
            TaskError::EmptyPlan => String::from_str("bad default-members"),
        }
    }
}

} // verus!
