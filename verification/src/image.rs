//! Getting the image ready before the container is made: the options of a
//! build, the check that comes before it, and what to print of the engine's
//! progress feed.

use vstd::prelude::*;
use vstd::string::*;
use crate::exchange::text_view;

verus! {

/// The options of an image build.
#[derive(Clone, Debug, PartialEq, Eq)]
pub struct BuildOptions {
    /// The name and tag that the built image gets.
    pub tag: String,
    /// The path of the build recipe inside the build context.
    pub dockerfile: String,
    /// Remove intermediate containers after a successful build.
    pub remove_intermediate: bool,
    /// Remove intermediate containers after a failed build too.
    pub force_remove: bool,
}

/// The mathematical value of [`BuildOptions`].
pub struct BuildOptionsView {
    pub tag: Seq<char>,
    pub dockerfile: Seq<char>,
    pub remove_intermediate: bool,
    pub force_remove: bool,
}

impl View for BuildOptions {
    type V = BuildOptionsView;

    open spec fn view(&self) -> BuildOptionsView {
        BuildOptionsView {
            tag: self.tag@,
            dockerfile: self.dockerfile@,
            remove_intermediate: self.remove_intermediate,
            force_remove: self.force_remove,
        }
    }
}

/// A local input that must be there before the engine is asked for anything.
#[derive(Clone, Debug, PartialEq, Eq)]
pub enum PreconditionError {
    /// The build recipe at `path` does not exist.
    MissingBuildContext { path: String },
}

/// The mathematical value of a [`PreconditionError`].
pub enum PreconditionErrorView {
    MissingBuildContext { path: Seq<char> },
}

impl View for PreconditionError {
    type V = PreconditionErrorView;

    open spec fn view(&self) -> PreconditionErrorView {
        match *self {
            PreconditionError::MissingBuildContext { path } => {
                PreconditionErrorView::MissingBuildContext { path: path@ }
            },
        }
    }
}

impl PreconditionErrorView {
    /// The wording of the error.
    pub open spec fn text(self) -> Seq<char> {
        match self {
            PreconditionErrorView::MissingBuildContext { path } => "Error: "@ + path
                + " not found!"@,
        }
    }
}

impl PreconditionError {
    /// Words the error.
    pub fn message(&self) -> (message: String)
        ensures
            message@ == self@.text(),
    {
        match self {
            PreconditionError::MissingBuildContext { path } => {
                let mut message = String::from_str("Error: ");
                message.append(path.as_str());
                message.append(" not found!");
                message
            },
        }
    }
}

/// What a build of `tag` from the recipe `dockerfile` is to be asked with,
/// given whether the recipe was found: intermediate containers are removed
/// whether the build succeeds or not.
pub open spec fn planned_build(found: bool, tag: Seq<char>, dockerfile: Seq<char>) -> Result<
    BuildOptionsView,
    PreconditionErrorView,
> {
    if found {
        Ok(
            BuildOptionsView {
                tag,
                dockerfile,
                remove_intermediate: true,
                force_remove: true,
            },
        )
    } else {
        Err(PreconditionErrorView::MissingBuildContext { path: dockerfile })
    }
}

/// The mathematical value of what [`plan_build`] returns.
pub open spec fn plan_view(plan: Result<BuildOptions, PreconditionError>) -> Result<
    BuildOptionsView,
    PreconditionErrorView,
> {
    match plan {
        Ok(options) => Ok(options@),
        Err(error) => Err(error@),
    }
}

/// Decides whether the build can be asked for. Without the recipe there is
/// nothing to build from, and the answer is the error, before any request
/// goes to the engine.
pub fn plan_build(found: bool, tag: String, dockerfile: String) -> (plan: Result<
    BuildOptions,
    PreconditionError,
>)
    ensures
        plan_view(plan) == planned_build(found, tag@, dockerfile@),
{
    if found {
        Ok(BuildOptions { tag, dockerfile, remove_intermediate: true, force_remove: true })
    } else {
        Err(PreconditionError::MissingBuildContext { path: dockerfile })
    }
}

/// One event of the progress feed of a pull or a build.
#[derive(Clone, Debug, PartialEq, Eq)]
pub enum ProgressEvent {
    /// The engine reports progress, in words where it has any.
    Update { status: Option<String> },
    /// The event could not be read, or carries an error.
    Fault { error: String },
}

/// The mathematical value of a [`ProgressEvent`].
pub enum ProgressEventView {
    Update { status: Option<Seq<char>> },
    Fault { error: Seq<char> },
}

impl View for ProgressEvent {
    type V = ProgressEventView;

    open spec fn view(&self) -> ProgressEventView {
        match *self {
            ProgressEvent::Update { status } => ProgressEventView::Update {
                status: text_view(status),
            },
            ProgressEvent::Fault { error } => ProgressEventView::Fault { error: error@ },
        }
    }
}

impl ProgressEventView {
    /// The line to print for the event, if any: the status as it came, or
    /// the error after `Error: `.
    pub open spec fn line(self) -> Option<Seq<char>> {
        match self {
            ProgressEventView::Update { status } => status,
            ProgressEventView::Fault { error } => Some("Error: "@ + error),
        }
    }
}

/// The line to print for one event of the feed. A fault is reported like
/// any other event: it does not end the feed.
pub fn progress_line(event: ProgressEvent) -> (line: Option<String>)
    ensures
        text_view(line) == event@.line(),
{
    match event {
        ProgressEvent::Update { status } => status,
        ProgressEvent::Fault { error } => {
            let mut words = String::from_str("Error: ");
            words.append(error.as_str());
            Some(words)
        },
    }
}

} // verus!
