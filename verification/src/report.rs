//! What the routine has to say while it runs and when it ends, and the
//! wording of each message.

use vstd::prelude::*;
use vstd::string::*;
use crate::exchange::Call;

verus! {

/// Progress worth telling the operator about.
#[derive(Clone, Copy, Debug, PartialEq, Eq, Hash, Structural)]
pub enum Notice {
    /// Nothing carries the name: there is nothing to clear.
    NoneFound,
    /// A running container carries the name and is about to be stopped.
    Stopping,
    /// A container carries the name and is about to be removed.
    Removing,
    /// The container was created.
    Created,
    /// The container was started.
    Started,
}

impl Notice {
    /// The wording of the notice for the container called `name`.
    pub open spec fn text(self, name: Seq<char>) -> Seq<char> {
        match self {
            Notice::NoneFound => "No existing container found. Proceeding..."@,
            Notice::Stopping => "Stopping existing container '"@ + name + "'..."@,
            Notice::Removing => "Removing existing container '"@ + name + "'..."@,
            Notice::Created => "Container created successfully."@,
            Notice::Started => "Container started successfully."@,
        }
    }

    /// Words the notice for the container called `name`.
    pub fn message(self, name: &str) -> (message: String)
        ensures
            message@ == self.text(name@),
    {
        match self {
            Notice::NoneFound => String::from_str("No existing container found. Proceeding..."),
            Notice::Stopping => {
                let mut message = String::from_str("Stopping existing container '");
                message.append(name);
                message.append("'...");
                message
            },
            Notice::Removing => {
                let mut message = String::from_str("Removing existing container '");
                message.append(name);
                message.append("'...");
                message
            },
            Notice::Created => String::from_str("Container created successfully."),
            Notice::Started => String::from_str("Container started successfully."),
        }
    }
}

/// How the routine ended.
#[derive(Clone, Debug, PartialEq, Eq)]
pub enum Outcome {
    /// The container was created and started, and a stream is attached to it.
    Attached,
    /// The engine failed `call` with the message `error`, and the routine
    /// stopped there. Nothing done before is undone.
    Failed { call: Call, error: String },
}

/// The mathematical value of an [`Outcome`].
pub enum OutcomeView {
    Attached,
    Failed { call: Call, error: Seq<char> },
}

impl View for Outcome {
    type V = OutcomeView;

    open spec fn view(&self) -> OutcomeView {
        match *self {
            Outcome::Attached => OutcomeView::Attached,
            Outcome::Failed { call, error } => OutcomeView::Failed { call, error: error@ },
        }
    }
}

/// What the routine was trying to do to the container when `call` failed.
pub open spec fn attempt(call: Call) -> Seq<char> {
    match call {
        Call::Inspect => "inspect"@,
        Call::Stop => "stop"@,
        Call::Remove => "remove"@,
        Call::Create => "create"@,
        Call::Start => "start"@,
        Call::Attach => "attach to"@,
    }
}

impl OutcomeView {
    /// The wording of the outcome.
    pub open spec fn text(self) -> Seq<char> {
        match self {
            OutcomeView::Attached => "Attached to container."@,
            OutcomeView::Failed { call, error } => "Failed to "@ + attempt(call) + " container: "@
                + error,
        }
    }
}

impl Outcome {
    /// Whether the routine reached its goal.
    pub fn is_attached(&self) -> (attached: bool)
        ensures
            attached == (self@ is Attached),
    {
        match self {
            Outcome::Attached => true,
            Outcome::Failed { .. } => false,
        }
    }

    /// Words the outcome.
    pub fn message(&self) -> (message: String)
        ensures
            message@ == self@.text(),
    {
        match self {
            Outcome::Attached => String::from_str("Attached to container."),
            Outcome::Failed { call, error } => {
                let mut message = String::from_str("Failed to ");
                match call {
                    Call::Inspect => message.append("inspect"),
                    Call::Stop => message.append("stop"),
                    Call::Remove => message.append("remove"),
                    Call::Create => message.append("create"),
                    Call::Start => message.append("start"),
                    Call::Attach => message.append("attach to"),
                }
                message.append(" container: ");
                message.append(error.as_str());
                message
            },
        }
    }
}

} // verus!
