//! What the routine asks of the engine and what the engine answers.

use vstd::prelude::*;
use crate::config::{AttachOptions, ContainerSpec, ContainerSpecView};

verus! {

/// The six operations of the engine that the routine uses.
#[derive(Clone, Copy, Debug, PartialEq, Eq, Hash, Structural)]
pub enum Call {
    Inspect,
    Stop,
    Remove,
    Create,
    Start,
    Attach,
}

impl Call {
    /// Stop and remove only clear the way: the goal is reachable without
    /// them, so the routine goes on when they fail.
    pub open spec fn spec_is_best_effort(self) -> bool {
        self is Stop || self is Remove
    }

    /// Whether a failure of this call is ignored on purpose.
    #[verifier::when_used_as_spec(spec_is_best_effort)]
    pub fn is_best_effort(self) -> (ignored: bool)
        ensures
            ignored == self.spec_is_best_effort(),
    {
        match self {
            Call::Stop | Call::Remove => true,
            _ => false,
        }
    }

    /// Create, start and attach are each needed for a running, attached
    /// container: the routine ends when one of them fails.
    pub open spec fn spec_is_required(self) -> bool {
        self is Create || self is Start || self is Attach
    }

    /// Whether a failure of this call ends the routine.
    #[verifier::when_used_as_spec(spec_is_required)]
    pub fn is_required(self) -> (fatal: bool)
        ensures
            fatal == self.spec_is_required(),
    {
        match self {
            Call::Create | Call::Start | Call::Attach => true,
            _ => false,
        }
    }

    /// The place of the call in the fixed order inspect, stop, remove,
    /// create, start, attach.
    pub open spec fn position(self) -> nat {
        match self {
            Call::Inspect => 0,
            Call::Stop => 1,
            Call::Remove => 2,
            Call::Create => 3,
            Call::Start => 4,
            Call::Attach => 5,
        }
    }
}

/// One request to the engine, with everything needed to send it.
#[derive(Clone, Copy, Debug, PartialEq, Eq)]
pub enum Request<'a> {
    Inspect { name: &'a str },
    Stop { name: &'a str },
    Remove { name: &'a str },
    /// Create a container called `name` from `spec`. `platform` is the
    /// platform to ask for; `None` leaves the choice to the engine.
    Create { name: &'a str, platform: Option<&'a str>, spec: &'a ContainerSpec },
    Start { name: &'a str },
    Attach { name: &'a str, options: AttachOptions },
}

/// The mathematical value of a [`Request`].
pub enum RequestView {
    Inspect { name: Seq<char> },
    Stop { name: Seq<char> },
    Remove { name: Seq<char> },
    Create { name: Seq<char>, platform: Option<Seq<char>>, spec: ContainerSpecView },
    Start { name: Seq<char> },
    Attach { name: Seq<char>, options: AttachOptions },
}

impl RequestView {
    /// Which operation is asked for.
    pub open spec fn call(self) -> Call {
        match self {
            RequestView::Inspect { .. } => Call::Inspect,
            RequestView::Stop { .. } => Call::Stop,
            RequestView::Remove { .. } => Call::Remove,
            RequestView::Create { .. } => Call::Create,
            RequestView::Start { .. } => Call::Start,
            RequestView::Attach { .. } => Call::Attach,
        }
    }

    /// The container that the request is about.
    pub open spec fn name(self) -> Seq<char> {
        match self {
            RequestView::Inspect { name } => name,
            RequestView::Stop { name } => name,
            RequestView::Remove { name } => name,
            RequestView::Create { name, .. } => name,
            RequestView::Start { name } => name,
            RequestView::Attach { name, .. } => name,
        }
    }
}

impl<'a> View for Request<'a> {
    type V = RequestView;

    open spec fn view(&self) -> RequestView {
        match *self {
            Request::Inspect { name } => RequestView::Inspect { name: name@ },
            Request::Stop { name } => RequestView::Stop { name: name@ },
            Request::Remove { name } => RequestView::Remove { name: name@ },
            Request::Create { name, platform, spec } => RequestView::Create {
                name: name@,
                platform: match platform {
                    Some(p) => Some(p@),
                    None => None,
                },
                spec: spec@,
            },
            Request::Start { name } => RequestView::Start { name: name@ },
            Request::Attach { name, options } => RequestView::Attach { name: name@, options },
        }
    }
}

impl<'a> Request<'a> {
    /// Which operation is asked for.
    pub fn call(&self) -> (call: Call)
        ensures
            call == self@.call(),
    {
        match self {
            Request::Inspect { .. } => Call::Inspect,
            Request::Stop { .. } => Call::Stop,
            Request::Remove { .. } => Call::Remove,
            Request::Create { .. } => Call::Create,
            Request::Start { .. } => Call::Start,
            Request::Attach { .. } => Call::Attach,
        }
    }

    /// The container that the request is about.
    pub fn name(&self) -> (name: &'a str)
        ensures
            name@ == self@.name(),
    {
        match *self {
            Request::Inspect { name } => name,
            Request::Stop { name } => name,
            Request::Remove { name } => name,
            Request::Create { name, .. } => name,
            Request::Start { name } => name,
            Request::Attach { name, .. } => name,
        }
    }
}

/// The engine's answer to one request.
#[derive(Clone, Debug, PartialEq, Eq)]
pub enum Reply {
    /// The engine did what was asked. `running` is the running flag of the
    /// container where the answer reports one, as an inspection does.
    Success { running: Option<bool> },
    /// The engine refused or failed, with its message.
    Failure { error: String },
}

/// The mathematical value of a [`Reply`].
pub enum ReplyView {
    Success { running: Option<bool> },
    Failure { error: Seq<char> },
}

impl View for Reply {
    type V = ReplyView;

    open spec fn view(&self) -> ReplyView {
        match *self {
            Reply::Success { running } => ReplyView::Success { running },
            Reply::Failure { error } => ReplyView::Failure { error: error@ },
        }
    }
}

impl ReplyView {
    /// The engine's message where the answer is a failure.
    pub open spec fn failure(self) -> Option<Seq<char>> {
        match self {
            ReplyView::Success { .. } => None,
            ReplyView::Failure { error } => Some(error),
        }
    }
}

/// The mathematical value of an optional text.
pub open spec fn text_view(text: Option<String>) -> Option<Seq<char>> {
    match text {
        Some(words) => Some(words@),
        None => None,
    }
}

impl Reply {
    /// The engine's message where the answer is a failure.
    pub fn into_failure(self) -> (error: Option<String>)
        ensures
            text_view(error) == self@.failure(),
    {
        match self {
            Reply::Success { .. } => None,
            Reply::Failure { error } => Some(error),
        }
    }
}

} // verus!
