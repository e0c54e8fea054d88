//! The provisioning routine as a state machine: which request to send next,
//! given the answer to the last one.
//!
//! The caller sends [`Provisioner::request`] to the engine, hands the answer
//! to [`Provisioner::advance`], and repeats until the step is
//! [`Step::Finished`].

use vstd::prelude::*;
use crate::config::{AttachOptions, ContainerSpec, ContainerSpecView};
use crate::exchange::{text_view, Call, Reply, ReplyView, Request, RequestView};
use crate::report::{Notice, Outcome, OutcomeView};
use crate::state::{classify, ContainerState};

verus! {

/// The routine between two requests: the container it works on and the call
/// whose answer it waits for.
#[derive(Clone, Debug, PartialEq, Eq)]
pub struct Provisioner {
    name: String,
    spec: ContainerSpec,
    pending: Call,
}

/// The mathematical value of a [`Provisioner`].
pub struct ProvisionerView {
    pub name: Seq<char>,
    pub spec: ContainerSpecView,
    pub pending: Call,
}

/// What follows an answer.
#[derive(Clone, Debug, PartialEq, Eq)]
pub enum Step {
    /// The routine goes on: tell the operator `notice`, if there is one, and
    /// send the request of `next`. `ignored` is the engine's message where
    /// the call just answered failed and the failure is passed over on
    /// purpose.
    Continue { notice: Option<Notice>, ignored: Option<String>, next: Provisioner },
    /// The routine is over.
    Finished { outcome: Outcome },
}

/// The mathematical value of a [`Step`].
pub enum StepView {
    Continue { notice: Option<Notice>, ignored: Option<Seq<char>>, next: ProvisionerView },
    Finished { outcome: OutcomeView },
}

impl ProvisionerView {
    /// The routine at its beginning: about to inspect `name`.
    pub open spec fn initial(name: Seq<char>, spec: ContainerSpecView) -> ProvisionerView {
        ProvisionerView { name, spec, pending: Call::Inspect }
    }

    /// The same routine, waiting for the answer to `call`.
    pub open spec fn awaiting(self, call: Call) -> ProvisionerView {
        ProvisionerView { pending: call, ..self }
    }

    /// The request whose answer the routine waits for.
    pub open spec fn request(self) -> RequestView {
        match self.pending {
            Call::Inspect => RequestView::Inspect { name: self.name },
            Call::Stop => RequestView::Stop { name: self.name },
            Call::Remove => RequestView::Remove { name: self.name },
            Call::Create => RequestView::Create {
                name: self.name,
                platform: None,
                spec: self.spec,
            },
            Call::Start => RequestView::Start { name: self.name },
            Call::Attach => RequestView::Attach {
                name: self.name,
                options: AttachOptions::interactive(),
            },
        }
    }

    /// What follows the answer `reply` to the pending request.
    ///
    /// The inspection decides where the routine goes: to creation where
    /// nothing carries the name, to removal where a stopped container does,
    /// to a stop where a running one does. The answers to stop and remove
    /// change nothing: a failure is handed on as ignored. A failure of
    /// create, start or attach ends the routine with that failure.
    pub open spec fn advance(self, reply: ReplyView) -> StepView {
        match self.pending {
            Call::Inspect => match ContainerState::of(reply) {
                ContainerState::Absent => StepView::Continue {
                    notice: Some(Notice::NoneFound),
                    ignored: None,
                    next: self.awaiting(Call::Create),
                },
                ContainerState::Stopped => StepView::Continue {
                    notice: Some(Notice::Removing),
                    ignored: None,
                    next: self.awaiting(Call::Remove),
                },
                ContainerState::Running => StepView::Continue {
                    notice: Some(Notice::Stopping),
                    ignored: None,
                    next: self.awaiting(Call::Stop),
                },
            },
            Call::Stop => StepView::Continue {
                notice: Some(Notice::Removing),
                ignored: reply.failure(),
                next: self.awaiting(Call::Remove),
            },
            Call::Remove => StepView::Continue {
                notice: None,
                ignored: reply.failure(),
                next: self.awaiting(Call::Create),
            },
            Call::Create => match reply {
                ReplyView::Success { .. } => StepView::Continue {
                    notice: Some(Notice::Created),
                    ignored: None,
                    next: self.awaiting(Call::Start),
                },
                ReplyView::Failure { error } => StepView::Finished {
                    outcome: OutcomeView::Failed { call: Call::Create, error },
                },
            },
            Call::Start => match reply {
                ReplyView::Success { .. } => StepView::Continue {
                    notice: Some(Notice::Started),
                    ignored: None,
                    next: self.awaiting(Call::Attach),
                },
                ReplyView::Failure { error } => StepView::Finished {
                    outcome: OutcomeView::Failed { call: Call::Start, error },
                },
            },
            Call::Attach => match reply {
                ReplyView::Success { .. } => StepView::Finished { outcome: OutcomeView::Attached },
                ReplyView::Failure { error } => StepView::Finished {
                    outcome: OutcomeView::Failed { call: Call::Attach, error },
                },
            },
        }
    }
}

impl View for Provisioner {
    type V = ProvisionerView;

    closed spec fn view(&self) -> ProvisionerView {
        ProvisionerView { name: self.name@, spec: self.spec@, pending: self.pending }
    }
}

impl View for Step {
    type V = StepView;

    open spec fn view(&self) -> StepView {
        match *self {
            Step::Continue { notice, ignored, next } => StepView::Continue {
                notice,
                ignored: text_view(ignored),
                next: next@,
            },
            Step::Finished { outcome } => StepView::Finished { outcome: outcome@ },
        }
    }
}

impl Provisioner {
    /// Begins the routine for the container `name`, to be created from `spec`.
    pub fn new(name: String, spec: ContainerSpec) -> (routine: Provisioner)
        ensures
            routine@ == ProvisionerView::initial(name@, spec@),
    {
        Provisioner { name, spec, pending: Call::Inspect }
    }

    /// The name of the container.
    pub fn name(&self) -> (name: &str)
        ensures
            name@ == self@.name,
    {
        self.name.as_str()
    }

    /// The description that the container is created from.
    pub fn spec(&self) -> (spec: &ContainerSpec)
        ensures
            spec@ == self@.spec,
    {
        &self.spec
    }

    /// The call whose answer the routine waits for.
    pub fn pending(&self) -> (call: Call)
        ensures
            call == self@.pending,
    {
        self.pending
    }

    /// The request to send to the engine now. A creation request carries an
    /// interactive description.
    pub fn request(&self) -> (request: Request<'_>)
        ensures
            request@ == self@.request(),
            self@.spec.is_interactive(),
    {
        proof {
            use_type_invariant(&self.spec);
        }
        let name = self.name.as_str();
        match self.pending {
            Call::Inspect => Request::Inspect { name },
            Call::Stop => Request::Stop { name },
            Call::Remove => Request::Remove { name },
            Call::Create => Request::Create { name, platform: None, spec: &self.spec },
            Call::Start => Request::Start { name },
            Call::Attach => Request::Attach { name, options: AttachOptions::interactive() },
        }
    }

    /// Takes the engine's answer to the pending request and says what
    /// follows.
    pub fn advance(self, reply: Reply) -> (step: Step)
        ensures
            step@ == self@.advance(reply@),
    {
        let Provisioner { name, spec, pending } = self;
        match pending {
            Call::Inspect => match classify(&reply) {
                ContainerState::Absent => Step::Continue {
                    notice: Some(Notice::NoneFound),
                    ignored: None,
                    next: Provisioner { name, spec, pending: Call::Create },
                },
                ContainerState::Stopped => Step::Continue {
                    notice: Some(Notice::Removing),
                    ignored: None,
                    next: Provisioner { name, spec, pending: Call::Remove },
                },
                ContainerState::Running => Step::Continue {
                    notice: Some(Notice::Stopping),
                    ignored: None,
                    next: Provisioner { name, spec, pending: Call::Stop },
                },
            },
            Call::Stop => Step::Continue {
                notice: Some(Notice::Removing),
                ignored: reply.into_failure(),
                next: Provisioner { name, spec, pending: Call::Remove },
            },
            Call::Remove => Step::Continue {
                notice: None,
                ignored: reply.into_failure(),
                next: Provisioner { name, spec, pending: Call::Create },
            },
            Call::Create => match reply {
                Reply::Success { .. } => Step::Continue {
                    notice: Some(Notice::Created),
                    ignored: None,
                    next: Provisioner { name, spec, pending: Call::Start },
                },
                Reply::Failure { error } => Step::Finished {
                    outcome: Outcome::Failed { call: Call::Create, error },
                },
            },
            Call::Start => match reply {
                Reply::Success { .. } => Step::Continue {
                    notice: Some(Notice::Started),
                    ignored: None,
                    next: Provisioner { name, spec, pending: Call::Attach },
                },
                Reply::Failure { error } => Step::Finished {
                    outcome: Outcome::Failed { call: Call::Start, error },
                },
            },
            Call::Attach => match reply {
                Reply::Success { .. } => Step::Finished { outcome: Outcome::Attached },
                Reply::Failure { error } => Step::Finished {
                    outcome: Outcome::Failed { call: Call::Attach, error },
                },
            },
        }
    }
}

} // verus!
