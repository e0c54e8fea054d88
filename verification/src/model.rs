//! The routine run to its end against an engine, as mathematics.
//!
//! An engine is anything that answers requests and may change while it does:
//! a state of some type `W` and a function from state and request to the next
//! state and the answer. [`run`] plays the routine against it and records
//! every exchange. [`EngineModel`] is one such engine, a plain set of named
//! containers that never fails without a reason.

use vstd::prelude::*;
use crate::config::ContainerSpecView;
use crate::exchange::{Call, ReplyView, RequestView};
use crate::provision::{ProvisionerView, StepView};
use crate::report::OutcomeView;

verus! {

/// One request, the answer to it, and the engine as the answer left it.
pub struct Exchange<W> {
    pub request: RequestView,
    pub reply: ReplyView,
    pub after: W,
}

/// A whole run of the routine.
pub struct Run<W> {
    /// The exchanges with the engine, first to last.
    pub exchanges: Seq<Exchange<W>>,
    /// How the run ended.
    pub outcome: OutcomeView,
}

impl<W> Run<W> {
    /// The operations asked for, first to last.
    pub open spec fn calls(self) -> Seq<Call> {
        Seq::new(self.exchanges.len(), |i: int| self.exchanges[i].request.call())
    }

    /// The engine as the run left it.
    pub open spec fn end(self) -> W {
        self.exchanges.last().after
    }
}

/// How many requests the routine may still send, the pending one included.
pub open spec fn remaining(pending: Call) -> nat {
    (6 - pending.position()) as nat
}

/// The run of `routine` against the engine that starts in `world` and
/// answers by `serve`.
pub open spec fn run<W>(
    routine: ProvisionerView,
    world: W,
    serve: spec_fn(W, RequestView) -> (W, ReplyView),
) -> Run<W>
    decreases remaining(routine.pending),
{
    let (after, reply) = serve(world, routine.request());
    let first = Exchange { request: routine.request(), reply, after };
    match routine.advance(reply) {
        StepView::Continue { next, .. } => {
            let rest = run(next, after, serve);
            Run { exchanges: seq![first] + rest.exchanges, outcome: rest.outcome }
        },
        StepView::Finished { outcome } => Run { exchanges: seq![first], outcome },
    }
}

/// A container as the model engine keeps it.
#[verifier::ext_equal]
pub struct ContainerModel {
    pub running: bool,
    pub spec: ContainerSpecView,
}

/// A model engine: the containers it holds, by name.
#[verifier::ext_equal]
pub struct EngineModel {
    pub containers: Map<Seq<char>, ContainerModel>,
}

impl EngineModel {
    /// Whether a container carries `name`.
    pub open spec fn has(self, name: Seq<char>) -> bool {
        self.containers.dom().contains(name)
    }

    /// The engine with `container` under `name`.
    pub open spec fn with(self, name: Seq<char>, container: ContainerModel) -> EngineModel {
        EngineModel { containers: self.containers.insert(name, container) }
    }

    /// The engine with nothing under `name`.
    pub open spec fn without(self, name: Seq<char>) -> EngineModel {
        EngineModel { containers: self.containers.remove(name) }
    }

    /// What the model engine says when it refuses.
    pub open spec fn refusal() -> ReplyView {
        ReplyView::Failure { error: "refused"@ }
    }

    /// What the model engine says when it did what was asked.
    pub open spec fn done() -> ReplyView {
        ReplyView::Success { running: None }
    }

    /// The engine after `request`, and its answer.
    ///
    /// - An inspection reports the running flag of the container, and fails
    ///   where there is none.
    /// - A stop works on a running container only. The container exits, and
    ///   is gone at once where it was created to be removed on exit.
    /// - A removal works on a container that is not running.
    /// - A creation works where the name is free, and leaves a container
    ///   that is not running.
    /// - A start works on a container that is not running.
    /// - An attachment works on a running container.
    pub open spec fn serve(self, request: RequestView) -> (EngineModel, ReplyView) {
        let name = request.name();
        match request {
            RequestView::Inspect { .. } => if self.has(name) {
                (self, ReplyView::Success { running: Some(self.containers[name].running) })
            } else {
                (self, Self::refusal())
            },
            RequestView::Stop { .. } => if self.has(name) && self.containers[name].running {
                let held = self.containers[name];
                if held.spec.host.auto_remove {
                    (self.without(name), Self::done())
                } else {
                    (self.with(name, ContainerModel { running: false, ..held }), Self::done())
                }
            } else {
                (self, Self::refusal())
            },
            RequestView::Remove { .. } => if self.has(name) && !self.containers[name].running {
                (self.without(name), Self::done())
            } else {
                (self, Self::refusal())
            },
            RequestView::Create { spec, .. } => if self.has(name) {
                (self, Self::refusal())
            } else {
                (self.with(name, ContainerModel { running: false, spec }), Self::done())
            },
            RequestView::Start { .. } => if self.has(name) && !self.containers[name].running {
                let held = self.containers[name];
                (self.with(name, ContainerModel { running: true, ..held }), Self::done())
            } else {
                (self, Self::refusal())
            },
            RequestView::Attach { .. } => if self.has(name) && self.containers[name].running {
                (self, Self::done())
            } else {
                (self, Self::refusal())
            },
        }
    }

    /// The run of the routine for `name` and `spec` against this engine.
    pub open spec fn provision(self, name: Seq<char>, spec: ContainerSpecView) -> Run<EngineModel> {
        run(
            ProvisionerView::initial(name, spec),
            self,
            |engine: EngineModel, request: RequestView| engine.serve(request),
        )
    }
}

} // verus!
