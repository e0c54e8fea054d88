//! What an inspection says about the container that carries a given name.

use vstd::prelude::*;
use crate::exchange::{Call, Reply, ReplyView};

verus! {

/// The three situations a name can be in on the engine.
#[derive(Clone, Copy, Debug, PartialEq, Eq, Structural)]
pub enum ContainerState {
    /// No container carries the name.
    Absent,
    /// A container carries the name and is not running.
    Stopped,
    /// A container carries the name and is running.
    Running,
}

impl ContainerState {
    /// The state that the answer to an inspection stands for. A failed
    /// inspection means that there is no such container. A container whose
    /// running flag is not reported counts as stopped.
    pub open spec fn of(reply: ReplyView) -> ContainerState {
        match reply {
            ReplyView::Failure { .. } => ContainerState::Absent,
            ReplyView::Success { running } => if running == Some(true) {
                ContainerState::Running
            } else {
                ContainerState::Stopped
            },
        }
    }

    /// The calls that clear the name, in order: none where nothing carries
    /// it, a removal where a stopped container does, a stop and a removal
    /// where a running one does.
    pub open spec fn teardown(self) -> Seq<Call> {
        match self {
            ContainerState::Absent => seq![],
            ContainerState::Stopped => seq![Call::Remove],
            ContainerState::Running => seq![Call::Stop, Call::Remove],
        }
    }
}

/// Classifies the answer to an inspection.
pub fn classify(reply: &Reply) -> (state: ContainerState)
    ensures
        state == ContainerState::of(reply@),
{
    match reply {
        Reply::Failure { .. } => ContainerState::Absent,
        Reply::Success { running: Some(true) } => ContainerState::Running,
        Reply::Success { .. } => ContainerState::Stopped,
    }
}

} // verus!
