//! What holds of every run of the routine, whatever the engine answers.

use vstd::prelude::*;
use crate::config::ContainerSpecView;
use crate::exchange::{Call, ReplyView, RequestView};
use crate::model::{run, ContainerModel, EngineModel, Run};
use crate::provision::ProvisionerView;
use crate::report::OutcomeView;
use crate::state::ContainerState;

verus! {

/// The creation request of the routine for `name` and `spec`: under that
/// name, from that description, with the platform left to the engine.
pub open spec fn creation(name: Seq<char>, spec: ContainerSpecView) -> RequestView {
    RequestView::Create { name, platform: None, spec }
}

/// The calls of a run come in the fixed order inspect, stop, remove, create,
/// start, attach: the routine never goes back and never asks twice. The
/// first call is the inspection, and every request is about `name`.
pub proof fn law_calls_follow_the_order<W>(
    name: Seq<char>,
    spec: ContainerSpecView,
    world: W,
    serve: spec_fn(W, RequestView) -> (W, ReplyView),
)
    ensures
        ({
            let r = run(ProvisionerView::initial(name, spec), world, serve);
            &&& 1 <= r.exchanges.len() <= 6
            &&& r.exchanges[0].request == (RequestView::Inspect { name })
            &&& forall|i: int|
                0 <= i < r.exchanges.len() ==> (#[trigger] r.exchanges[i]).request.name() == name
            &&& forall|i: int, j: int|
                0 <= i < j < r.exchanges.len() ==> (#[trigger] r.exchanges[i]).request.call().position()
                    < (#[trigger] r.exchanges[j]).request.call().position()
        }),
{
    reveal_with_fuel(run, 7);
}

/// Where the inspection finds nothing, the routine goes straight to
/// creation: it asks for no stop and no removal.
pub proof fn law_absent_is_created_directly<W>(
    name: Seq<char>,
    spec: ContainerSpecView,
    world: W,
    serve: spec_fn(W, RequestView) -> (W, ReplyView),
)
    requires
        ContainerState::of(serve(world, RequestView::Inspect { name }).1) is Absent,
    ensures
        ({
            let r = run(ProvisionerView::initial(name, spec), world, serve);
            &&& r.exchanges.len() >= 2
            &&& r.exchanges[0].request == (RequestView::Inspect { name })
            &&& r.exchanges[1].request == creation(name, spec)
            &&& forall|i: int|
                0 <= i < r.exchanges.len() ==> {
                    let call = (#[trigger] r.exchanges[i]).request.call();
                    call != Call::Stop && call != Call::Remove
                }
        }),
{
    reveal_with_fuel(run, 7);
}

/// Where the inspection finds a running container, the routine asks for a
/// stop, then for a removal, then for the creation.
pub proof fn law_running_is_stopped_and_removed<W>(
    name: Seq<char>,
    spec: ContainerSpecView,
    world: W,
    serve: spec_fn(W, RequestView) -> (W, ReplyView),
)
    requires
        ContainerState::of(serve(world, RequestView::Inspect { name }).1) is Running,
    ensures
        ({
            let r = run(ProvisionerView::initial(name, spec), world, serve);
            &&& r.exchanges.len() >= 4
            &&& r.exchanges[0].request == (RequestView::Inspect { name })
            &&& r.exchanges[1].request == (RequestView::Stop { name })
            &&& r.exchanges[2].request == (RequestView::Remove { name })
            &&& r.exchanges[3].request == creation(name, spec)
        }),
{
    reveal_with_fuel(run, 7);
}

/// Where the inspection finds a container that is not running, the routine
/// asks for its removal, then for the creation, and never for a stop.
pub proof fn law_stopped_is_removed<W>(
    name: Seq<char>,
    spec: ContainerSpecView,
    world: W,
    serve: spec_fn(W, RequestView) -> (W, ReplyView),
)
    requires
        ContainerState::of(serve(world, RequestView::Inspect { name }).1) is Stopped,
    ensures
        ({
            let r = run(ProvisionerView::initial(name, spec), world, serve);
            &&& r.exchanges.len() >= 3
            &&& r.exchanges[0].request == (RequestView::Inspect { name })
            &&& r.exchanges[1].request == (RequestView::Remove { name })
            &&& r.exchanges[2].request == creation(name, spec)
            &&& forall|i: int|
                0 <= i < r.exchanges.len() ==> (#[trigger] r.exchanges[i]).request.call()
                    != Call::Stop
        }),
{
    reveal_with_fuel(run, 7);
}

/// Clearing the name is best effort: whatever the engine answers to the
/// inspection, the stop and the removal, a failure included, the routine
/// asks for the creation, and what it asked before was the inspection and
/// the calls that clear the state it found.
pub proof fn law_creation_follows_teardown<W>(
    name: Seq<char>,
    spec: ContainerSpecView,
    world: W,
    serve: spec_fn(W, RequestView) -> (W, ReplyView),
)
    ensures
        ({
            let r = run(ProvisionerView::initial(name, spec), world, serve);
            let found = ContainerState::of(r.exchanges[0].reply);
            let at = found.teardown().len() as int + 1;
            &&& r.exchanges[0].reply == serve(world, RequestView::Inspect { name }).1
            &&& at < r.exchanges.len()
            &&& r.exchanges[at].request == creation(name, spec)
            &&& r.calls().subrange(0, at + 1) == seq![Call::Inspect] + found.teardown() + seq![
                Call::Create,
            ]
        }),
{
    reveal_with_fuel(run, 7);
    let r = run(ProvisionerView::initial(name, spec), world, serve);
    let found = ContainerState::of(r.exchanges[0].reply);
    let at = found.teardown().len() as int + 1;
    assert(r.calls().subrange(0, at + 1) =~= seq![Call::Inspect] + found.teardown() + seq![
        Call::Create,
    ]);
}

/// A failed stop or removal changes nothing: the request after it is the
/// one that would follow a success.
pub proof fn law_failed_cleanup_is_ignored<W>(
    name: Seq<char>,
    spec: ContainerSpecView,
    world: W,
    serve: spec_fn(W, RequestView) -> (W, ReplyView),
    i: int,
)
    requires
        0 <= i < run(ProvisionerView::initial(name, spec), world, serve).exchanges.len(),
        run(ProvisionerView::initial(name, spec), world, serve).exchanges[i].request.call().is_best_effort(),
        run(ProvisionerView::initial(name, spec), world, serve).exchanges[i].reply is Failure,
    ensures
        ({
            let r = run(ProvisionerView::initial(name, spec), world, serve);
            &&& i + 1 < r.exchanges.len()
            &&& r.exchanges[i].request.call() is Stop ==> r.exchanges[i + 1].request
                == (RequestView::Remove { name })
            &&& r.exchanges[i].request.call() is Remove ==> r.exchanges[i + 1].request
                == creation(name, spec)
            &&& exists|j: int|
                i < j < r.exchanges.len() && (#[trigger] r.exchanges[j]).request == creation(
                    name,
                    spec,
                )
        }),
{
    reveal_with_fuel(run, 7);
    let r = run(ProvisionerView::initial(name, spec), world, serve);
    if r.exchanges[i].request.call() is Stop {
        assert(r.exchanges[i + 2].request == creation(name, spec));
    } else {
        assert(r.exchanges[i + 1].request == creation(name, spec));
    }
}

/// A failure of create, start or attach ends the run at once, with that
/// failure and the engine's message as the outcome: no request follows.
pub proof fn law_required_failure_ends_the_run<W>(
    name: Seq<char>,
    spec: ContainerSpecView,
    world: W,
    serve: spec_fn(W, RequestView) -> (W, ReplyView),
    i: int,
)
    requires
        0 <= i < run(ProvisionerView::initial(name, spec), world, serve).exchanges.len(),
        run(ProvisionerView::initial(name, spec), world, serve).exchanges[i].request.call().is_required(),
        run(ProvisionerView::initial(name, spec), world, serve).exchanges[i].reply is Failure,
    ensures
        ({
            let r = run(ProvisionerView::initial(name, spec), world, serve);
            &&& i == r.exchanges.len() - 1
            &&& r.outcome == (OutcomeView::Failed {
                call: r.exchanges[i].request.call(),
                error: r.exchanges[i].reply->error,
            })
        }),
{
    reveal_with_fuel(run, 7);
}

/// Where the creation fails, the routine asks for no start and no
/// attachment, and ends with the failure of the creation.
pub proof fn law_failed_creation_aborts<W>(
    name: Seq<char>,
    spec: ContainerSpecView,
    world: W,
    serve: spec_fn(W, RequestView) -> (W, ReplyView),
    i: int,
)
    requires
        0 <= i < run(ProvisionerView::initial(name, spec), world, serve).exchanges.len(),
        run(ProvisionerView::initial(name, spec), world, serve).exchanges[i].request.call() is Create,
        run(ProvisionerView::initial(name, spec), world, serve).exchanges[i].reply is Failure,
    ensures
        ({
            let r = run(ProvisionerView::initial(name, spec), world, serve);
            &&& r.outcome == (OutcomeView::Failed {
                call: Call::Create,
                error: r.exchanges[i].reply->error,
            })
            &&& forall|j: int|
                0 <= j < r.exchanges.len() ==> {
                    let call = (#[trigger] r.exchanges[j]).request.call();
                    call != Call::Start && call != Call::Attach
                }
        }),
{
    reveal_with_fuel(run, 7);
}

/// Where the start fails, the creation before it succeeded, the routine
/// asks for no attachment, and ends with the failure of the start.
pub proof fn law_failed_start_aborts<W>(
    name: Seq<char>,
    spec: ContainerSpecView,
    world: W,
    serve: spec_fn(W, RequestView) -> (W, ReplyView),
    i: int,
)
    requires
        0 <= i < run(ProvisionerView::initial(name, spec), world, serve).exchanges.len(),
        run(ProvisionerView::initial(name, spec), world, serve).exchanges[i].request.call() is Start,
        run(ProvisionerView::initial(name, spec), world, serve).exchanges[i].reply is Failure,
    ensures
        ({
            let r = run(ProvisionerView::initial(name, spec), world, serve);
            &&& i >= 1
            &&& r.exchanges[i - 1].request == creation(name, spec)
            &&& r.exchanges[i - 1].reply is Success
            &&& r.outcome == (OutcomeView::Failed {
                call: Call::Start,
                error: r.exchanges[i].reply->error,
            })
            &&& forall|j: int|
                0 <= j < r.exchanges.len() ==> (#[trigger] r.exchanges[j]).request.call()
                    != Call::Attach
        }),
{
    reveal_with_fuel(run, 7);
}

/// The routine reaches its goal exactly when its last three exchanges are a
/// creation, a start and an attachment that all succeeded.
pub proof fn law_attached_means_all_three_succeeded<W>(
    name: Seq<char>,
    spec: ContainerSpecView,
    world: W,
    serve: spec_fn(W, RequestView) -> (W, ReplyView),
)
    ensures
        ({
            let r = run(ProvisionerView::initial(name, spec), world, serve);
            let n = r.exchanges.len() as int;
            r.outcome is Attached <==> {
                &&& n >= 4
                &&& r.exchanges[n - 3].request == creation(name, spec)
                &&& r.exchanges[n - 3].reply is Success
                &&& r.exchanges[n - 2].request == (RequestView::Start { name })
                &&& r.exchanges[n - 2].reply is Success
                &&& r.exchanges[n - 1].request.call() is Attach
                &&& r.exchanges[n - 1].reply is Success
            }
        }),
{
    reveal_with_fuel(run, 7);
}

/// On the model engine the routine always reaches its goal, whatever the
/// engine held before: afterwards the name is carried by a running container
/// made from the given description, and no other container has changed.
pub proof fn law_model_run_leaves_fresh_running_container(
    engine: EngineModel,
    name: Seq<char>,
    spec: ContainerSpecView,
)
    ensures
        ({
            let r = engine.provision(name, spec);
            &&& r.outcome is Attached
            &&& r.end() == engine.with(name, ContainerModel { running: true, spec })
            &&& r.calls() == seq![Call::Inspect] + ContainerState::of(
                r.exchanges[0].reply,
            ).teardown() + seq![Call::Create, Call::Start, Call::Attach]
            &&& forall|i: int|
                0 <= i < r.exchanges.len() && (#[trigger] r.exchanges[i]).request.call().is_required()
                    ==> r.exchanges[i].reply is Success
        }),
{
    reveal_with_fuel(run, 7);
    let r = engine.provision(name, spec);
    assert(r.end() =~= engine.with(name, ContainerModel { running: true, spec }));
    assert(r.calls() =~= seq![Call::Inspect] + ContainerState::of(
        r.exchanges[0].reply,
    ).teardown() + seq![Call::Create, Call::Start, Call::Attach]);
}

/// Where the model engine holds a running container under the name, the
/// routine finds it, stops and removes it, and makes it anew from the given
/// description: all six calls, once each, in order.
pub proof fn law_model_run_replaces_running_container(
    engine: EngineModel,
    name: Seq<char>,
    spec: ContainerSpecView,
)
    requires
        engine.has(name),
        engine.containers[name].running,
    ensures
        ({
            let r = engine.provision(name, spec);
            &&& r.exchanges[0].reply == (ReplyView::Success { running: Some(true) })
            &&& r.calls() == seq![
                Call::Inspect,
                Call::Stop,
                Call::Remove,
                Call::Create,
                Call::Start,
                Call::Attach,
            ]
            &&& !r.exchanges[2].after.has(name)
            &&& r.exchanges[3].request == creation(name, spec)
            &&& r.exchanges[3].reply is Success
            &&& r.outcome is Attached
            &&& r.end() == engine.with(name, ContainerModel { running: true, spec })
        }),
{
    reveal_with_fuel(run, 7);
    let r = engine.provision(name, spec);
    assert(r.calls() =~= seq![
        Call::Inspect,
        Call::Stop,
        Call::Remove,
        Call::Create,
        Call::Start,
        Call::Attach,
    ]);
    assert(r.end() =~= engine.with(name, ContainerModel { running: true, spec }));
}

/// Running the routine twice in a row on the model engine is safe. The
/// second run finds the container that the first one made, running, stops
/// and removes it, and makes it anew. The engine ends up holding a running
/// container made from the second description, and exactly as the first run
/// left it where the two descriptions are the same.
pub proof fn law_provisioning_twice_is_idempotent(
    engine: EngineModel,
    name: Seq<char>,
    first: ContainerSpecView,
    second: ContainerSpecView,
)
    ensures
        ({
            let once = engine.provision(name, first);
            let twice = once.end().provision(name, second);
            &&& once.outcome is Attached
            &&& once.end() == engine.with(name, ContainerModel { running: true, spec: first })
            &&& twice.exchanges[0].reply == (ReplyView::Success { running: Some(true) })
            &&& twice.calls() == seq![
                Call::Inspect,
                Call::Stop,
                Call::Remove,
                Call::Create,
                Call::Start,
                Call::Attach,
            ]
            &&& !twice.exchanges[2].after.has(name)
            &&& twice.exchanges[3].request == creation(name, second)
            &&& twice.exchanges[3].reply is Success
            &&& twice.outcome is Attached
            &&& twice.end() == engine.with(name, ContainerModel { running: true, spec: second })
            &&& first == second ==> twice.end() == once.end()
        }),
{
    law_model_run_leaves_fresh_running_container(engine, name, first);
    let once = engine.provision(name, first);
    law_model_run_replaces_running_container(once.end(), name, second);
    let twice = once.end().provision(name, second);
    assert(twice.end() =~= engine.with(name, ContainerModel { running: true, spec: second }));
}

} // verus!
