use std::collections::HashMap;

use container_provision::config::{AttachOptions, ContainerSpec, HostOptions};
use container_provision::exchange::{Call, Reply, Request};
use container_provision::provision::{Provisioner, Step};
use container_provision::report::{Notice, Outcome};
use container_provision::state::{classify, ContainerState};

/// A container as the fake engine keeps it.
#[derive(Clone, Debug, PartialEq, Eq)]
struct Held {
    running: bool,
    image: String,
    cmd: Vec<String>,
    env: Vec<String>,
    tty: bool,
    open_stdin: bool,
    host: HostOptions,
}

/// An engine in memory that records every call and fails the calls it is
/// told to fail.
struct FakeEngine {
    containers: HashMap<String, Held>,
    failing: Vec<Call>,
    log: Vec<Call>,
}

fn refusal(call: Call) -> Reply {
    Reply::Failure { error: format!("{:?} refused", call) }
}

impl FakeEngine {
    fn empty() -> FakeEngine {
        FakeEngine { containers: HashMap::new(), failing: Vec::new(), log: Vec::new() }
    }

    fn holding(name: &str, running: bool) -> FakeEngine {
        let mut engine = FakeEngine::empty();
        engine.containers.insert(
            name.to_string(),
            Held {
                running,
                image: "old-image".to_string(),
                cmd: vec!["old".to_string()],
                env: Vec::new(),
                tty: false,
                open_stdin: false,
                host: HostOptions { auto_remove: false, publish_all_ports: false },
            },
        );
        engine
    }

    fn failing(mut self, call: Call) -> FakeEngine {
        self.failing.push(call);
        self
    }

    fn count(&self, call: Call) -> usize {
        self.log.iter().filter(|c| **c == call).count()
    }

    fn serve(&mut self, request: Request<'_>) -> Reply {
        let call = request.call();
        self.log.push(call);
        if self.failing.contains(&call) {
            return refusal(call);
        }
        let name = request.name().to_string();
        match request {
            Request::Inspect { .. } => match self.containers.get(&name) {
                Some(held) => Reply::Success { running: Some(held.running) },
                None => refusal(call),
            },
            Request::Stop { .. } => match self.containers.get(&name) {
                Some(held) if held.running => {
                    if held.host.auto_remove {
                        self.containers.remove(&name);
                    } else {
                        self.containers.get_mut(&name).unwrap().running = false;
                    }
                    Reply::Success { running: None }
                }
                _ => refusal(call),
            },
            Request::Remove { .. } => match self.containers.get(&name) {
                Some(held) if !held.running => {
                    self.containers.remove(&name);
                    Reply::Success { running: None }
                }
                _ => refusal(call),
            },
            Request::Create { spec, platform, .. } => {
                assert_eq!(platform, None);
                if self.containers.contains_key(&name) {
                    return refusal(call);
                }
                self.containers.insert(
                    name,
                    Held {
                        running: false,
                        image: spec.image().to_string(),
                        cmd: spec.cmd().clone(),
                        env: spec.env().clone(),
                        tty: spec.tty(),
                        open_stdin: spec.open_stdin(),
                        host: spec.host(),
                    },
                );
                Reply::Success { running: None }
            }
            Request::Start { .. } => match self.containers.get_mut(&name) {
                Some(held) if !held.running => {
                    held.running = true;
                    Reply::Success { running: None }
                }
                _ => refusal(call),
            },
            Request::Attach { options, .. } => {
                assert_eq!(
                    options,
                    AttachOptions { stdin: true, stdout: true, stream: true, logs: false }
                );
                match self.containers.get(&name) {
                    Some(held) if held.running => Reply::Success { running: None },
                    _ => refusal(call),
                }
            }
        }
    }
}

fn sample_spec() -> ContainerSpec {
    ContainerSpec::new(
        "my-python-app".to_string(),
        vec!["/bin/sh".to_string(), "-c".to_string(), "python3 hello_world.py".to_string()],
        vec!["MY_ENV_VAR=example".to_string()],
    )
}

fn sample_held() -> Held {
    Held {
        running: true,
        image: "my-python-app".to_string(),
        cmd: vec!["/bin/sh".to_string(), "-c".to_string(), "python3 hello_world.py".to_string()],
        env: vec!["MY_ENV_VAR=example".to_string()],
        tty: true,
        open_stdin: true,
        host: HostOptions { auto_remove: true, publish_all_ports: true },
    }
}

/// Runs the routine to its end against `engine`.
fn provision(engine: &mut FakeEngine, name: &str, spec: ContainerSpec) -> (Vec<Notice>, Outcome) {
    let mut routine = Provisioner::new(name.to_string(), spec);
    let mut notices = Vec::new();
    loop {
        let reply = engine.serve(routine.request());
        match routine.advance(reply) {
            Step::Continue { notice, next, .. } => {
                if let Some(n) = notice {
                    notices.push(n);
                }
                routine = next;
            }
            Step::Finished { outcome } => return (notices, outcome),
        }
    }
}

#[test]
fn absent_container_is_created_started_and_attached() {
    let mut engine = FakeEngine::empty();
    let (notices, outcome) = provision(&mut engine, "app-1", sample_spec());
    assert_eq!(outcome, Outcome::Attached);
    assert_eq!(engine.log, vec![Call::Inspect, Call::Create, Call::Start, Call::Attach]);
    assert_eq!(engine.count(Call::Create), 1);
    assert_eq!(engine.count(Call::Start), 1);
    assert_eq!(engine.count(Call::Attach), 1);
    assert_eq!(engine.count(Call::Stop), 0);
    assert_eq!(engine.count(Call::Remove), 0);
    assert_eq!(notices, vec![Notice::NoneFound, Notice::Created, Notice::Started]);
    assert_eq!(engine.containers.len(), 1);
    assert_eq!(engine.containers.get("app-1"), Some(&sample_held()));
}

#[test]
fn running_container_is_stopped_removed_and_made_anew() {
    let mut engine = FakeEngine::holding("app-1", true);
    let (notices, outcome) = provision(&mut engine, "app-1", sample_spec());
    assert_eq!(outcome, Outcome::Attached);
    assert_eq!(
        engine.log,
        vec![Call::Inspect, Call::Stop, Call::Remove, Call::Create, Call::Start, Call::Attach]
    );
    assert_eq!(
        notices,
        vec![Notice::Stopping, Notice::Removing, Notice::Created, Notice::Started]
    );
    assert_eq!(engine.containers.get("app-1"), Some(&sample_held()));
}

#[test]
fn stopped_container_is_removed_without_a_stop() {
    let mut engine = FakeEngine::holding("app-1", false);
    let (notices, outcome) = provision(&mut engine, "app-1", sample_spec());
    assert_eq!(outcome, Outcome::Attached);
    assert_eq!(
        engine.log,
        vec![Call::Inspect, Call::Remove, Call::Create, Call::Start, Call::Attach]
    );
    assert_eq!(engine.count(Call::Stop), 0);
    assert_eq!(notices, vec![Notice::Removing, Notice::Created, Notice::Started]);
    assert_eq!(engine.containers.get("app-1"), Some(&sample_held()));
}

#[test]
fn other_containers_are_left_alone() {
    let mut engine = FakeEngine::holding("other", true);
    let before = engine.containers.get("other").cloned();
    let (_, outcome) = provision(&mut engine, "app-1", sample_spec());
    assert_eq!(outcome, Outcome::Attached);
    assert_eq!(engine.log, vec![Call::Inspect, Call::Create, Call::Start, Call::Attach]);
    assert_eq!(engine.containers.len(), 2);
    assert_eq!(engine.containers.get("other").cloned(), before);
}

#[test]
fn provisioning_twice_gives_the_same_state() {
    let mut engine = FakeEngine::empty();
    let (_, first) = provision(&mut engine, "app-1", sample_spec());
    assert_eq!(first, Outcome::Attached);
    let after_first = engine.containers.clone();
    engine.log.clear();

    let (notices, second) = provision(&mut engine, "app-1", sample_spec());
    assert_eq!(second, Outcome::Attached);
    // The second run finds the container of the first one running. Stopping
    // it removes it, since it was made to be removed on exit, so the removal
    // that follows fails and is ignored.
    assert_eq!(
        engine.log,
        vec![Call::Inspect, Call::Stop, Call::Remove, Call::Create, Call::Start, Call::Attach]
    );
    assert_eq!(
        notices,
        vec![Notice::Stopping, Notice::Removing, Notice::Created, Notice::Started]
    );
    assert_eq!(engine.containers, after_first);
    assert_eq!(engine.containers.get("app-1"), Some(&sample_held()));
}

#[test]
fn second_run_uses_the_current_description() {
    let mut engine = FakeEngine::empty();
    provision(&mut engine, "app-1", sample_spec());
    let newer = ContainerSpec::new("newer-image".to_string(), vec!["sh".to_string()], Vec::new());
    let (_, outcome) = provision(&mut engine, "app-1", newer);
    assert_eq!(outcome, Outcome::Attached);
    let held = engine.containers.get("app-1").unwrap();
    assert_eq!(held.image, "newer-image");
    assert_eq!(held.cmd, vec!["sh".to_string()]);
    assert_eq!(held.env, Vec::<String>::new());
    assert!(held.running);
}

#[test]
fn failed_stop_is_ignored() {
    let mut engine = FakeEngine::holding("app-1", true).failing(Call::Stop);
    let (notices, outcome) = provision(&mut engine, "app-1", sample_spec());
    // The container still runs, so the removal fails too, and the creation
    // is refused: but it was asked for.
    assert_eq!(engine.log, vec![Call::Inspect, Call::Stop, Call::Remove, Call::Create]);
    assert_eq!(notices, vec![Notice::Stopping, Notice::Removing]);
    assert_eq!(
        outcome,
        Outcome::Failed { call: Call::Create, error: "Create refused".to_string() }
    );
}

#[test]
fn failed_remove_is_ignored() {
    let mut engine = FakeEngine::holding("app-1", false).failing(Call::Remove);
    let (_, outcome) = provision(&mut engine, "app-1", sample_spec());
    assert_eq!(engine.log, vec![Call::Inspect, Call::Remove, Call::Create]);
    assert_eq!(engine.count(Call::Create), 1);
    assert_eq!(
        outcome,
        Outcome::Failed { call: Call::Create, error: "Create refused".to_string() }
    );
}

#[test]
fn failed_stop_and_remove_still_lead_to_creation() {
    let mut routine = Provisioner::new("app-1".to_string(), sample_spec());
    let mut asked = Vec::new();
    let replies = vec![
        Reply::Success { running: Some(true) },
        Reply::Failure { error: "cannot stop".to_string() },
        Reply::Failure { error: "cannot remove".to_string() },
        Reply::Success { running: None },
        Reply::Success { running: None },
        Reply::Success { running: None },
    ];
    let mut outcome = None;
    for reply in replies {
        asked.push(routine.request().call());
        match routine.advance(reply) {
            Step::Continue { next, .. } => routine = next,
            Step::Finished { outcome: end } => {
                outcome = Some(end);
                break;
            }
        }
    }
    assert_eq!(
        asked,
        vec![Call::Inspect, Call::Stop, Call::Remove, Call::Create, Call::Start, Call::Attach]
    );
    assert_eq!(outcome, Some(Outcome::Attached));
}

#[test]
fn ignored_failures_are_handed_on() {
    let routine = Provisioner::new("app-1".to_string(), sample_spec());
    let routine = match routine.advance(Reply::Success { running: Some(true) }) {
        Step::Continue { notice, ignored, next } => {
            assert_eq!(notice, Some(Notice::Stopping));
            assert_eq!(ignored, None);
            next
        }
        Step::Finished { .. } => panic!("the routine ended after the inspection"),
    };
    let routine = match routine.advance(Reply::Failure { error: "cannot stop".to_string() }) {
        Step::Continue { notice, ignored, next } => {
            assert_eq!(notice, Some(Notice::Removing));
            assert_eq!(ignored, Some("cannot stop".to_string()));
            assert_eq!(next.pending(), Call::Remove);
            next
        }
        Step::Finished { .. } => panic!("the routine ended after the stop"),
    };
    match routine.advance(Reply::Failure { error: "cannot remove".to_string() }) {
        Step::Continue { notice, ignored, next } => {
            assert_eq!(notice, None);
            assert_eq!(ignored, Some("cannot remove".to_string()));
            assert_eq!(next.pending(), Call::Create);
        }
        Step::Finished { .. } => panic!("the routine ended after the removal"),
    }
}

#[test]
fn successful_cleanup_ignores_nothing() {
    let routine = Provisioner::new("app-1".to_string(), sample_spec());
    let routine = match routine.advance(Reply::Success { running: Some(false) }) {
        Step::Continue { next, .. } => next,
        Step::Finished { .. } => panic!("the routine ended after the inspection"),
    };
    assert_eq!(
        routine.clone().advance(Reply::Success { running: None }),
        Step::Continue {
            notice: None,
            ignored: None,
            next: match routine.advance(Reply::Failure { error: "gone".to_string() }) {
                Step::Continue { next, .. } => next,
                Step::Finished { .. } => panic!("the routine ended after the removal"),
            },
        }
    );
    assert_eq!(Reply::Success { running: Some(true) }.into_failure(), None);
    assert_eq!(
        Reply::Failure { error: "gone".to_string() }.into_failure(),
        Some("gone".to_string())
    );
}

#[test]
fn failed_create_aborts_before_start() {
    let mut engine = FakeEngine::empty().failing(Call::Create);
    let (notices, outcome) = provision(&mut engine, "app-1", sample_spec());
    assert_eq!(engine.log, vec![Call::Inspect, Call::Create]);
    assert_eq!(engine.count(Call::Start), 0);
    assert_eq!(engine.count(Call::Attach), 0);
    assert_eq!(notices, vec![Notice::NoneFound]);
    assert_eq!(
        outcome,
        Outcome::Failed { call: Call::Create, error: "Create refused".to_string() }
    );
    assert!(!outcome.is_attached());
}

#[test]
fn failed_start_aborts_before_attach() {
    let mut engine = FakeEngine::empty().failing(Call::Start);
    let (notices, outcome) = provision(&mut engine, "app-1", sample_spec());
    assert_eq!(engine.log, vec![Call::Inspect, Call::Create, Call::Start]);
    assert_eq!(engine.count(Call::Attach), 0);
    assert_eq!(notices, vec![Notice::NoneFound, Notice::Created]);
    assert_eq!(
        outcome,
        Outcome::Failed { call: Call::Start, error: "Start refused".to_string() }
    );
    // Nothing is rolled back: the container that was created stays.
    assert!(engine.containers.contains_key("app-1"));
}

#[test]
fn failed_attach_is_reported() {
    let mut engine = FakeEngine::empty().failing(Call::Attach);
    let (notices, outcome) = provision(&mut engine, "app-1", sample_spec());
    assert_eq!(engine.log, vec![Call::Inspect, Call::Create, Call::Start, Call::Attach]);
    assert_eq!(notices, vec![Notice::NoneFound, Notice::Created, Notice::Started]);
    assert_eq!(
        outcome,
        Outcome::Failed { call: Call::Attach, error: "Attach refused".to_string() }
    );
}

#[test]
fn failed_inspection_means_absent() {
    let mut engine = FakeEngine::holding("app-1", true).failing(Call::Inspect);
    let (notices, _) = provision(&mut engine, "app-1", sample_spec());
    assert_eq!(engine.log[0], Call::Inspect);
    assert_eq!(engine.log[1], Call::Create);
    assert_eq!(notices[0], Notice::NoneFound);
}

#[test]
fn missing_running_flag_counts_as_stopped() {
    let routine = Provisioner::new("app-1".to_string(), sample_spec());
    assert_eq!(routine.pending(), Call::Inspect);
    match routine.advance(Reply::Success { running: None }) {
        Step::Continue { notice, ignored, next } => {
            assert_eq!(notice, Some(Notice::Removing));
            assert_eq!(ignored, None);
            assert_eq!(next.pending(), Call::Remove);
            assert_eq!(next.request(), Request::Remove { name: "app-1" });
        }
        Step::Finished { .. } => panic!("the routine ended after the inspection"),
    }
}

#[test]
fn classify_tells_the_three_states_apart() {
    assert_eq!(
        classify(&Reply::Failure { error: "no such container".to_string() }),
        ContainerState::Absent
    );
    assert_eq!(classify(&Reply::Failure { error: String::new() }), ContainerState::Absent);
    assert_eq!(classify(&Reply::Success { running: Some(true) }), ContainerState::Running);
    assert_eq!(classify(&Reply::Success { running: Some(false) }), ContainerState::Stopped);
    assert_eq!(classify(&Reply::Success { running: None }), ContainerState::Stopped);
}

#[test]
fn requests_carry_name_description_and_options() {
    let spec = sample_spec();
    let mut routine = Provisioner::new("app-1".to_string(), spec.clone());
    assert_eq!(routine.name(), "app-1");
    assert_eq!(routine.spec(), &spec);
    assert_eq!(routine.request(), Request::Inspect { name: "app-1" });

    let replies = vec![
        Reply::Success { running: Some(true) },
        Reply::Success { running: None },
        Reply::Success { running: None },
        Reply::Success { running: None },
        Reply::Success { running: None },
    ];
    let expected = vec![
        Request::Stop { name: "app-1" },
        Request::Remove { name: "app-1" },
        Request::Create { name: "app-1", platform: None, spec: &spec },
        Request::Start { name: "app-1" },
        Request::Attach {
            name: "app-1",
            options: AttachOptions { stdin: true, stdout: true, stream: true, logs: false },
        },
    ];
    for (reply, request) in replies.into_iter().zip(expected) {
        match routine.advance(reply) {
            Step::Continue { next, .. } => routine = next,
            Step::Finished { .. } => panic!("the routine ended early"),
        }
        assert_eq!(routine.request(), request);
        assert_eq!(routine.request().call(), request.call());
        assert_eq!(routine.request().name(), "app-1");
    }
    assert_eq!(
        routine.advance(Reply::Success { running: None }),
        Step::Finished { outcome: Outcome::Attached }
    );
}

#[test]
fn description_is_interactive() {
    let spec = sample_spec();
    assert_eq!(spec.image(), "my-python-app");
    assert_eq!(
        spec.cmd(),
        &vec!["/bin/sh".to_string(), "-c".to_string(), "python3 hello_world.py".to_string()]
    );
    assert_eq!(spec.env(), &vec!["MY_ENV_VAR=example".to_string()]);
    assert!(spec.tty());
    assert!(spec.open_stdin());
    assert_eq!(spec.host(), HostOptions { auto_remove: true, publish_all_ports: true });
    assert_eq!(spec.clone(), spec);
    assert_ne!(
        spec,
        ContainerSpec::new("other".to_string(), Vec::new(), Vec::new())
    );
    assert_eq!(
        AttachOptions::interactive(),
        AttachOptions { stdin: true, stdout: true, stream: true, logs: false }
    );
}

#[test]
fn only_stop_and_remove_are_best_effort() {
    let all = [Call::Inspect, Call::Stop, Call::Remove, Call::Create, Call::Start, Call::Attach];
    let best_effort: Vec<bool> = all.iter().map(|c| c.is_best_effort()).collect();
    let required: Vec<bool> = all.iter().map(|c| c.is_required()).collect();
    assert_eq!(best_effort, vec![false, true, true, false, false, false]);
    assert_eq!(required, vec![false, false, false, true, true, true]);
}
