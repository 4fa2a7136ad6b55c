use std::sync::Arc;

use realm_control::startup::{Features, ReloadCtx};
use realm_control::supervisor::{
    supervise, Flavor, Phase, RuntimePlan, Supervisor, SupervisorAction, SupervisorEvent,
};
use realm_control::workers::{EndpointInfo, Protocol, ServeEnd, Worker};

type Sup = Supervisor<&'static str, &'static str, u8>;
type Event = SupervisorEvent<&'static str, &'static str, &'static str>;
type Act = SupervisorAction<&'static str, &'static str, u8, &'static str>;

const FEATURES: Features = Features { multi_thread: true, transport: false, unix: true };

fn ctx() -> ReloadCtx<u8> {
    ReloadCtx { path: String::from("realm.toml"), opts: 3 }
}

fn info(endpoint: &'static str) -> EndpointInfo<&'static str> {
    EndpointInfo { endpoint, no_tcp: false, use_udp: false }
}

fn built(endpoint: &'static str) -> Event {
    SupervisorEvent::Built { info: info(endpoint), shown: format!("<{}>", endpoint) }
}

fn announce(line: &str) -> Act {
    SupervisorAction::Announce(String::from(line))
}

fn runtime(flavor: Flavor) -> Act {
    SupervisorAction::StartRuntime(RuntimePlan { flavor, io: true, time: true })
}

fn serve(endpoints: &[&'static str], watch_hangup: bool) -> Act {
    SupervisorAction::Serve {
        endpoints: endpoints.iter().map(|e| info(e)).collect(),
        workers: (0..endpoints.len())
            .map(|endpoint| Worker { endpoint, protocol: Protocol::Tcp })
            .collect(),
        watch_hangup,
    }
}

/// What brings one endpoint into service.
fn round(endpoint: &'static str) -> Vec<Event> {
    vec![built(endpoint), SupervisorEvent::Announced, SupervisorEvent::RuntimeReady]
}

/// A hang-up that leads to another configuration.
fn hangup(conf: &'static str) -> Vec<Event> {
    vec![
        SupervisorEvent::Served(ServeEnd::HangUp),
        SupervisorEvent::TornDown,
        SupervisorEvent::Announced,
        SupervisorEvent::Reloaded(vec![conf]),
    ]
}

fn play(supervisor: Sup, events: Vec<Event>) -> (Sup, Vec<Act>) {
    let mut supervisor = supervisor;
    let mut actions = Vec::new();
    for event in events {
        assert!(supervisor.ready_for(&event));
        let (next, action) = supervise(supervisor, event);
        supervisor = next;
        actions.push(action);
    }
    (supervisor, actions)
}

#[test]
fn hangup_replaces_the_endpoints() {
    let mut events = vec![SupervisorEvent::Start(vec!["conf a"])];
    events.extend(round("a"));
    events.extend(hangup("conf b"));
    events.extend(round("b"));
    let (supervisor, actions) = play(Supervisor::new(FEATURES, Some(ctx())), events);
    assert_eq!(
        actions,
        vec![
            SupervisorAction::Build("conf a"),
            announce("inited: <a>"),
            runtime(Flavor::MultiThread),
            serve(&["a"], true),
            SupervisorAction::TearDown { timeout_ms: 0 },
            announce("reload: realm.toml"),
            SupervisorAction::Reload(Arc::new(ctx())),
            SupervisorAction::Build("conf b"),
            announce("inited: <b>"),
            runtime(Flavor::MultiThread),
            serve(&["b"], true),
        ]
    );
    assert_eq!(supervisor.phase, Phase::Serving);
}

#[test]
fn endpoints_are_announced_one_by_one_before_they_are_served() {
    let (_, actions) = play(
        Supervisor::new(FEATURES, None),
        vec![
            SupervisorEvent::Start(vec!["conf a", "conf b", "conf c"]),
            built("a"),
            SupervisorEvent::Announced,
            built("b"),
            SupervisorEvent::Announced,
            built("c"),
            SupervisorEvent::Announced,
            SupervisorEvent::RuntimeReady,
        ],
    );
    assert_eq!(
        actions,
        vec![
            SupervisorAction::Build("conf a"),
            announce("inited: <a>"),
            SupervisorAction::Build("conf b"),
            announce("inited: <b>"),
            SupervisorAction::Build("conf c"),
            announce("inited: <c>"),
            runtime(Flavor::MultiThread),
            serve(&["a", "b", "c"], false),
        ]
    );
}

#[test]
fn no_endpoint_is_served_as_well() {
    let (_, actions) = play(
        Supervisor::new(FEATURES, Some(ctx())),
        vec![SupervisorEvent::Start(vec![]), SupervisorEvent::RuntimeReady],
    );
    assert_eq!(actions, vec![runtime(Flavor::MultiThread), serve(&[], true)]);
}

#[test]
fn finished_workers_end_the_process() {
    let mut events = vec![SupervisorEvent::Start(vec!["conf a"])];
    events.extend(round("a"));
    events.push(SupervisorEvent::Served(ServeEnd::WorkersDone));
    events.push(SupervisorEvent::TornDown);
    let (supervisor, actions) = play(Supervisor::new(FEATURES, Some(ctx())), events);
    assert_eq!(supervisor.phase, Phase::Stopped);
    assert_eq!(actions[4..], [SupervisorAction::TearDown { timeout_ms: 0 }, SupervisorAction::Stop]);
}

#[test]
fn without_a_runtime_nothing_is_served() {
    let (supervisor, actions) = play(
        Supervisor::new(FEATURES, Some(ctx())),
        vec![
            SupervisorEvent::Start(vec!["conf a"]),
            built("a"),
            SupervisorEvent::Announced,
            SupervisorEvent::RuntimeFailed("no threads"),
        ],
    );
    assert_eq!(
        actions,
        vec![
            SupervisorAction::Build("conf a"),
            announce("inited: <a>"),
            runtime(Flavor::MultiThread),
            SupervisorAction::Abort("no threads"),
        ]
    );
    assert_eq!(supervisor.phase, Phase::Stopped);
    let ready: Event = SupervisorEvent::RuntimeReady;
    assert!(!supervisor.ready_for(&ready));
}

#[test]
fn without_a_file_there_is_no_hangup_to_watch_for() {
    let features = Features { multi_thread: false, ..FEATURES };
    let mut events = vec![SupervisorEvent::Start(vec!["conf a"])];
    events.extend(round("a"));
    let (_, actions) = play(Supervisor::new(features, None), events);
    assert_eq!(actions[2..], [runtime(Flavor::CurrentThread), serve(&["a"], false)]);
}

#[test]
fn without_the_signal_there_is_no_hangup_to_watch_for() {
    let features = Features { unix: false, ..FEATURES };
    let mut events = vec![SupervisorEvent::Start(vec!["conf a"])];
    events.extend(round("a"));
    let (_, actions) = play(Supervisor::new(features, Some(ctx())), events);
    assert_eq!(actions[3], serve(&["a"], false));
}

#[test]
fn a_storm_of_hangups_leaves_the_last_endpoints_served() {
    let mut events = vec![SupervisorEvent::Start(vec!["conf"])];
    events.extend(round("a"));
    for i in 0..40 {
        events.extend(hangup("conf"));
        events.extend(round(if i % 2 == 0 { "b" } else { "a" }));
    }
    let (supervisor, actions) = play(Supervisor::new(FEATURES, Some(ctx())), events);
    let count = |action: Act| actions.iter().filter(|a| **a == action).count();
    assert_eq!(supervisor.phase, Phase::Serving);
    assert_eq!(actions.last(), Some(&serve(&["a"], true)));
    assert_eq!(count(SupervisorAction::Stop), 0);
    assert_eq!(count(SupervisorAction::Reload(Arc::new(ctx()))), 40);
    assert_eq!(count(announce("reload: realm.toml")), 40);
    assert_eq!(count(announce("inited: <a>")), 21);
    assert_eq!(count(announce("inited: <b>")), 20);
    assert_eq!(count(runtime(Flavor::MultiThread)), 41);
    assert_eq!(count(SupervisorAction::TearDown { timeout_ms: 0 }), 40);
}

#[test]
fn a_hangup_counts_only_where_it_is_watched_for() {
    let hangup: Event = SupervisorEvent::Served(ServeEnd::HangUp);
    let serving = |features, reload| {
        let mut events = vec![SupervisorEvent::Start(vec!["conf"])];
        events.extend(round("a"));
        play(Supervisor::new(features, reload), events).0
    };
    assert!(serving(FEATURES, Some(ctx())).ready_for(&hangup));
    assert!(!serving(FEATURES, None).ready_for(&hangup));
    assert!(!serving(Features { unix: false, ..FEATURES }, Some(ctx())).ready_for(&hangup));
}

#[test]
fn a_hangup_that_cannot_be_watched_for_ends_the_process() {
    let mut events = vec![SupervisorEvent::Start(vec!["conf a"])];
    events.extend(round("a"));
    events.push(SupervisorEvent::HangupFailed("denied"));
    let (supervisor, actions) = play(Supervisor::new(FEATURES, Some(ctx())), events);
    assert_eq!(actions[3..], [serve(&["a"], true), SupervisorAction::AbortServing("denied")]);
    assert_eq!(supervisor.phase, Phase::Stopped);
    assert_eq!(actions[3].panic_text("denied"), None);
    assert_eq!(
        actions[4].panic_text("denied"),
        Some(String::from("failed to install SIGHUP handler: denied"))
    );
    let torn_down: Event = SupervisorEvent::TornDown;
    assert!(!supervisor.ready_for(&torn_down));
}

#[test]
fn watching_can_fail_only_where_it_is_asked_for() {
    let failed: Event = SupervisorEvent::HangupFailed("denied");
    let serving = |features, reload| {
        let mut events = vec![SupervisorEvent::Start(vec!["conf"])];
        events.extend(round("a"));
        play(Supervisor::new(features, reload), events).0
    };
    assert!(serving(FEATURES, Some(ctx())).ready_for(&failed));
    assert!(!serving(FEATURES, None).ready_for(&failed));
    assert!(!serving(Features { unix: false, ..FEATURES }, Some(ctx())).ready_for(&failed));
    assert!(!Sup::new(FEATURES, Some(ctx())).ready_for(&failed));
}
