use std::sync::Arc;

use realm_control::endpoint::{Endpoint, TcpHandles};
use realm_control::report::{Record, Severity};
use realm_control::retry::{ErrorKind, Failure};
use realm_control::tcp::{run_tcp, TcpAction, TcpEvent, TcpListen, TcpState};

type State = TcpState<&'static str, &'static str, &'static str, &'static str, u32, u8>;
type Event = TcpEvent<u32, u8, &'static str>;
type Act = TcpAction<&'static str, &'static str, &'static str, &'static str, u32, u8, &'static str>;

fn relay() -> State {
    TcpState::new(Endpoint {
        laddr: "0.0.0.0:1000",
        raddr: "example.org:80",
        bind_opts: "bind",
        conn_opts: "conn",
        extra_raddrs: vec!["example.net:80"],
    })
}

fn handles() -> TcpHandles<&'static str, &'static str> {
    TcpHandles {
        raddr: Arc::new("example.org:80"),
        conn_opts: Arc::new("conn"),
        extra_raddrs: Arc::new(vec!["example.net:80"]),
    }
}

fn play(state: State, events: Vec<Event>) -> (State, Vec<Act>) {
    let mut state = state;
    let mut actions = Vec::new();
    for event in events {
        assert!(state.ready_for(&event));
        let (next, action) = run_tcp(state, event);
        state = next;
        actions.push(action);
    }
    (state, actions)
}

fn listening(keepalive: Option<u32>) -> State {
    play(
        relay(),
        vec![
            TcpEvent::Start,
            TcpEvent::BindResult(Ok(())),
            TcpEvent::KeepaliveBuilt(keepalive.map(Arc::new)),
        ],
    )
    .0
}

fn bind() -> Act {
    TcpAction::Bind { laddr: Arc::new("0.0.0.0:1000"), bind_opts: Arc::new("bind") }
}

fn record(severity: Severity, message: &str) -> Option<Record> {
    Some(Record { severity, message: String::from(message) })
}

fn taken(error: &'static str) -> Event {
    TcpEvent::BindResult(Err(Failure { kind: ErrorKind::AddrInUse, error }))
}

#[test]
fn it_binds_works_out_the_keepalive_and_accepts() {
    let (state, actions) = play(
        relay(),
        vec![
            TcpEvent::Start,
            TcpEvent::BindResult(Ok(())),
            TcpEvent::KeepaliveBuilt(None),
        ],
    );
    assert_eq!(
        actions,
        vec![
            bind(),
            TcpAction::BuildKeepalive { conn_opts: Arc::new("conn") },
            TcpAction::Accept { aborted: None },
        ]
    );
    assert_eq!(state, listening(None));
}

#[test]
fn it_waits_longer_each_time_for_a_taken_address() {
    let (state, actions) = play(
        relay(),
        vec![
            TcpEvent::Start,
            taken("1"),
            TcpEvent::Slept,
            taken("2"),
            TcpEvent::Slept,
            TcpEvent::BindResult(Ok(())),
        ],
    );
    assert_eq!(
        actions,
        vec![
            bind(),
            TcpAction::Sleep { attempts: 1, error: "1", delay_ms: 100 },
            bind(),
            TcpAction::Sleep { attempts: 2, error: "2", delay_ms: 200 },
            bind(),
            TcpAction::BuildKeepalive { conn_opts: Arc::new("conn") },
        ]
    );
    assert_eq!(state, TcpState::Bound(handles()));
    assert_eq!(actions[0].record("0.0.0.0:1000", ""), None);
    assert_eq!(actions[0].delay_text(), None);
    assert_eq!(actions[3].error(), Some(&"2"));
    assert_eq!(actions[3].delay_text(), Some(String::from("200ms")));
    assert_eq!(
        actions[3].record("0.0.0.0:1000", "in use"),
        record(
            Severity::Warn,
            "[tcp]failed to bind 0.0.0.0:1000 (attempt 2/5): in use, retry in 200ms"
        )
    );
}

#[test]
fn it_gives_up_after_the_fifth_attempt() {
    let (state, actions) = play(
        relay(),
        vec![
            TcpEvent::Start,
            taken("1"),
            TcpEvent::Slept,
            taken("2"),
            TcpEvent::Slept,
            taken("3"),
            TcpEvent::Slept,
            taken("4"),
            TcpEvent::Slept,
            taken("5"),
        ],
    );
    assert_eq!(state, TcpState::Finished);
    assert_eq!(actions.last(), Some(&TcpAction::GiveUp { attempts: 5, error: "5" }));
    assert_eq!(actions.iter().filter(|a| **a == bind()).count(), 5);
    let mut delays = Vec::new();
    for action in &actions {
        if let TcpAction::Sleep { delay_ms, .. } = action {
            let shown = format!("{:?}", std::time::Duration::from_millis(*delay_ms));
            assert_eq!(action.delay_text(), Some(shown));
            delays.push(*delay_ms);
        }
    }
    assert_eq!(delays, vec![100, 200, 300, 400]);
    assert_eq!(
        actions.last().unwrap().record("0.0.0.0:1000", "in use"),
        record(Severity::Error, "[tcp]failed to bind 0.0.0.0:1000 after 5 attempt(s): in use")
    );
}

#[test]
fn it_does_not_retry_another_failure_to_bind() {
    let (state, actions) = play(
        relay(),
        vec![
            TcpEvent::Start,
            TcpEvent::BindResult(Err(Failure { kind: ErrorKind::Other, error: "denied" })),
        ],
    );
    assert_eq!(state, TcpState::Finished);
    assert_eq!(actions, vec![bind(), TcpAction::GiveUp { attempts: 1, error: "denied" }]);
}

#[test]
fn it_relays_a_connection_with_its_keepalive() {
    let (state, actions) = play(
        listening(Some(60)),
        vec![
            TcpEvent::AcceptResult(Ok(1)),
            TcpEvent::NodelaySet { ok: true },
            TcpEvent::KeepaliveSet(Ok(())),
            TcpEvent::Spawned,
        ],
    );
    assert_eq!(
        actions,
        vec![
            TcpAction::SetNodelay,
            TcpAction::SetKeepalive { keepalive: Arc::new(60) },
            TcpAction::Spawn { conn: 1, handles: handles() },
            TcpAction::Accept { aborted: None },
        ]
    );
    assert_eq!(state, listening(Some(60)));
}

#[test]
fn it_relays_a_connection_whose_delay_cannot_be_switched_off() {
    let (state, actions) = play(
        listening(None),
        vec![
            TcpEvent::AcceptResult(Ok(2)),
            TcpEvent::NodelaySet { ok: false },
            TcpEvent::Spawned,
        ],
    );
    assert_eq!(
        actions,
        vec![
            TcpAction::SetNodelay,
            TcpAction::Spawn { conn: 2, handles: handles() },
            TcpAction::Accept { aborted: None },
        ]
    );
    assert_eq!(state, listening(None));
}

#[test]
fn it_ends_with_the_error_of_a_keepalive() {
    let (state, actions) = play(
        listening(Some(60)),
        vec![
            TcpEvent::AcceptResult(Ok(3)),
            TcpEvent::NodelaySet { ok: true },
            TcpEvent::KeepaliveSet(Err("no such option")),
        ],
    );
    assert_eq!(state, TcpState::Finished);
    assert_eq!(actions.last(), Some(&TcpAction::Fail { error: "no such option" }));
}

#[test]
fn it_passes_over_aborted_connections() {
    let (state, actions) = play(listening(None), vec![aborted("aborted"), aborted("aborted")]);
    assert_eq!(state, listening(None));
    assert_eq!(actions.len(), 2);
    for action in actions {
        assert_eq!(action, TcpAction::Accept { aborted: Some("aborted") });
        assert_eq!(
            action.record("", "aborted"),
            record(Severity::Warn, "[tcp]failed to accept: aborted")
        );
    }
}

#[test]
fn it_ends_without_an_error_when_accepting_fails() {
    for kind in [ErrorKind::Other, ErrorKind::AddrInUse] {
        let (state, actions) = play(
            listening(None),
            vec![TcpEvent::AcceptResult(Err(Failure { kind, error: "too many files" }))],
        );
        assert_eq!(state, TcpState::Finished);
        assert_eq!(actions, vec![TcpAction::Stop { error: "too many files" }]);
        assert_eq!(
            actions[0].record("", "too many files"),
            record(Severity::Error, "[tcp]failed to accept: too many files")
        );
    }
}

#[test]
fn a_connection_keeps_its_values_when_the_relay_is_gone() {
    let (state, action) = run_tcp(
        TcpState::Undelaying {
            listen: TcpListen { handles: handles(), keepalive: None },
            conn: 4,
        },
        TcpEvent::NodelaySet { ok: true },
    );
    let _: &State = &state;
    let kept = match action {
        TcpAction::Spawn { handles, .. } => handles,
        other => {
            let _: &Act = &other;
            panic!("not relayed")
        }
    };
    assert_eq!(Arc::strong_count(&kept.raddr), 2);
    drop(state);
    assert_eq!(Arc::strong_count(&kept.raddr), 1);
    assert_eq!(kept, handles());
}

#[test]
fn it_takes_events_only_in_turn() {
    let slept: Event = TcpEvent::Slept;
    assert!(!relay().ready_for(&slept));
    let start: Event = TcpEvent::Start;
    assert!(relay().ready_for(&start));
    assert!(!listening(None).ready_for(&start));
    assert!(!State::Finished.ready_for(&start));
}

#[test]
fn the_accepted_connection_stays_at_hand_until_it_is_relayed() {
    let mut state = listening(Some(60));
    let mut at_hand = Vec::new();
    let mut relayed = Vec::new();
    let events: Vec<Event> = vec![
        TcpEvent::AcceptResult(Ok(9)),
        TcpEvent::NodelaySet { ok: true },
        TcpEvent::KeepaliveSet(Ok(())),
    ];
    for event in events {
        let (next, action) = run_tcp(state, event);
        state = next;
        at_hand.push(state.conn().copied());
        if let TcpAction::Spawn { conn, .. } = action {
            relayed.push(conn);
        }
    }
    assert_eq!(at_hand, vec![Some(9), Some(9), None]);
    assert_eq!(relayed, vec![9]);
}

fn aborted(error: &'static str) -> Event {
    TcpEvent::AcceptResult(Err(Failure { kind: ErrorKind::ConnectionAborted, error }))
}

fn relayed(actions: &[Act]) -> Vec<u8> {
    actions
        .iter()
        .filter_map(|a| match a {
            TcpAction::Spawn { conn, .. } => Some(*conn),
            _ => None,
        })
        .collect()
}

#[test]
fn connections_are_relayed_in_the_order_they_came() {
    let mut events = Vec::new();
    for conn in [3, 1, 2] {
        events.push(TcpEvent::AcceptResult(Ok(conn)));
        events.push(TcpEvent::NodelaySet { ok: conn != 1 });
        events.push(TcpEvent::Spawned);
    }
    events.push(TcpEvent::AcceptResult(Ok(4)));
    let (state, actions) = play(listening(None), events);
    assert_eq!(relayed(&actions), vec![3, 1, 2]);
    assert_eq!(state.conn(), Some(&4));
}

#[test]
fn a_connection_without_its_keepalive_is_the_only_one_not_relayed() {
    let (state, actions) = play(
        listening(Some(60)),
        vec![
            TcpEvent::AcceptResult(Ok(5)),
            TcpEvent::NodelaySet { ok: true },
            TcpEvent::KeepaliveSet(Ok(())),
            TcpEvent::Spawned,
            TcpEvent::AcceptResult(Ok(6)),
            TcpEvent::NodelaySet { ok: true },
            TcpEvent::KeepaliveSet(Err("no such option")),
        ],
    );
    assert_eq!(relayed(&actions), vec![5]);
    assert_eq!(state, TcpState::Finished);
}

#[test]
fn aborted_connections_between_others_change_nothing_else() {
    let served = |conn| {
        vec![
            TcpEvent::AcceptResult(Ok(conn)),
            TcpEvent::NodelaySet { ok: true },
            TcpEvent::Spawned,
        ]
    };
    let mut plain = served(1);
    plain.extend(served(2));
    let mut disturbed = vec![aborted("a")];
    disturbed.extend(served(1));
    disturbed.extend([aborted("b"), aborted("c")]);
    disturbed.extend(served(2));
    let (end, actions) = play(listening(None), plain);
    let (disturbed_end, disturbed_actions) = play(listening(None), disturbed);
    assert_eq!(disturbed_end, end);
    let kept: Vec<Act> = disturbed_actions
        .into_iter()
        .filter(|a| !matches!(a, TcpAction::Accept { aborted: Some(_) }))
        .collect();
    assert_eq!(kept, actions);
}

#[test]
fn a_failed_keepalive_is_not_logged() {
    let action: Act = TcpAction::Fail { error: "no such option" };
    assert_eq!(action.error(), Some(&"no such option"));
    assert_eq!(action.record("", "no such option"), None);
}
