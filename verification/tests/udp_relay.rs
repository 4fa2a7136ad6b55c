use std::sync::Arc;

use realm_control::endpoint::{Endpoint, UdpHandles};
use realm_control::report::{Record, Severity};
use realm_control::udp::{run_udp, UdpAction, UdpEvent, UdpState};

type State = UdpState<&'static str, &'static str, &'static str, &'static str, u8, u16>;
type Event = UdpEvent<u8, u16, &'static str>;
type Act = UdpAction<&'static str, &'static str, &'static str, &'static str, u8, u16, &'static str>;

fn relay() -> State {
    UdpState::new(Endpoint {
        laddr: "0.0.0.0:53",
        raddr: "example.org:53",
        bind_opts: "bind",
        conn_opts: "conn",
        extra_raddrs: vec!["example.net:53"],
    })
}

fn handles() -> UdpHandles<u8, &'static str, &'static str, u16> {
    UdpHandles {
        lis: Arc::new(4),
        raddr: Arc::new("example.org:53"),
        conn_opts: Arc::new("conn"),
        sockmap: Arc::new(16),
    }
}

fn play(state: State, events: Vec<Event>) -> (State, Vec<Act>) {
    let mut state = state;
    let mut actions = Vec::new();
    for event in events {
        assert!(state.ready_for(&event));
        let (next, action) = run_udp(state, event);
        state = next;
        actions.push(action);
    }
    (state, actions)
}

fn bind() -> Act {
    UdpAction::Bind { laddr: Arc::new("0.0.0.0:53"), bind_opts: "bind" }
}

fn bound() -> Event {
    UdpEvent::Bound { lis: Arc::new(4), sockmap: Arc::new(16) }
}

#[test]
fn it_binds_and_relays() {
    let (state, actions) = play(relay(), vec![UdpEvent::Start, bound()]);
    assert_eq!(state, UdpState::Relaying(handles()));
    assert_eq!(actions, vec![bind(), UdpAction::Relay { handles: handles(), failed: None }]);
    assert!(actions.iter().all(|a| a.record("").is_none() && a.error().is_none()));
}

#[test]
fn it_goes_on_after_a_failed_round() {
    let (state, actions) = play(
        relay(),
        vec![
            UdpEvent::Start,
            bound(),
            UdpEvent::Relayed(Ok(())),
            UdpEvent::Relayed(Err("unreachable")),
            UdpEvent::Relayed(Ok(())),
        ],
    );
    assert_eq!(state, UdpState::Relaying(handles()));
    let failures = [None, None, Some("unreachable"), None];
    for (action, failed) in actions[1..].iter().zip(failures) {
        assert_eq!(*action, UdpAction::Relay { handles: handles(), failed });
    }
    assert_eq!(actions.len(), 5);
    assert_eq!(actions[2].record(""), None);
    assert_eq!(actions[3].error(), Some(&"unreachable"));
    assert_eq!(
        actions[3].record("unreachable"),
        Some(Record {
            severity: Severity::Error,
            message: String::from("[udp]error: unreachable"),
        })
    );
}

#[test]
fn it_aborts_when_it_cannot_bind() {
    let (state, actions) = play(relay(), vec![UdpEvent::Start, UdpEvent::BindFailed("in use")]);
    assert_eq!(state, UdpState::Aborted);
    assert_eq!(
        actions,
        vec![bind(), UdpAction::Abort { laddr: Arc::new("0.0.0.0:53"), error: "in use" }]
    );
    assert_eq!(actions[0].panic_text("0.0.0.0:53", ""), None);
    assert_eq!(actions[1].error(), Some(&"in use"));
    assert_eq!(actions[1].record("in use"), None);
    assert_eq!(
        actions[1].panic_text("0.0.0.0:53", "in use"),
        Some(String::from("[udp]failed to bind 0.0.0.0:53: in use"))
    );
}

#[test]
fn an_association_keeps_the_listener_when_the_relay_is_gone() {
    let (state, mut actions) = play(relay(), vec![UdpEvent::Start, bound()]);
    let kept = match actions.pop() {
        Some(UdpAction::Relay { handles, .. }) => handles,
        _ => panic!("not relaying"),
    };
    assert_eq!(Arc::strong_count(&kept.lis), 2);
    drop(state);
    assert_eq!(Arc::strong_count(&kept.lis), 1);
    assert_eq!(*kept.lis, 4);
    assert_eq!(*kept.sockmap, 16);
}

#[test]
fn a_round_cannot_end_before_it_is_bound() {
    let relayed: Event = UdpEvent::Relayed(Ok(()));
    assert!(!relay().ready_for(&relayed));
    assert!(!State::Aborted.ready_for(&relayed));
}
