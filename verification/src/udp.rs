//! The UDP relay of one endpoint: bind, then serve associations for as long as
//! the process lets it.

use vstd::prelude::*;

use std::sync::Arc;

use crate::endpoint::{share, Endpoint, UdpHandles};
use crate::report::{round_failed, udp_bind_panic, Record, RecordView, Severity};
use crate::report::{round_failed_text, udp_bind_panic_text};

verus! {

/// Where the relay stands.
#[derive(Debug, PartialEq, Eq)]
pub enum UdpState<A, R, B, C, S, M> {
    /// Not started.
    Idle { laddr: Arc<A>, bind_opts: B, raddr: Arc<R>, conn_opts: Arc<C> },
    /// The attempt to bind is under way.
    Binding { laddr: Arc<A>, raddr: Arc<R>, conn_opts: Arc<C> },
    /// Bound, and serving a datagram.
    Relaying(UdpHandles<S, R, C, M>),
    /// The address could not be bound.
    Aborted,
}

/// What happened.
#[derive(Debug, PartialEq, Eq)]
pub enum UdpEvent<S, M, E> {
    Start,
    /// The listener is there; `sockmap` is a new table of associations.
    Bound { lis: Arc<S>, sockmap: Arc<M> },
    BindFailed(E),
    /// A round of receiving and relaying is over.
    Relayed(Result<(), E>),
}

/// What to do next.
#[derive(Debug, PartialEq, Eq)]
pub enum UdpAction<A, R, B, C, S, M, E> {
    /// Listen on the address. There is one attempt only.
    Bind { laddr: Arc<A>, bind_opts: B },
    /// Receive on the listener and relay to the remote, after the error of the
    /// round before, if it had one, is logged as [`UdpAction::record`] says.
    Relay { handles: UdpHandles<S, R, C, M>, failed: Option<E> },
    /// Panic, with the words of [`UdpAction::panic_text`]: the address cannot be
    /// bound.
    Abort { laddr: Arc<A>, error: E },
}

/// What is logged when an action is taken, with the error of the action as
/// text.
pub open spec fn udp_record<A, R, B, C, S, M, E>(
    action: UdpAction<A, R, B, C, S, M, E>,
    error: Seq<char>,
) -> Option<RecordView> {
    match action {
        UdpAction::Relay { failed: Some(_), .. } => Some(
            RecordView { severity: Severity::Error, message: round_failed_text(error) },
        ),
        _ => None,
    }
}

impl<A, R, B, C, S, M, E> UdpAction<A, R, B, C, S, M, E> {
    /// The error that the action speaks of, if there is one.
    pub open spec fn spec_error(self) -> Option<E> {
        match self {
            UdpAction::Bind { .. } => None,
            UdpAction::Relay { failed, .. } => failed,
            UdpAction::Abort { error, .. } => Some(error),
        }
    }

    /// The error that the action speaks of, if there is one.
    pub fn error(&self) -> (error: Option<&E>)
        ensures
            match error {
                Some(e) => self.spec_error() == Some(*e),
                None => self.spec_error() is None,
            },
    {
        match self {
            UdpAction::Bind { .. } => None,
            UdpAction::Relay { handles: _, failed } => failed.as_ref(),
            UdpAction::Abort { laddr: _, error } => Some(error),
        }
    }

    /// What to log before the action is taken. `error` is the text of the
    /// action's error.
    pub fn record(&self, error: &str) -> (record: Option<Record>)
        ensures
            match record {
                Some(r) => udp_record(*self, error@) == Some(r@),
                None => udp_record(*self, error@) is None,
            },
    {
        match self {
            UdpAction::Relay { handles: _, failed: Some(_) } => Some(round_failed(error)),
            _ => None,
        }
    }

    /// The words to panic with, if panicking is what the action asks for.
    /// `laddr` and `error` are the texts of its address and error.
    pub fn panic_text(&self, laddr: &str, error: &str) -> (text: Option<String>)
        ensures
            match text {
                Some(t) => self is Abort && t@ == udp_bind_panic_text(laddr@, error@),
                None => !(self is Abort),
            },
    {
        match self {
            UdpAction::Abort { .. } => Some(udp_bind_panic(laddr, error)),
            _ => None,
        }
    }
}

impl<A, R, B, C, S, M> UdpState<A, R, B, C, S, M> {
    /// The event is an outcome of what this state waits for.
    pub open spec fn accepts<E>(self, event: UdpEvent<S, M, E>) -> bool {
        match self {
            UdpState::Idle { .. } => event is Start,
            UdpState::Binding { .. } => event is Bound || event is BindFailed,
            UdpState::Relaying(_) => event is Relayed,
            UdpState::Aborted => false,
        }
    }

    /// Whether the relay can take this event next.
    pub fn ready_for<E>(&self, event: &UdpEvent<S, M, E>) -> (ready: bool)
        ensures
            ready == self.accepts(*event),
    {
        match (self, event) {
            (UdpState::Idle { .. }, UdpEvent::Start) => true,
            (UdpState::Binding { .. }, UdpEvent::Bound { .. }) => true,
            (UdpState::Binding { .. }, UdpEvent::BindFailed(_)) => true,
            (UdpState::Relaying(_), UdpEvent::Relayed(_)) => true,
            _ => false,
        }
    }

    /// The relay of `endpoint`, not started yet. Datagrams go to the first
    /// remote address only.
    pub fn new(endpoint: Endpoint<A, R, B, C>) -> (state: UdpState<A, R, B, C, S, M>)
        ensures
            state matches UdpState::Idle { laddr, bind_opts, raddr, conn_opts } && {
                &&& *laddr == endpoint.laddr
                &&& bind_opts == endpoint.bind_opts
                &&& *raddr == endpoint.raddr
                &&& *conn_opts == endpoint.conn_opts
            },
    {
        let Endpoint { laddr, raddr, bind_opts, conn_opts, extra_raddrs: _ } = endpoint;
        UdpState::Idle {
            laddr: Arc::new(laddr),
            bind_opts,
            raddr: Arc::new(raddr),
            conn_opts: Arc::new(conn_opts),
        }
    }
}

/// The next state and action, for an event that the state accepts.
pub open spec fn udp_next<A, R, B, C, S, M, E>(
    state: UdpState<A, R, B, C, S, M>,
    event: UdpEvent<S, M, E>,
) -> (UdpState<A, R, B, C, S, M>, UdpAction<A, R, B, C, S, M, E>) {
    match (state, event) {
        (UdpState::Idle { laddr, bind_opts, raddr, conn_opts }, UdpEvent::Start) => (
            UdpState::Binding { laddr, raddr, conn_opts },
            UdpAction::Bind { laddr, bind_opts },
        ),
        (UdpState::Binding { raddr, conn_opts, .. }, UdpEvent::Bound { lis, sockmap }) => {
            let handles = UdpHandles { lis, raddr, conn_opts, sockmap };
            (UdpState::Relaying(handles), UdpAction::Relay { handles, failed: None })
        },
        (UdpState::Binding { laddr, .. }, UdpEvent::BindFailed(error)) => (
            UdpState::Aborted,
            UdpAction::Abort { laddr, error },
        ),
        (UdpState::Relaying(handles), UdpEvent::Relayed(result)) => (
            UdpState::Relaying(handles),
            UdpAction::Relay { handles, failed: failure_of(result) },
        ),
        _ => arbitrary(),
    }
}

/// The error of a round that had one.
pub open spec fn failure_of<E>(result: Result<(), E>) -> Option<E> {
    match result {
        Ok(_) => None,
        Err(error) => Some(error),
    }
}

/// Runs the relay one step further. A failure to bind is fatal at once; a
/// failure to relay is not, whatever it is.
pub fn run_udp<A, R, B, C, S, M, E>(
    state: UdpState<A, R, B, C, S, M>,
    event: UdpEvent<S, M, E>,
) -> (next: (UdpState<A, R, B, C, S, M>, UdpAction<A, R, B, C, S, M, E>))
    requires
        state.accepts(event),
    ensures
        next == udp_next(state, event),
{
    match (state, event) {
        (UdpState::Idle { laddr, bind_opts, raddr, conn_opts }, UdpEvent::Start) => {
            let target = share(&laddr);
            (
                UdpState::Binding { laddr, raddr, conn_opts },
                UdpAction::Bind { laddr: target, bind_opts },
            )
        },
        (
            UdpState::Binding { laddr: _, raddr, conn_opts },
            UdpEvent::Bound { lis, sockmap },
        ) => {
            let handles = UdpHandles { lis, raddr, conn_opts, sockmap };
            let first = handles.share();
            (UdpState::Relaying(handles), UdpAction::Relay { handles: first, failed: None })
        },
        (
            UdpState::Binding { laddr, raddr: _, conn_opts: _ },
            UdpEvent::BindFailed(error),
        ) => (UdpState::Aborted, UdpAction::Abort { laddr, error }),
        (UdpState::Relaying(handles), UdpEvent::Relayed(result)) => {
            let again = handles.share();
            let failed = match result {
                Ok(_) => None,
                Err(error) => Some(error),
            };
            (UdpState::Relaying(handles), UdpAction::Relay { handles: again, failed })
        },
        _ => vstd::pervasive::unreached(),
    }
}

/// What a series of events makes of the relay: the state it ends in and the
/// actions it asks for on the way.
pub open spec fn udp_run<A, R, B, C, S, M, E>(
    state: UdpState<A, R, B, C, S, M>,
    events: Seq<UdpEvent<S, M, E>>,
) -> (UdpState<A, R, B, C, S, M>, Seq<UdpAction<A, R, B, C, S, M, E>>)
    decreases events.len(),
{
    if events.len() == 0 {
        (state, seq![])
    } else {
        let (next, action) = udp_next(state, events[0]);
        let (end, actions) = udp_run(next, events.skip(1));
        (end, seq![action] + actions)
    }
}

/// Each event of the series is an outcome of the action before it.
pub open spec fn udp_accepts<A, R, B, C, S, M, E>(
    state: UdpState<A, R, B, C, S, M>,
    events: Seq<UdpEvent<S, M, E>>,
) -> bool
    decreases events.len(),
{
    events.len() > 0 ==> {
        &&& state.accepts(events[0])
        &&& udp_accepts(udp_next(state, events[0]).0, events.skip(1))
    }
}

/// The relay is ready for every outcome of what it asked for last, whatever that
/// outcome is, and for nothing else; a relay that was not started can only be
/// started.
pub proof fn outcomes_are_taken<A, R, B, C, S, M, E>(
    state: UdpState<A, R, B, C, S, M>,
    event: UdpEvent<S, M, E>,
    outcome: UdpEvent<S, M, E>,
)
    requires
        state.accepts(event),
    ensures
        ({
            let (next, action) = udp_next(state, event);
            next.accepts(outcome) <==> match action {
                UdpAction::Bind { .. } => outcome is Bound || outcome is BindFailed,
                UdpAction::Relay { .. } => outcome is Relayed,
                UdpAction::Abort { .. } => false,
            }
        }),
        state is Idle ==> (state.accepts(outcome) <==> outcome is Start),
{
}

proof fn rounds_follow<A, R, B, C, S, M, E>(
    handles: UdpHandles<S, R, C, M>,
    events: Seq<UdpEvent<S, M, E>>,
    i: int,
)
    requires
        udp_accepts(UdpState::<A, R, B, C, S, M>::Relaying(handles), events),
        0 <= i < events.len(),
    ensures
        udp_run(UdpState::<A, R, B, C, S, M>::Relaying(handles), events).1.len() == events.len(),
        events[i] matches UdpEvent::Relayed(result) && udp_run(
            UdpState::<A, R, B, C, S, M>::Relaying(handles),
            events,
        ).1[i] == (UdpAction::<A, R, B, C, S, M, E>::Relay {
            handles,
            failed: match result {
                Ok(_) => None,
                Err(error) => Some(error),
            },
        }),
    decreases events.len(),
{
    let state = UdpState::<A, R, B, C, S, M>::Relaying(handles);
    let tail = events.skip(1);
    if i > 0 {
        rounds_follow::<A, R, B, C, S, M, E>(handles, tail, i - 1);
        assert(tail[i - 1] == events[i]);
    } else if tail.len() > 0 {
        rounds_follow::<A, R, B, C, S, M, E>(handles, tail, 0);
    }
}

/// The life of the relay, event by event. It is started, and binds to its
/// address with its options, once. If it cannot, it panics with that very
/// address and error, and nothing comes after. If it can, it relays round after
/// round without end, each time with the listener and table it got and with its
/// own remote address and options, and each error of a round goes with the next.
pub proof fn life_is_exact<A, R, B, C, S, M, E>(
    laddr: Arc<A>,
    bind_opts: B,
    raddr: Arc<R>,
    conn_opts: Arc<C>,
    events: Seq<UdpEvent<S, M, E>>,
    i: int,
)
    requires
        udp_accepts(
            UdpState::<A, R, B, C, S, M>::Idle { laddr, bind_opts, raddr, conn_opts },
            events,
        ),
        0 <= i < events.len(),
    ensures
        ({
            let idle = UdpState::<A, R, B, C, S, M>::Idle { laddr, bind_opts, raddr, conn_opts };
            let actions = udp_run(idle, events).1;
            &&& actions.len() == events.len()
            &&& i == 0 ==> events[i] is Start && actions[i] == (UdpAction::<
                A,
                R,
                B,
                C,
                S,
                M,
                E,
            >::Bind { laddr, bind_opts })
            &&& i == 1 ==> match (events[i], actions[i]) {
                (UdpEvent::Bound { lis, sockmap }, UdpAction::Relay { handles, failed }) => {
                    &&& handles.lis == lis && handles.sockmap == sockmap
                    &&& handles.raddr == raddr && handles.conn_opts == conn_opts
                    &&& failed is None
                },
                (UdpEvent::BindFailed(error), UdpAction::Abort { laddr: named, error: last }) => {
                    &&& named == laddr && last == error
                    &&& events.len() == 2
                },
                _ => false,
            }
            &&& i >= 2 ==> match (events[1], events[i], actions[i]) {
                (
                    UdpEvent::Bound { lis, sockmap },
                    UdpEvent::Relayed(result),
                    UdpAction::Relay { handles, failed },
                ) => {
                    &&& handles.lis == lis && handles.sockmap == sockmap
                    &&& handles.raddr == raddr && handles.conn_opts == conn_opts
                    &&& result is Ok ==> failed is None
                    &&& result matches Err(error) ==> failed == Some(error)
                },
                _ => false,
            }
        }),
{
    let idle = UdpState::<A, R, B, C, S, M>::Idle { laddr, bind_opts, raddr, conn_opts };
    reveal_with_fuel(udp_run, 3);
    reveal_with_fuel(udp_accepts, 4);
    let later = events.skip(1);
    let rounds = later.skip(1);
    if events.len() > 1 {
        assert(later[0] == events[1]);
        if events.len() > 2 {
            assert(rounds[0] == events[2]);
            if let UdpEvent::Bound { lis, sockmap } = events[1] {
                let handles = UdpHandles { lis, raddr, conn_opts, sockmap };
                let k: int = if i >= 2 {
                    i - 2
                } else {
                    0
                };
                rounds_follow::<A, R, B, C, S, M, E>(handles, rounds, k);
                if i >= 2 {
                    assert(rounds[i - 2] == events[i]);
                }
            }
        }
    }
}

/// An action is logged exactly if it comes after a round that failed, and then as
/// an error; only an action that carries an error has one, and it is that one.
pub proof fn failed_rounds_are_logged<A, R, B, C, S, M, E>(
    action: UdpAction<A, R, B, C, S, M, E>,
    error: Seq<char>,
)
    ensures
        match action {
            UdpAction::Relay { failed: Some(e), .. } => {
                &&& udp_record(action, error) matches Some(record)
                &&& record.severity == Severity::Error
                &&& record.message == round_failed_text(error)
                &&& action.spec_error() == Some(e)
            },
            UdpAction::Abort { error: e, .. } => udp_record(action, error) is None
                && action.spec_error() == Some(e),
            _ => udp_record(action, error) is None && action.spec_error() is None,
        },
{
}

/// Once bound, the relay never ends by itself: after any series of rounds,
/// failed or not, it asks for another one with the same handles, and for the
/// error of each failed one to be logged.
pub proof fn relaying_goes_on<A, R, B, C, S, M, E>(
    handles: UdpHandles<S, R, C, M>,
    rounds: Seq<Result<(), E>>,
)
    ensures
        ({
            let state = UdpState::<A, R, B, C, S, M>::Relaying(handles);
            let events = Seq::new(rounds.len(), |i: int| UdpEvent::<S, M, E>::Relayed(rounds[i]));
            udp_run(state, events) == (
                state,
                Seq::new(
                    rounds.len(),
                    |i: int|
                        UdpAction::<A, R, B, C, S, M, E>::Relay {
                            handles,
                            failed: failure_of(rounds[i]),
                        },
                ),
            )
        }),
    decreases rounds.len(),
{
    let state = UdpState::<A, R, B, C, S, M>::Relaying(handles);
    let events = Seq::new(rounds.len(), |i: int| UdpEvent::<S, M, E>::Relayed(rounds[i]));
    if rounds.len() > 0 {
        let tail = rounds.skip(1);
        relaying_goes_on::<A, R, B, C, S, M, E>(handles, tail);
        assert(events.skip(1) =~= Seq::new(
            tail.len(),
            |i: int| UdpEvent::<S, M, E>::Relayed(tail[i]),
        ));
        assert(forall|i: int| 0 <= i < tail.len() ==> tail[i] == rounds[i + 1]);
    }
    assert(udp_run(state, events).1 =~= Seq::new(
        rounds.len(),
        |i: int|
            UdpAction::<A, R, B, C, S, M, E>::Relay { handles, failed: failure_of(rounds[i]) },
    ));
}

/// The one attempt to bind decides. If it succeeds, every round gets the new
/// listener and table and the endpoint's own remote address and options; if it
/// fails, the relay aborts with the address and that error.
pub proof fn one_attempt_decides<A, R, B, C, S, M, E>(
    laddr: Arc<A>,
    bind_opts: B,
    raddr: Arc<R>,
    conn_opts: Arc<C>,
    lis: Arc<S>,
    sockmap: Arc<M>,
    error: E,
)
    ensures
        ({
            let idle = UdpState::<A, R, B, C, S, M>::Idle { laddr, bind_opts, raddr, conn_opts };
            let bind = UdpAction::<A, R, B, C, S, M, E>::Bind { laddr, bind_opts };
            let handles = UdpHandles { lis, raddr, conn_opts, sockmap };
            &&& udp_run(
                idle,
                seq![UdpEvent::<S, M, E>::Start, UdpEvent::Bound { lis, sockmap }],
            ) == (
                UdpState::<A, R, B, C, S, M>::Relaying(handles),
                seq![bind, UdpAction::Relay { handles, failed: None }],
            )
            &&& udp_run(
                idle,
                seq![UdpEvent::<S, M, E>::Start, UdpEvent::BindFailed(error)],
            ) == (
                UdpState::<A, R, B, C, S, M>::Aborted,
                seq![bind, UdpAction::Abort { laddr, error }],
            )
        }),
{
    let idle = UdpState::<A, R, B, C, S, M>::Idle { laddr, bind_opts, raddr, conn_opts };
    let bind = UdpAction::<A, R, B, C, S, M, E>::Bind { laddr, bind_opts };
    let handles = UdpHandles { lis, raddr, conn_opts, sockmap };
    let good = seq![UdpEvent::<S, M, E>::Start, UdpEvent::Bound { lis, sockmap }];
    let bad = seq![UdpEvent::<S, M, E>::Start, UdpEvent::BindFailed(error)];
    reveal_with_fuel(udp_run, 3);
    assert(good.skip(1)[0] == good[1]);
    assert(bad.skip(1)[0] == bad[1]);
    assert(udp_run(idle, good).1 =~= seq![bind, UdpAction::Relay { handles, failed: None }]);
    assert(udp_run(idle, bad).1 =~= seq![bind, UdpAction::Abort { laddr, error }]);
}

} // verus!
