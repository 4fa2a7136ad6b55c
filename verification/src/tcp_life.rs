//! The life of a TCP relay, told by what happens to it: every action follows
//! from the events so far, whatever the state it was asked for in.

use vstd::prelude::*;

use std::sync::Arc;

use crate::endpoint::TcpHandles;
use crate::retry::ErrorKind;
use crate::tcp::{bind_count, tcp_accepts, tcp_next, tcp_run, tcp_run_in_parts};
use crate::tcp::{TcpAction, TcpBind, TcpEvent, TcpState};

verus! {

/// The relay is ready for every outcome of what it asked for last, whatever that
/// outcome is, and for nothing else; once it has returned it is ready for
/// nothing.
pub proof fn outcomes_are_taken<A, R, B, C, K, S, E>(
    state: TcpState<A, R, B, C, K, S>,
    event: TcpEvent<K, S, E>,
    outcome: TcpEvent<K, S, E>,
)
    requires
        state.wf(),
        state.accepts(event),
    ensures
        ({
            let (next, action) = tcp_next(state, event);
            next.accepts(outcome) <==> match action {
                TcpAction::Bind { .. } => outcome is BindResult,
                TcpAction::Sleep { .. } => outcome is Slept,
                TcpAction::BuildKeepalive { .. } => outcome is KeepaliveBuilt,
                TcpAction::Accept { .. } => outcome is AcceptResult,
                TcpAction::SetNodelay => outcome is NodelaySet,
                TcpAction::SetKeepalive { .. } => outcome is KeepaliveSet,
                TcpAction::Spawn { .. } => outcome is Spawned,
                TcpAction::GiveUp { .. } => false,
                TcpAction::Stop { .. } => false,
                TcpAction::Fail { .. } => false,
            }
        }),
{
}

/// A relay that was not started can be started, and nothing else.
pub proof fn relays_begin_with_a_start<A, R, B, C, K, S, E>(
    bind: TcpBind<A, R, B, C>,
    event: TcpEvent<K, S, E>,
)
    requires
        bind.retry.failures == 0,
    ensures
        TcpState::<A, R, B, C, K, S>::Idle(bind).wf(),
        TcpState::<A, R, B, C, K, S>::Idle(bind).accepts(event) <==> event is Start,
{
}

/// A relay that is started binds, to its address and with its options; so does
/// one that has slept. Neither changes anything of what it holds.
pub proof fn starting_and_waking_bind<A, R, B, C, K, S, E>(bind: TcpBind<A, R, B, C>)
    ensures
        ({
            let started = tcp_next::<A, R, B, C, K, S, E>(TcpState::Idle(bind), TcpEvent::Start);
            let woken = tcp_next::<A, R, B, C, K, S, E>(TcpState::Waiting(bind), TcpEvent::Slept);
            &&& started == woken
            &&& started.0 matches TcpState::Binding(kept) && kept == bind
            &&& started.1 matches TcpAction::Bind { laddr, bind_opts } && laddr == bind.laddr
                && bind_opts == bind.bind_opts
        }),
{
}

/// The relay listens with the keepalive settings that were worked out, or with
/// none if there are none, and keeps its handles.
pub proof fn keepalive_settings_are_kept<A, R, B, C, K, S, E>(
    handles: TcpHandles<R, C>,
    keepalive: Option<Arc<K>>,
)
    ensures
        ({
            let (next, action) = tcp_next::<A, R, B, C, K, S, E>(
                TcpState::Bound(handles),
                TcpEvent::KeepaliveBuilt(keepalive),
            );
            &&& next matches TcpState::Accepting(listen) && listen.handles == handles
                && listen.keepalive == keepalive
            &&& action matches TcpAction::Accept { aborted } && aborted is None
        }),
{
}

/// The state of the relay before event `i`.
pub open spec fn tcp_before<A, R, B, C, K, S, E>(
    state: TcpState<A, R, B, C, K, S>,
    events: Seq<TcpEvent<K, S, E>>,
    i: int,
) -> TcpState<A, R, B, C, K, S> {
    tcp_run(state, events.take(i)).0
}

/// There is one action for each event, and it is the answer that the state
/// before the event gives to it.
pub proof fn each_event_has_its_action<A, R, B, C, K, S, E>(
    state: TcpState<A, R, B, C, K, S>,
    events: Seq<TcpEvent<K, S, E>>,
    i: int,
)
    requires
        tcp_accepts(state, events),
        0 <= i < events.len(),
    ensures
        tcp_run(state, events).1.len() == events.len(),
        tcp_before(state, events, 0) == state,
        tcp_before(state, events, i).accepts(events[i]),
        tcp_next(tcp_before(state, events, i), events[i]) == (
            tcp_before(state, events, i + 1),
            tcp_run(state, events).1[i],
        ),
{
    let front = events.take(i);
    let back = events.skip(i);
    let here = tcp_before(state, events, i);
    lengths_agree(state, events);
    lengths_agree(state, front);
    assert(events =~= front + back);
    tcp_run_in_parts(state, front, back);
    assert(back[0] == events[i]);
    assert(events.take(0) =~= seq![]);
    let one = seq![events[i]];
    tcp_run_in_parts(state, front, one);
    assert(events.take(i + 1) =~= front + one);
    reveal_with_fuel(tcp_run, 2);
    assert(one.skip(1) =~= seq![]);
}

proof fn lengths_agree<A, R, B, C, K, S, E>(
    state: TcpState<A, R, B, C, K, S>,
    events: Seq<TcpEvent<K, S, E>>,
)
    ensures
        tcp_run(state, events).1.len() == events.len(),
    decreases events.len(),
{
    if events.len() > 0 {
        lengths_agree(tcp_next(state, events[0]).0, events.skip(1));
    }
}

/// The keepalive settings were worked out once among the first `i` events, to
/// these.
spec fn settled<K, S, E>(
    events: Seq<TcpEvent<K, S, E>>,
    i: int,
    keepalive: Option<Arc<K>>,
) -> bool {
    &&& exists|j: int| 0 <= j < i && #[trigger] events[j] is KeepaliveBuilt
    &&& forall|j: int|
        0 <= j < i && #[trigger] events[j] is KeepaliveBuilt ==> events[j] == TcpEvent::<
            K,
            S,
            E,
        >::KeepaliveBuilt(keepalive)
}

spec fn unsettled<K, S, E>(events: Seq<TcpEvent<K, S, E>>, i: int) -> bool {
    forall|j: int| 0 <= j < i ==> !(#[trigger] events[j] is KeepaliveBuilt)
}

proof fn states_follow<A, R, B, C, K, S, E>(
    bind: TcpBind<A, R, B, C>,
    events: Seq<TcpEvent<K, S, E>>,
    i: int,
)
    requires
        bind.retry.failures == 0,
        tcp_accepts(TcpState::<A, R, B, C, K, S>::Idle(bind), events),
        0 <= i <= events.len(),
    ensures
        match tcp_before(TcpState::<A, R, B, C, K, S>::Idle(bind), events, i) {
            TcpState::Idle(b) => i == 0 && b == bind,
            TcpState::Binding(b) => {
                &&& unsettled(events, i)
                &&& i == 2 * b.retry.failures + 1 && b.retry.failures <= 4
                &&& b == TcpBind { retry: b.retry, ..bind }
            },
            TcpState::Waiting(b) => {
                &&& unsettled(events, i)
                &&& i == 2 * b.retry.failures && 1 <= b.retry.failures <= 4
                &&& b == TcpBind { retry: b.retry, ..bind }
            },
            TcpState::Bound(handles) => {
                &&& unsettled(events, i)
                &&& handles == bind.handles
                &&& i > 0 && events[i - 1] == TcpEvent::<K, S, E>::BindResult(Ok(()))
            },
            TcpState::Accepting(listen) => {
                &&& listen.handles == bind.handles
                &&& settled(events, i, listen.keepalive)
            },
            TcpState::Undelaying { listen, conn } => {
                &&& listen.handles == bind.handles
                &&& settled(events, i, listen.keepalive)
                &&& events[i - 1] == TcpEvent::<K, S, E>::AcceptResult(Ok(conn))
            },
            TcpState::Reviving { listen, conn } => {
                &&& listen.handles == bind.handles
                &&& listen.keepalive is Some
                &&& settled(events, i, listen.keepalive)
                &&& i >= 2 && events[i - 2] == TcpEvent::<K, S, E>::AcceptResult(Ok(conn))
            },
            TcpState::Spawning(listen) => {
                &&& listen.handles == bind.handles
                &&& settled(events, i, listen.keepalive)
            },
            TcpState::Finished => i > 0,
        },
    decreases i,
{
    let idle = TcpState::<A, R, B, C, K, S>::Idle(bind);
    if i == 0 {
        assert(events.take(0) =~= seq![]);
    } else {
        states_follow(bind, events, i - 1);
        each_event_has_its_action(idle, events, i - 1);
        let before = tcp_before(idle, events, i - 1);
        assert(before.accepts(events[i - 1]));
        if before is Bound {
            assert(events[i - 1] is KeepaliveBuilt);
        }
    }
}

/// The way to a listener, event by event. A start comes once, at the beginning,
/// and is answered with an attempt to bind; so is every sleep. Only an attempt
/// has an outcome. The n-th failed attempt is followed by a sleep of n tenths of
/// a second if the address was taken and n is less than five; otherwise the
/// relay returns its error and is over. With a listener, and not without, the
/// keepalive settings are worked out from the connection options, and with them
/// the relay begins to accept.
pub proof fn binding_is_exact<A, R, B, C, K, S, E>(
    bind: TcpBind<A, R, B, C>,
    events: Seq<TcpEvent<K, S, E>>,
    i: int,
)
    requires
        bind.retry.failures == 0,
        tcp_accepts(TcpState::<A, R, B, C, K, S>::Idle(bind), events),
        0 <= i < events.len(),
    ensures
        ({
            let actions = tcp_run(TcpState::<A, R, B, C, K, S>::Idle(bind), events).1;
            let attempt = TcpAction::<A, R, B, C, K, S, E>::Bind {
                laddr: bind.laddr,
                bind_opts: bind.bind_opts,
            };
            let n = (i + 1) / 2;
            &&& actions.len() == events.len()
            &&& i == 0 <==> events[i] is Start
            &&& actions[i] is Bind <==> events[i] is Start || events[i] is Slept
            &&& match events[i] {
                TcpEvent::Start => actions[i] == attempt,
                TcpEvent::BindResult(outcome) => {
                    &&& actions[i - 1] == attempt
                    &&& i == 2 * n - 1 && 1 <= n <= 5
                    &&& match (outcome, actions[i]) {
                        (Ok(_), TcpAction::BuildKeepalive { conn_opts }) => conn_opts
                            == bind.handles.conn_opts,
                        (Err(failure), TcpAction::Sleep { attempts, error, delay_ms }) => {
                            &&& failure.kind == ErrorKind::AddrInUse && n < 5
                            &&& attempts == n && error == failure.error
                            &&& delay_ms == 100 * n
                        },
                        (Err(failure), TcpAction::GiveUp { attempts, error }) => {
                            &&& failure.kind != ErrorKind::AddrInUse || n == 5
                            &&& attempts == n && error == failure.error
                            &&& i + 1 == events.len()
                        },
                        _ => false,
                    }
                },
                TcpEvent::Slept => actions[i - 1] is Sleep && actions[i] == attempt,
                TcpEvent::KeepaliveBuilt(_) => {
                    &&& events[i - 1] == TcpEvent::<K, S, E>::BindResult(Ok(()))
                    &&& actions[i - 1] is BuildKeepalive
                    &&& actions[i] == (TcpAction::<A, R, B, C, K, S, E>::Accept { aborted: None })
                },
                _ => true,
            }
        }),
{
    let idle = TcpState::<A, R, B, C, K, S>::Idle(bind);
    states_follow(bind, events, i);
    each_event_has_its_action(idle, events, i);
    if i > 0 {
        states_follow(bind, events, i - 1);
        each_event_has_its_action(idle, events, i - 1);
    }
    if i + 1 < events.len() {
        each_event_has_its_action(idle, events, i + 1);
    }
}

/// What becomes of connections, event by event, once the keepalive settings were
/// worked out by event `j`. The relay accepts, and goes on accepting after an
/// aborted connection; any other failure to accept ends it, without an error of
/// its own. An accepted connection has its delay switched off. If there are
/// keepalive settings they are then set on it, whether that went well or not,
/// and if they cannot be set the relay ends with that error. The connection just
/// accepted, and no other, is then handed to a task of its own with the handles
/// of the endpoint, and the relay accepts again.
pub proof fn relaying_is_exact<A, R, B, C, K, S, E>(
    bind: TcpBind<A, R, B, C>,
    events: Seq<TcpEvent<K, S, E>>,
    keepalive: Option<Arc<K>>,
    j: int,
    i: int,
)
    requires
        bind.retry.failures == 0,
        tcp_accepts(TcpState::<A, R, B, C, K, S>::Idle(bind), events),
        0 <= j < i < events.len(),
        events[j] == TcpEvent::<K, S, E>::KeepaliveBuilt(keepalive),
    ensures
        ({
            let actions = tcp_run(TcpState::<A, R, B, C, K, S>::Idle(bind), events).1;
            match (events[i], actions[i]) {
                (TcpEvent::AcceptResult(Ok(_)), TcpAction::SetNodelay) => actions[i - 1] is Accept,
                (TcpEvent::AcceptResult(Err(failure)), TcpAction::Accept { aborted }) => {
                    &&& actions[i - 1] is Accept
                    &&& failure.kind == ErrorKind::ConnectionAborted
                    &&& aborted == Some(failure.error)
                },
                (TcpEvent::AcceptResult(Err(failure)), TcpAction::Stop { error }) => {
                    &&& actions[i - 1] is Accept
                    &&& failure.kind != ErrorKind::ConnectionAborted
                    &&& error == failure.error
                    &&& i + 1 == events.len()
                },
                (TcpEvent::NodelaySet { .. }, TcpAction::SetKeepalive { keepalive: set }) => {
                    &&& actions[i - 1] is SetNodelay
                    &&& events[i - 1] is AcceptResult
                    &&& keepalive == Some(set)
                },
                (TcpEvent::NodelaySet { .. }, TcpAction::Spawn { conn, handles }) => {
                    &&& actions[i - 1] is SetNodelay
                    &&& events[i - 1] == TcpEvent::<K, S, E>::AcceptResult(Ok(conn))
                    &&& keepalive is None
                    &&& handles == bind.handles
                },
                (TcpEvent::KeepaliveSet(Ok(_)), TcpAction::Spawn { conn, handles }) => {
                    &&& actions[i - 1] is SetKeepalive
                    &&& events[i - 2] == TcpEvent::<K, S, E>::AcceptResult(Ok(conn))
                    &&& keepalive is Some
                    &&& handles == bind.handles
                },
                (TcpEvent::KeepaliveSet(Err(refused)), TcpAction::Fail { error }) => {
                    &&& actions[i - 1] is SetKeepalive
                    &&& error == refused
                    &&& i + 1 == events.len()
                },
                (TcpEvent::Spawned, TcpAction::Accept { aborted }) => {
                    &&& actions[i - 1] is Spawn
                    &&& aborted is None
                },
                _ => false,
            }
        }),
{
    let idle = TcpState::<A, R, B, C, K, S>::Idle(bind);
    states_follow(bind, events, i);
    each_event_has_its_action(idle, events, i);
    states_follow(bind, events, i - 1);
    each_event_has_its_action(idle, events, i - 1);
    if i + 1 < events.len() {
        each_event_has_its_action(idle, events, i + 1);
    }
}

/// The relay does not accept without a listener, nor without having worked the
/// keepalive settings out: before every attempt to accept there was one to bind
/// that got its listener, and the settings were worked out right after it, once.
pub proof fn accepting_takes_a_listener<A, R, B, C, K, S, E>(
    bind: TcpBind<A, R, B, C>,
    events: Seq<TcpEvent<K, S, E>>,
    i: int,
) -> (j: int)
    requires
        bind.retry.failures == 0,
        tcp_accepts(TcpState::<A, R, B, C, K, S>::Idle(bind), events),
        0 <= i < events.len(),
        tcp_run(TcpState::<A, R, B, C, K, S>::Idle(bind), events).1[i] is Accept,
    ensures
        2 <= j <= i,
        events[j] is KeepaliveBuilt,
        events[j - 1] == TcpEvent::<K, S, E>::BindResult(Ok(())),
        tcp_run(TcpState::<A, R, B, C, K, S>::Idle(bind), events).1[j - 2] is Bind,
        forall|k: int|
            0 <= k <= i && k != j ==> !(#[trigger] events[k] is KeepaliveBuilt),
{
    let idle = TcpState::<A, R, B, C, K, S>::Idle(bind);
    states_follow(bind, events, i);
    each_event_has_its_action(idle, events, i);
    let j = choose|j: int| 0 <= j <= i && #[trigger] events[j] is KeepaliveBuilt;
    assert(0 <= j <= i && events[j] is KeepaliveBuilt) by {
        if tcp_before(idle, events, i) is Bound {
            assert(events[i] is KeepaliveBuilt);
        }
    }
    binding_is_exact(bind, events, j);
    binding_is_exact(bind, events, j - 1);
    assert forall|k: int| 0 <= k <= i && k != j implies !(#[trigger] events[k] is KeepaliveBuilt) by {
        if events[k] is KeepaliveBuilt {
            let (first, last) = if k < j {
                (k, j)
            } else {
                (j, k)
            };
            states_follow(bind, events, last);
            each_event_has_its_action(idle, events, last);
            assert(events[first] is KeepaliveBuilt);
        }
    }
    j
}

/// How many attempts to bind have an outcome among the events.
pub open spec fn outcomes_counted<K, S, E>(events: Seq<TcpEvent<K, S, E>>) -> nat
    decreases events.len(),
{
    if events.len() == 0 {
        0
    } else {
        (if events[0] is BindResult {
            1nat
        } else {
            0nat
        }) + outcomes_counted(events.skip(1))
    }
}

/// The relay makes exactly the attempts that have an outcome, and one more while
/// it waits for one: none is left out and none is made that nobody asked about.
pub proof fn attempts_are_counted<A, R, B, C, K, S, E>(
    bind: TcpBind<A, R, B, C>,
    events: Seq<TcpEvent<K, S, E>>,
)
    requires
        tcp_accepts(TcpState::<A, R, B, C, K, S>::Idle(bind), events),
    ensures
        ({
            let (end, actions) = tcp_run(TcpState::<A, R, B, C, K, S>::Idle(bind), events);
            bind_count(actions) == outcomes_counted(events) + (if end is Binding {
                1nat
            } else {
                0nat
            })
        }),
{
    attempts_are_counted_from(TcpState::<A, R, B, C, K, S>::Idle(bind), events);
}

proof fn attempts_are_counted_from<A, R, B, C, K, S, E>(
    state: TcpState<A, R, B, C, K, S>,
    events: Seq<TcpEvent<K, S, E>>,
)
    requires
        tcp_accepts(state, events),
    ensures
        ({
            let (end, actions) = tcp_run(state, events);
            bind_count(actions) + (if state is Binding {
                1nat
            } else {
                0nat
            }) == outcomes_counted(events) + (if end is Binding {
                1nat
            } else {
                0nat
            })
        }),
    decreases events.len(),
{
    if events.len() > 0 {
        let next = tcp_next(state, events[0]).0;
        let rest = tcp_run(next, events.skip(1)).1;
        attempts_are_counted_from(next, events.skip(1));
        assert(tcp_run(state, events).1.skip(1) =~= rest);
    }
}

} // verus!
