//! The TCP relay of one endpoint: bind, then accept connections and hand each
//! of them to a task of its own.

use vstd::prelude::*;

use std::sync::Arc;

use crate::endpoint::{share, Endpoint, TcpHandles};
use crate::report::{accept_failed, bind_given_up, bind_retried, show_delay};
use crate::report::{accept_failed_text, bind_given_up_text, bind_retried_text, delay_text};
use crate::report::{Record, RecordView, Severity};
use crate::retry::{address_taken, bind_run, bind_step, retryable, BIND_MAX_RETRY};
use crate::retry::{bind_with_retry, BindRetry, BindStep, ErrorKind, Failure};

verus! {

/// What the relay holds until it listens.
#[derive(Debug, PartialEq, Eq)]
pub struct TcpBind<A, R, B, C> {
    pub laddr: Arc<A>,
    pub bind_opts: Arc<B>,
    pub handles: TcpHandles<R, C>,
    pub retry: BindRetry,
}

/// What the relay holds while it listens. `keepalive` is what the connection
/// options ask for, if anything.
#[derive(Debug, PartialEq, Eq)]
pub struct TcpListen<R, C, K> {
    pub handles: TcpHandles<R, C>,
    pub keepalive: Option<Arc<K>>,
}

/// Where the relay stands: each state waits for the outcome of one action. An
/// accepted connection stays here until it is handed to its task.
#[derive(Debug, PartialEq, Eq)]
pub enum TcpState<A, R, B, C, K, S> {
    /// Not started.
    Idle(TcpBind<A, R, B, C>),
    /// An attempt to bind is under way.
    Binding(TcpBind<A, R, B, C>),
    /// Asleep between two attempts.
    Waiting(TcpBind<A, R, B, C>),
    /// Bound; the keepalive settings are being worked out.
    Bound(TcpHandles<R, C>),
    /// Waiting for a connection.
    Accepting(TcpListen<R, C, K>),
    /// A connection is there and its send delay is being switched off.
    Undelaying { listen: TcpListen<R, C, K>, conn: S },
    /// A connection is there and its keepalive is being set.
    Reviving { listen: TcpListen<R, C, K>, conn: S },
    /// A connection is being handed to its task.
    Spawning(TcpListen<R, C, K>),
    /// Over.
    Finished,
}

/// What happened: the outcome of the action before.
#[derive(Debug, PartialEq, Eq)]
pub enum TcpEvent<K, S, E> {
    Start,
    BindResult(Result<(), Failure<E>>),
    Slept,
    KeepaliveBuilt(Option<Arc<K>>),
    AcceptResult(Result<S, Failure<E>>),
    NodelaySet { ok: bool },
    KeepaliveSet(Result<(), E>),
    Spawned,
}

/// What to do next. Before that, what [`TcpAction::record`] says is logged.
#[derive(Debug, PartialEq, Eq)]
pub enum TcpAction<A, R, B, C, K, S, E> {
    /// Try to listen on the address.
    Bind { laddr: Arc<A>, bind_opts: Arc<B> },
    /// Sleep; that many attempts have failed, the last one with the error.
    Sleep { attempts: u32, error: E, delay_ms: u64 },
    /// Return the error: that many attempts have failed, the last one with it.
    GiveUp { attempts: u32, error: E },
    /// Work out the keepalive settings that the options ask for.
    BuildKeepalive { conn_opts: Arc<C> },
    /// Accept a connection; `aborted` is the error of one that was aborted just
    /// now.
    Accept { aborted: Option<E> },
    /// Switch the send delay of the connection at hand off.
    SetNodelay,
    /// Set the keepalive of the connection at hand.
    SetKeepalive { keepalive: Arc<K> },
    /// Relay the connection in a task of its own.
    Spawn { conn: S, handles: TcpHandles<R, C> },
    /// Return without an error: accepting failed with this one.
    Stop { error: E },
    /// Return the error, with which setting a keepalive failed.
    Fail { error: E },
}

/// What is logged when an action is taken, with the relay's address and the
/// error of the action as text.
pub open spec fn tcp_record<A, R, B, C, K, S, E>(
    action: TcpAction<A, R, B, C, K, S, E>,
    laddr: Seq<char>,
    error: Seq<char>,
) -> Option<RecordView> {
    match action {
        TcpAction::Sleep { attempts, delay_ms, .. } => Some(
            RecordView {
                severity: Severity::Warn,
                message: bind_retried_text(
                    laddr,
                    attempts as nat,
                    BIND_MAX_RETRY as nat,
                    error,
                    delay_text(delay_ms as nat),
                ),
            },
        ),
        TcpAction::GiveUp { attempts, .. } => Some(
            RecordView {
                severity: Severity::Error,
                message: bind_given_up_text(laddr, attempts as nat, error),
            },
        ),
        TcpAction::Accept { aborted: Some(_) } => Some(
            RecordView { severity: Severity::Warn, message: accept_failed_text(error) },
        ),
        TcpAction::Stop { .. } => Some(
            RecordView { severity: Severity::Error, message: accept_failed_text(error) },
        ),
        _ => None,
    }
}

impl<A, R, B, C, K, S, E> TcpAction<A, R, B, C, K, S, E> {
    /// The error that the action speaks of, if there is one.
    pub open spec fn spec_error(self) -> Option<E> {
        match self {
            TcpAction::Sleep { error, .. } => Some(error),
            TcpAction::GiveUp { error, .. } => Some(error),
            TcpAction::Accept { aborted } => aborted,
            TcpAction::Stop { error } => Some(error),
            TcpAction::Fail { error } => Some(error),
            _ => None,
        }
    }

    /// The error that the action speaks of, if there is one.
    pub fn error(&self) -> (error: Option<&E>)
        ensures
            match error {
                Some(e) => self.spec_error() == Some(*e),
                None => self.spec_error() is None,
            },
    {
        match self {
            TcpAction::Sleep { attempts: _, error, delay_ms: _ } => Some(error),
            TcpAction::GiveUp { attempts: _, error } => Some(error),
            TcpAction::Accept { aborted } => aborted.as_ref(),
            TcpAction::Stop { error } => Some(error),
            TcpAction::Fail { error } => Some(error),
            _ => None,
        }
    }

    /// The delay to sleep for as text, if sleeping is what the action asks for.
    pub fn delay_text(&self) -> (text: Option<String>)
        ensures
            match text {
                Some(t) => self is Sleep && t@ == delay_text(self->delay_ms as nat),
                None => !(self is Sleep),
            },
    {
        match self {
            TcpAction::Sleep { attempts: _, error: _, delay_ms } => Some(show_delay(*delay_ms)),
            _ => None,
        }
    }

    /// What to log before the action is taken. `laddr` is the text of the
    /// relay's address, `error` that of the action's error; the delay of a retry
    /// is the one that the action asks to sleep for.
    pub fn record(&self, laddr: &str, error: &str) -> (record: Option<Record>)
        ensures
            match record {
                Some(r) => tcp_record(*self, laddr@, error@) == Some(r@),
                None => tcp_record(*self, laddr@, error@) is None,
            },
    {
        match self {
            TcpAction::Sleep { attempts, error: _, delay_ms } => {
                let delay = show_delay(*delay_ms);
                Some(bind_retried(laddr, *attempts, BIND_MAX_RETRY, error, delay.as_str()))
            },
            TcpAction::GiveUp { attempts, error: _ } => Some(
                bind_given_up(laddr, *attempts, error),
            ),
            TcpAction::Accept { aborted: Some(_) } => Some(accept_failed(true, error)),
            TcpAction::Stop { error: _ } => Some(accept_failed(false, error)),
            _ => None,
        }
    }
}

impl<A, R, B, C, K, S> TcpState<A, R, B, C, K, S> {
    /// The count of failed attempts is one that the retries can reach.
    pub open spec fn wf(self) -> bool {
        match self {
            TcpState::Idle(b) => b.retry.failures == 0,
            TcpState::Binding(b) => b.retry.wf(),
            TcpState::Waiting(b) => b.retry.wf() && b.retry.failures > 0,
            _ => true,
        }
    }

    /// The event is an outcome of what this state waits for.
    pub open spec fn accepts<E>(self, event: TcpEvent<K, S, E>) -> bool {
        match self {
            TcpState::Idle(_) => event is Start,
            TcpState::Binding(_) => event is BindResult,
            TcpState::Waiting(_) => event is Slept,
            TcpState::Bound(_) => event is KeepaliveBuilt,
            TcpState::Accepting(_) => event is AcceptResult,
            TcpState::Undelaying { .. } => event is NodelaySet,
            TcpState::Reviving { .. } => event is KeepaliveSet,
            TcpState::Spawning(_) => event is Spawned,
            TcpState::Finished => false,
        }
    }

    /// Whether the relay can take this event next.
    pub fn ready_for<E>(&self, event: &TcpEvent<K, S, E>) -> (ready: bool)
        ensures
            ready == (self.wf() && self.accepts(*event)),
    {
        match (self, event) {
            (TcpState::Idle(b), TcpEvent::Start) => b.retry.failures == 0,
            (TcpState::Binding(b), TcpEvent::BindResult(_)) => b.retry.failures < BIND_MAX_RETRY,
            (TcpState::Waiting(b), TcpEvent::Slept) => 0 < b.retry.failures && b.retry.failures
                < BIND_MAX_RETRY,
            (TcpState::Bound(_), TcpEvent::KeepaliveBuilt(_)) => true,
            (TcpState::Accepting(_), TcpEvent::AcceptResult(_)) => true,
            (TcpState::Undelaying { .. }, TcpEvent::NodelaySet { .. }) => true,
            (TcpState::Reviving { .. }, TcpEvent::KeepaliveSet(_)) => true,
            (TcpState::Spawning(_), TcpEvent::Spawned) => true,
            _ => false,
        }
    }

    /// The connection at hand: accepted, and not yet handed to its task.
    pub open spec fn spec_conn(self) -> Option<S> {
        match self {
            TcpState::Undelaying { conn, .. } => Some(conn),
            TcpState::Reviving { conn, .. } => Some(conn),
            _ => None,
        }
    }

    /// The connection at hand, if there is one.
    pub fn conn(&self) -> (conn: Option<&S>)
        ensures
            match conn {
                Some(c) => self.spec_conn() == Some(*c),
                None => self.spec_conn() is None,
            },
    {
        match self {
            TcpState::Undelaying { listen: _, conn } => Some(conn),
            TcpState::Reviving { listen: _, conn } => Some(conn),
            _ => None,
        }
    }

    /// The relay of `endpoint`, not started yet.
    pub fn new(endpoint: Endpoint<A, R, B, C>) -> (state: TcpState<A, R, B, C, K, S>)
        ensures
            state.wf(),
            state matches TcpState::Idle(b) && {
                &&& b.retry.failures == 0
                &&& *b.laddr == endpoint.laddr
                &&& *b.bind_opts == endpoint.bind_opts
                &&& *b.handles.raddr == endpoint.raddr
                &&& *b.handles.conn_opts == endpoint.conn_opts
                &&& *b.handles.extra_raddrs == endpoint.extra_raddrs
            },
    {
        let Endpoint { laddr, raddr, bind_opts, conn_opts, extra_raddrs } = endpoint;
        TcpState::Idle(
            TcpBind {
                laddr: Arc::new(laddr),
                bind_opts: Arc::new(bind_opts),
                handles: TcpHandles {
                    raddr: Arc::new(raddr),
                    conn_opts: Arc::new(conn_opts),
                    extra_raddrs: Arc::new(extra_raddrs),
                },
                retry: BindRetry::new(),
            },
        )
    }
}

/// The next state and action, for an event that the state accepts.
pub open spec fn tcp_next<A, R, B, C, K, S, E>(
    state: TcpState<A, R, B, C, K, S>,
    event: TcpEvent<K, S, E>,
) -> (TcpState<A, R, B, C, K, S>, TcpAction<A, R, B, C, K, S, E>) {
    match (state, event) {
        (TcpState::Idle(b), TcpEvent::Start) => (
            TcpState::Binding(b),
            TcpAction::Bind { laddr: b.laddr, bind_opts: b.bind_opts },
        ),
        (TcpState::Binding(b), TcpEvent::BindResult(outcome)) => match bind_step(
            b.retry,
            outcome,
        ) {
            BindStep::Bound(_) => (
                TcpState::Bound(b.handles),
                TcpAction::BuildKeepalive { conn_opts: b.handles.conn_opts },
            ),
            BindStep::Retry { retry, error, delay_ms } => (
                TcpState::Waiting(TcpBind { retry, ..b }),
                TcpAction::Sleep { attempts: retry.failures, error, delay_ms },
            ),
            BindStep::Failed { attempts, error } => (
                TcpState::Finished,
                TcpAction::GiveUp { attempts, error },
            ),
        },
        (TcpState::Waiting(b), TcpEvent::Slept) => (
            TcpState::Binding(b),
            TcpAction::Bind { laddr: b.laddr, bind_opts: b.bind_opts },
        ),
        (TcpState::Bound(handles), TcpEvent::KeepaliveBuilt(keepalive)) => (
            TcpState::Accepting(TcpListen { handles, keepalive }),
            TcpAction::Accept { aborted: None },
        ),
        (TcpState::Accepting(listen), TcpEvent::AcceptResult(Ok(conn))) => (
            TcpState::Undelaying { listen, conn },
            TcpAction::SetNodelay,
        ),
        (TcpState::Accepting(listen), TcpEvent::AcceptResult(Err(failure))) => if failure.kind
            == ErrorKind::ConnectionAborted {
            (TcpState::Accepting(listen), TcpAction::Accept { aborted: Some(failure.error) })
        } else {
            (TcpState::Finished, TcpAction::Stop { error: failure.error })
        },
        (TcpState::Undelaying { listen, conn }, TcpEvent::NodelaySet { .. }) => match listen.keepalive {
            Some(keepalive) => (
                TcpState::Reviving { listen, conn },
                TcpAction::SetKeepalive { keepalive },
            ),
            None => (
                TcpState::Spawning(listen),
                TcpAction::Spawn { conn, handles: listen.handles },
            ),
        },
        (TcpState::Reviving { listen, conn }, TcpEvent::KeepaliveSet(result)) => match result {
            Ok(_) => (
                TcpState::Spawning(listen),
                TcpAction::Spawn { conn, handles: listen.handles },
            ),
            Err(error) => (TcpState::Finished, TcpAction::Fail { error }),
        },
        (TcpState::Spawning(listen), TcpEvent::Spawned) => (
            TcpState::Accepting(listen),
            TcpAction::Accept { aborted: None },
        ),
        _ => arbitrary(),
    }
}

fn bind_action<A, R, B, C, K, S, E>(bind: &TcpBind<A, R, B, C>) -> (action: TcpAction<
    A,
    R,
    B,
    C,
    K,
    S,
    E,
>)
    ensures
        action == (TcpAction::<A, R, B, C, K, S, E>::Bind {
            laddr: bind.laddr,
            bind_opts: bind.bind_opts,
        }),
{
    TcpAction::Bind { laddr: share(&bind.laddr), bind_opts: share(&bind.bind_opts) }
}

/// Runs the relay one step further.
///
/// - A taken address is waited for, any other failure to bind is returned.
/// - A connection that was aborted before it could be accepted is passed over;
///   any other failure to accept ends the relay without an error.
/// - A connection whose send delay cannot be switched off is relayed all the
///   same, but one whose keepalive cannot be set ends the relay with the error.
pub fn run_tcp<A, R, B, C, K, S, E>(
    state: TcpState<A, R, B, C, K, S>,
    event: TcpEvent<K, S, E>,
) -> (next: (TcpState<A, R, B, C, K, S>, TcpAction<A, R, B, C, K, S, E>))
    requires
        state.wf(),
        state.accepts(event),
    ensures
        next == tcp_next(state, event),
        next.0.wf(),
{
    match (state, event) {
        (TcpState::Idle(b), TcpEvent::Start) => {
            let action = bind_action(&b);
            (TcpState::Binding(b), action)
        },
        (TcpState::Binding(b), TcpEvent::BindResult(outcome)) => {
            match bind_with_retry(b.retry, outcome) {
                BindStep::Bound(_) => {
                    let conn_opts = share(&b.handles.conn_opts);
                    (TcpState::Bound(b.handles), TcpAction::BuildKeepalive { conn_opts })
                },
                BindStep::Retry { retry, error, delay_ms } => {
                    let waiting = TcpBind { retry, ..b };
                    (
                        TcpState::Waiting(waiting),
                        TcpAction::Sleep { attempts: retry.failures, error, delay_ms },
                    )
                },
                BindStep::Failed { attempts, error } => {
                    (TcpState::Finished, TcpAction::GiveUp { attempts, error })
                },
            }
        },
        (TcpState::Waiting(b), TcpEvent::Slept) => {
            let action = bind_action(&b);
            (TcpState::Binding(b), action)
        },
        (TcpState::Bound(handles), TcpEvent::KeepaliveBuilt(keepalive)) => {
            (
                TcpState::Accepting(TcpListen { handles, keepalive }),
                TcpAction::Accept { aborted: None },
            )
        },
        (TcpState::Accepting(listen), TcpEvent::AcceptResult(accepted)) => {
            match accepted {
                Ok(conn) => (TcpState::Undelaying { listen, conn }, TcpAction::SetNodelay),
                Err(failure) => {
                    if failure.kind == ErrorKind::ConnectionAborted {
                        (
                            TcpState::Accepting(listen),
                            TcpAction::Accept { aborted: Some(failure.error) },
                        )
                    } else {
                        (TcpState::Finished, TcpAction::Stop { error: failure.error })
                    }
                },
            }
        },
        (TcpState::Undelaying { listen, conn }, TcpEvent::NodelaySet { ok: _ }) => {
            match &listen.keepalive {
                Some(keepalive) => {
                    let keepalive = share(keepalive);
                    (TcpState::Reviving { listen, conn }, TcpAction::SetKeepalive { keepalive })
                },
                None => {
                    let handles = listen.handles.share();
                    (TcpState::Spawning(listen), TcpAction::Spawn { conn, handles })
                },
            }
        },
        (TcpState::Reviving { listen, conn }, TcpEvent::KeepaliveSet(result)) => {
            match result {
                Ok(_) => {
                    let handles = listen.handles.share();
                    (TcpState::Spawning(listen), TcpAction::Spawn { conn, handles })
                },
                Err(error) => (TcpState::Finished, TcpAction::Fail { error }),
            }
        },
        (TcpState::Spawning(listen), TcpEvent::Spawned) => (
            TcpState::Accepting(listen),
            TcpAction::Accept { aborted: None },
        ),
        _ => vstd::pervasive::unreached(),
    }
}

/// What a series of events makes of the relay: the state it ends in and the
/// actions it asks for on the way.
pub open spec fn tcp_run<A, R, B, C, K, S, E>(
    state: TcpState<A, R, B, C, K, S>,
    events: Seq<TcpEvent<K, S, E>>,
) -> (TcpState<A, R, B, C, K, S>, Seq<TcpAction<A, R, B, C, K, S, E>>)
    decreases events.len(),
{
    if events.len() == 0 {
        (state, seq![])
    } else {
        let (next, action) = tcp_next(state, events[0]);
        let (end, actions) = tcp_run(next, events.skip(1));
        (end, seq![action] + actions)
    }
}

/// Each event of the series is an outcome of the action before it.
pub open spec fn tcp_accepts<A, R, B, C, K, S, E>(
    state: TcpState<A, R, B, C, K, S>,
    events: Seq<TcpEvent<K, S, E>>,
) -> bool
    decreases events.len(),
{
    events.len() > 0 ==> {
        &&& state.accepts(events[0])
        &&& tcp_accepts(tcp_next(state, events[0]).0, events.skip(1))
    }
}

/// How many of the actions are attempts to bind.
pub open spec fn bind_count<A, R, B, C, K, S, E>(
    actions: Seq<TcpAction<A, R, B, C, K, S, E>>,
) -> nat
    decreases actions.len(),
{
    if actions.len() == 0 {
        0
    } else {
        (if actions[0] is Bind { 1nat } else { 0nat }) + bind_count(actions.skip(1))
    }
}

/// How many attempts to bind are left.
pub open spec fn binds_left<A, R, B, C, K, S>(state: TcpState<A, R, B, C, K, S>) -> int {
    match state {
        TcpState::Idle(_) => BIND_MAX_RETRY as int,
        TcpState::Binding(b) => BIND_MAX_RETRY - 1 - b.retry.failures,
        TcpState::Waiting(b) => BIND_MAX_RETRY - b.retry.failures,
        _ => 0,
    }
}

/// However a relay goes, it attempts to bind no more often than it has attempts
/// left, and never again once it has listened.
pub proof fn binds_are_bounded<A, R, B, C, K, S, E>(
    state: TcpState<A, R, B, C, K, S>,
    events: Seq<TcpEvent<K, S, E>>,
)
    requires
        state.wf(),
        tcp_accepts(state, events),
    ensures
        bind_count(tcp_run(state, events).1) <= binds_left(state) <= BIND_MAX_RETRY,
    decreases events.len(),
{
    if events.len() > 0 {
        let (next, action) = tcp_next(state, events[0]);
        let rest = tcp_run(next, events.skip(1)).1;
        binds_are_bounded(next, events.skip(1));
        assert((seq![action] + rest).skip(1) =~= rest);
        assert((seq![action] + rest)[0] == action);
    }
}

/// The handles that the relay's connections share.
pub open spec fn tcp_handles<A, R, B, C, K, S>(state: TcpState<A, R, B, C, K, S>) -> Option<
    TcpHandles<R, C>,
> {
    match state {
        TcpState::Idle(b) => Some(b.handles),
        TcpState::Binding(b) => Some(b.handles),
        TcpState::Waiting(b) => Some(b.handles),
        TcpState::Bound(handles) => Some(handles),
        TcpState::Accepting(l) => Some(l.handles),
        TcpState::Undelaying { listen, .. } => Some(listen.handles),
        TcpState::Reviving { listen, .. } => Some(listen.handles),
        TcpState::Spawning(l) => Some(l.handles),
        TcpState::Finished => None,
    }
}

/// The address and options that the relay binds with, until it listens.
pub open spec fn tcp_target<A, R, B, C, K, S>(state: TcpState<A, R, B, C, K, S>) -> Option<
    (Arc<A>, Arc<B>),
> {
    match state {
        TcpState::Idle(b) => Some((b.laddr, b.bind_opts)),
        TcpState::Binding(b) => Some((b.laddr, b.bind_opts)),
        TcpState::Waiting(b) => Some((b.laddr, b.bind_opts)),
        _ => None,
    }
}

/// Whatever happens, the relay binds to the address it was made for, with the
/// same options at every attempt, and hands each connection the same remote
/// address, connection options and extra remotes.
pub proof fn endpoint_is_kept<A, R, B, C, K, S, E>(
    state: TcpState<A, R, B, C, K, S>,
    events: Seq<TcpEvent<K, S, E>>,
)
    requires
        tcp_accepts(state, events),
    ensures
        forall|i: int|
            0 <= i < tcp_run(state, events).1.len() ==> match #[trigger] tcp_run(
                state,
                events,
            ).1[i] {
                TcpAction::Bind { laddr, bind_opts } => tcp_target(state) == Some(
                    (laddr, bind_opts),
                ),
                TcpAction::BuildKeepalive { conn_opts } => tcp_handles(state) matches Some(h)
                    && h.conn_opts == conn_opts,
                TcpAction::Spawn { handles, .. } => tcp_handles(state) == Some(handles),
                _ => true,
            },
        tcp_run(state, events).0 is Finished || tcp_handles(tcp_run(state, events).0)
            == tcp_handles(state),
    decreases events.len(),
{
    if events.len() > 0 {
        let (next, action) = tcp_next(state, events[0]);
        let rest = tcp_run(next, events.skip(1)).1;
        endpoint_is_kept(next, events.skip(1));
        reveal_with_fuel(tcp_accepts, 2);
        assert forall|i: int| 0 <= i < tcp_run(state, events).1.len() implies match #[trigger] tcp_run(
            state,
            events,
        ).1[i] {
            TcpAction::Bind { laddr, bind_opts } => tcp_target(state) == Some((laddr, bind_opts)),
            TcpAction::BuildKeepalive { conn_opts } => tcp_handles(state) matches Some(h)
                && h.conn_opts == conn_opts,
            TcpAction::Spawn { handles, .. } => tcp_handles(state) == Some(handles),
            _ => true,
        } by {
            if i > 0 {
                assert(tcp_run(state, events).1[i] == rest[i - 1]);
            }
        }
    }
}

/// The error with which an attempt to bind failed for good.
pub open spec fn bind_given_up_with<A, R, B, C, K, S, E>(
    state: TcpState<A, R, B, C, K, S>,
    event: TcpEvent<K, S, E>,
) -> Option<E> {
    match (state, event) {
        (TcpState::Binding(b), TcpEvent::BindResult(Err(failure))) => if retryable(
            b.retry,
            failure.kind,
        ) {
            None
        } else {
            Some(failure.error)
        },
        _ => None,
    }
}

/// The error with which setting a keepalive failed.
pub open spec fn keepalive_refused<K, S, E>(event: TcpEvent<K, S, E>) -> Option<E> {
    match event {
        TcpEvent::KeepaliveSet(Err(error)) => Some(error),
        _ => None,
    }
}

/// The error with which accepting failed, if not because a connection was
/// aborted.
pub open spec fn accepting_failed<K, S, E>(event: TcpEvent<K, S, E>) -> Option<E> {
    match event {
        TcpEvent::AcceptResult(Err(failure)) => if failure.kind == ErrorKind::ConnectionAborted {
            None
        } else {
            Some(failure.error)
        },
        _ => None,
    }
}

/// The relay ends exactly for one of three reasons: an attempt to bind failed
/// and may not be repeated, a keepalive could not be set, or accepting failed
/// with anything but an aborted connection. The first two return the error
/// itself, the first with the number of attempts; the third returns none.
pub proof fn ends_for_a_reason<A, R, B, C, K, S, E>(
    state: TcpState<A, R, B, C, K, S>,
    event: TcpEvent<K, S, E>,
)
    requires
        state.wf(),
        state.accepts(event),
    ensures
        match tcp_next(state, event) {
            (next, TcpAction::GiveUp { attempts, error }) => {
                &&& next is Finished
                &&& bind_given_up_with(state, event) == Some(error)
                &&& state matches TcpState::Binding(b)
                &&& attempts == b.retry.failures + 1
            },
            (next, TcpAction::Fail { error }) => next is Finished && keepalive_refused(event)
                == Some(error),
            (next, TcpAction::Stop { error }) => next is Finished && accepting_failed(event)
                == Some(error),
            (next, _) => {
                &&& !(next is Finished)
                &&& bind_given_up_with(state, event) is None
                &&& keepalive_refused(event) is None
                &&& accepting_failed(event) is None
            },
        },
{
}

/// Every failure to bind or to accept is logged, once and just as grave as it
/// is: with a warning if the relay goes on, with an error if it ends. The record
/// on a failure to bind counts the attempts, the failed one with them, and the
/// delay it names is the one that is slept, which is less than a second. Nothing
/// else is logged, not even a keepalive that could not be set.
pub proof fn failures_are_logged<A, R, B, C, K, S, E>(
    state: TcpState<A, R, B, C, K, S>,
    event: TcpEvent<K, S, E>,
    laddr: Seq<char>,
    error: Seq<char>,
)
    requires
        state.wf(),
        state.accepts(event),
    ensures
        ({
            let (next, action) = tcp_next(state, event);
            let severity = if next is Finished {
                Severity::Error
            } else {
                Severity::Warn
            };
            let logged = tcp_record(action, laddr, error);
            match (state, event) {
                (TcpState::Binding(b), TcpEvent::BindResult(Err(failure))) => {
                    let attempts = b.retry.failures as nat + 1;
                    let message = if next is Finished {
                        bind_given_up_text(laddr, attempts, error)
                    } else {
                        bind_retried_text(
                            laddr,
                            attempts,
                            5,
                            error,
                            delay_text(100 * attempts),
                        )
                    };
                    &&& logged == Some(RecordView { severity, message })
                    &&& action.spec_error() == Some(failure.error)
                    &&& action matches TcpAction::Sleep { delay_ms, .. } ==> delay_ms == 100
                        * attempts < 1000
                },
                (TcpState::Accepting(_), TcpEvent::AcceptResult(Err(failure))) => {
                    &&& logged == Some(RecordView { severity, message: accept_failed_text(error) })
                    &&& action.spec_error() == Some(failure.error)
                },
                _ => logged is None,
            }
        }),
{
}

/// An action is logged if it answers a failure to bind or to accept, and not
/// otherwise. How grave the record is goes by what follows: a wait or one more
/// connection is a warning, the end of the relay an error. It names the attempts
/// and the delay of the action itself.
pub proof fn records_speak_of_their_actions<A, R, B, C, K, S, E>(
    action: TcpAction<A, R, B, C, K, S, E>,
    laddr: Seq<char>,
    error: Seq<char>,
)
    ensures
        match tcp_record(action, laddr, error) {
            Some(record) => match action {
                TcpAction::Sleep { attempts, delay_ms, .. } => {
                    &&& record.severity == Severity::Warn
                    &&& record.message == bind_retried_text(
                        laddr,
                        attempts as nat,
                        5,
                        error,
                        delay_text(delay_ms as nat),
                    )
                },
                TcpAction::GiveUp { attempts, .. } => {
                    &&& record.severity == Severity::Error
                    &&& record.message == bind_given_up_text(laddr, attempts as nat, error)
                },
                TcpAction::Accept { aborted } => {
                    &&& aborted is Some
                    &&& record.severity == Severity::Warn
                    &&& record.message == accept_failed_text(error)
                },
                TcpAction::Stop { .. } => {
                    &&& record.severity == Severity::Error
                    &&& record.message == accept_failed_text(error)
                },
                _ => false,
            },
            None => match action {
                TcpAction::Accept { aborted } => aborted is None,
                TcpAction::Sleep { .. } => false,
                TcpAction::GiveUp { .. } => false,
                TcpAction::Stop { .. } => false,
                _ => true,
            },
        },
{
}

/// The error of an action is the one it carries, and only an action that carries
/// one has any.
pub proof fn actions_keep_their_errors<A, R, B, C, K, S, E>(
    action: TcpAction<A, R, B, C, K, S, E>,
)
    ensures
        match (action.spec_error(), action) {
            (Some(e), TcpAction::Sleep { error, .. }) => e == error,
            (Some(e), TcpAction::GiveUp { error, .. }) => e == error,
            (Some(e), TcpAction::Accept { aborted }) => aborted == Some(e),
            (Some(e), TcpAction::Stop { error }) => e == error,
            (Some(e), TcpAction::Fail { error }) => e == error,
            (Some(_), _) => false,
            (None, TcpAction::Accept { aborted }) => aborted is None,
            (None, TcpAction::Sleep { .. }) => false,
            (None, TcpAction::GiveUp { .. }) => false,
            (None, TcpAction::Stop { .. }) => false,
            (None, TcpAction::Fail { .. }) => false,
            (None, _) => true,
        },
{
}

/// A connection is at hand exactly while it is being prepared, and it is the one
/// that the relay holds then.
pub proof fn connection_is_at_hand_while_prepared<A, R, B, C, K, S>(
    state: TcpState<A, R, B, C, K, S>,
)
    ensures
        match state {
            TcpState::Undelaying { conn, .. } => state.spec_conn() == Some(conn),
            TcpState::Reviving { conn, .. } => state.spec_conn() == Some(conn),
            _ => state.spec_conn() is None,
        },
{
}

/// A connection that was aborted before it was accepted does no harm: any number
/// of them in a row and the relay still waits for a connection, as before, with
/// the error of each at hand to be logged.
pub proof fn aborted_connections_are_passed_over<A, R, B, C, K, S, E>(
    l: TcpListen<R, C, K>,
    errors: Seq<E>,
)
    ensures
        ({
            let state = TcpState::<A, R, B, C, K, S>::Accepting(l);
            let events = aborted::<K, S, E>(errors);
            &&& tcp_accepts(state, events)
            &&& tcp_run(state, events).0 == state
            &&& tcp_run(state, events).1 == Seq::new(
                errors.len(),
                |i: int| TcpAction::<A, R, B, C, K, S, E>::Accept { aborted: Some(errors[i]) },
            )
        }),
    decreases errors.len(),
{
    let state = TcpState::<A, R, B, C, K, S>::Accepting(l);
    let events = aborted::<K, S, E>(errors);
    if errors.len() > 0 {
        let tail = errors.skip(1);
        aborted_connections_are_passed_over::<A, R, B, C, K, S, E>(l, tail);
        assert(events.skip(1) =~= aborted::<K, S, E>(tail));
        assert(forall|i: int| 0 <= i < tail.len() ==> tail[i] == errors[i + 1]);
    }
    assert(tcp_run(state, events).1 =~= Seq::new(
        errors.len(),
        |i: int| TcpAction::<A, R, B, C, K, S, E>::Accept { aborted: Some(errors[i]) },
    ));
}

/// The events of connections that are aborted before they can be accepted.
pub open spec fn aborted<K, S, E>(errors: Seq<E>) -> Seq<TcpEvent<K, S, E>> {
    Seq::new(
        errors.len(),
        |i: int|
            TcpEvent::AcceptResult(
                Err(Failure { kind: ErrorKind::ConnectionAborted, error: errors[i] }),
            ),
    )
}

/// The events of a connection that is accepted and prepared without a failure
/// that counts.
pub open spec fn served<K, S, E>(
    keepalive: Option<Arc<K>>,
    conn: S,
    nodelay_ok: bool,
) -> Seq<TcpEvent<K, S, E>> {
    seq![TcpEvent::AcceptResult(Ok(conn)), TcpEvent::NodelaySet { ok: nodelay_ok }] + (
    if keepalive is Some {
        seq![TcpEvent::KeepaliveSet(Ok(()))]
    } else {
        seq![]
    }) + seq![TcpEvent::Spawned]
}

/// Every accepted connection, and no other in its place, is relayed with the
/// relay's handles, and the relay then waits for the next one in the state it
/// was in. That holds whether its send delay could be switched off or not; its
/// keepalive is set, exactly once, if and only if the options ask for one.
pub proof fn accepted_connections_are_relayed<A, R, B, C, K, S, E>(
    l: TcpListen<R, C, K>,
    conn: S,
    nodelay_ok: bool,
)
    ensures
        ({
            let state = TcpState::<A, R, B, C, K, S>::Accepting(l);
            let events = served::<K, S, E>(l.keepalive, conn, nodelay_ok);
            &&& tcp_accepts(state, events)
            &&& tcp_run(state, events).0 == state
            &&& tcp_run(state, events).1 == seq![
                TcpAction::<A, R, B, C, K, S, E>::SetNodelay,
            ] + (match l.keepalive {
                Some(keepalive) => seq![
                    TcpAction::<A, R, B, C, K, S, E>::SetKeepalive { keepalive },
                ],
                None => seq![],
            }) + seq![
                TcpAction::<A, R, B, C, K, S, E>::Spawn { conn, handles: l.handles },
                TcpAction::<A, R, B, C, K, S, E>::Accept { aborted: None },
            ]
        }),
{
    let state = TcpState::<A, R, B, C, K, S>::Accepting(l);
    let events = served::<K, S, E>(l.keepalive, conn, nodelay_ok);
    let e1 = events.skip(1);
    let e2 = e1.skip(1);
    let e3 = e2.skip(1);
    reveal_with_fuel(tcp_run, 6);
    reveal_with_fuel(tcp_accepts, 6);
    if l.keepalive is Some {
        assert(events[0] == TcpEvent::<K, S, E>::AcceptResult(Ok(conn)));
        assert(e1[0] == TcpEvent::<K, S, E>::NodelaySet { ok: nodelay_ok });
        assert(e2[0] == TcpEvent::<K, S, E>::KeepaliveSet(Ok(())));
        assert(e3[0] == TcpEvent::<K, S, E>::Spawned);
        assert(e3.skip(1).len() == 0);
        assert(tcp_run(state, events).1 =~= seq![
            TcpAction::<A, R, B, C, K, S, E>::SetNodelay,
            TcpAction::<A, R, B, C, K, S, E>::SetKeepalive { keepalive: l.keepalive->0 },
            TcpAction::<A, R, B, C, K, S, E>::Spawn { conn, handles: l.handles },
            TcpAction::<A, R, B, C, K, S, E>::Accept { aborted: None },
        ]);
    } else {
        assert(events[0] == TcpEvent::<K, S, E>::AcceptResult(Ok(conn)));
        assert(e1[0] == TcpEvent::<K, S, E>::NodelaySet { ok: nodelay_ok });
        assert(e2[0] == TcpEvent::<K, S, E>::Spawned);
        assert(e3.len() == 0);
        assert(tcp_run(state, events).1 =~= seq![
            TcpAction::<A, R, B, C, K, S, E>::SetNodelay,
            TcpAction::<A, R, B, C, K, S, E>::Spawn { conn, handles: l.handles },
            TcpAction::<A, R, B, C, K, S, E>::Accept { aborted: None },
        ]);
    }
}

/// No connection takes the place of another: the one at hand is the one that was
/// accepted last, and it is the one that is relayed.
pub proof fn connection_at_hand_is_the_accepted_one<A, R, B, C, K, S, E>(
    state: TcpState<A, R, B, C, K, S>,
    event: TcpEvent<K, S, E>,
)
    requires
        state.accepts(event),
    ensures
        tcp_next(state, event).1 matches TcpAction::Spawn { conn, .. } ==> state.spec_conn()
            == Some(conn),
        tcp_next(state, event).0.spec_conn() matches Some(conn) ==> event == TcpEvent::<
            K,
            S,
            E,
        >::AcceptResult(Ok(conn)) || state.spec_conn() == Some(conn),
        event matches TcpEvent::AcceptResult(Ok(conn)) ==> tcp_next(state, event).0.spec_conn()
            == Some(conn),
{
}

/// A run goes on where it was broken off: what a series of events comes to is
/// what its second part makes of the state that the first one ends in.
pub proof fn tcp_run_in_parts<A, R, B, C, K, S, E>(
    state: TcpState<A, R, B, C, K, S>,
    first: Seq<TcpEvent<K, S, E>>,
    second: Seq<TcpEvent<K, S, E>>,
)
    ensures
        ({
            let run = tcp_run(state, first);
            let rest = tcp_run(run.0, second);
            &&& tcp_accepts(state, first + second) <==> tcp_accepts(state, first) && tcp_accepts(
                run.0,
                second,
            )
            &&& tcp_run(state, first + second) == (rest.0, run.1 + rest.1)
        }),
    decreases first.len(),
{
    let all = first + second;
    let run = tcp_run(state, first);
    if first.len() == 0 {
        assert(all =~= second);
        assert(run.1 + tcp_run(state, second).1 =~= tcp_run(state, second).1);
    } else {
        tcp_run_in_parts(tcp_next(state, first[0]).0, first.skip(1), second);
        assert(all.skip(1) =~= first.skip(1) + second);
        assert(all[0] == first[0]);
        assert(tcp_run(state, all).1 =~= run.1 + tcp_run(run.0, second).1);
    }
}

/// The connections that were accepted, in order.
pub open spec fn accepted_conns<K, S, E>(events: Seq<TcpEvent<K, S, E>>) -> Seq<S>
    decreases events.len(),
{
    if events.len() == 0 {
        seq![]
    } else {
        (match events[0] {
            TcpEvent::AcceptResult(Ok(conn)) => seq![conn],
            _ => seq![],
        }) + accepted_conns(events.skip(1))
    }
}

/// The connections that are to be relayed, in order.
pub open spec fn relayed_conns<A, R, B, C, K, S, E>(
    actions: Seq<TcpAction<A, R, B, C, K, S, E>>,
) -> Seq<S>
    decreases actions.len(),
{
    if actions.len() == 0 {
        seq![]
    } else {
        (match actions[0] {
            TcpAction::Spawn { conn, .. } => seq![conn],
            _ => seq![],
        }) + relayed_conns(actions.skip(1))
    }
}

/// The connection at hand, as the sequence of it alone.
pub open spec fn conn_at_hand<A, R, B, C, K, S>(state: TcpState<A, R, B, C, K, S>) -> Seq<S> {
    match state.spec_conn() {
        Some(conn) => seq![conn],
        None => seq![],
    }
}

/// The relay ended because a keepalive could not be set.
pub open spec fn ended_by_keepalive<A, R, B, C, K, S, E>(
    actions: Seq<TcpAction<A, R, B, C, K, S, E>>,
) -> bool {
    actions.len() > 0 && actions.last() is Fail
}

/// Over a whole run, the connections that are relayed are those that were
/// accepted: each once, in the order in which they came, and no other. The one
/// that is still at hand in the end is yet to be relayed. The only connection
/// that is never relayed is the one whose keepalive could not be set, and with
/// that the run is over.
pub proof fn relayed_are_the_accepted<A, R, B, C, K, S, E>(
    state: TcpState<A, R, B, C, K, S>,
    events: Seq<TcpEvent<K, S, E>>,
)
    requires
        tcp_accepts(state, events),
    ensures
        ({
            let (end, actions) = tcp_run(state, events);
            let came = conn_at_hand(state) + accepted_conns(events);
            if ended_by_keepalive(actions) {
                came.len() > 0 && relayed_conns(actions) == came.drop_last()
            } else {
                relayed_conns(actions) + conn_at_hand(end) == came
            }
        }),
    decreases events.len(),
{
    let (end, actions) = tcp_run(state, events);
    let came = conn_at_hand(state) + accepted_conns(events);
    if events.len() == 0 {
        assert(relayed_conns(actions) + conn_at_hand(end) =~= came);
    } else {
        let (next, action) = tcp_next(state, events[0]);
        let tail = events.skip(1);
        let rest = tcp_run(next, tail).1;
        assert(actions.skip(1) =~= rest);
        if action is Fail {
            reveal_with_fuel(tcp_accepts, 2);
            assert(relayed_conns(rest) =~= seq![]);
            assert(accepted_conns(tail) =~= seq![]);
            assert(relayed_conns(actions) =~= came.drop_last());
        } else {
            relayed_are_the_accepted(next, tail);
            let came_later = conn_at_hand(next) + accepted_conns(tail);
            if rest.len() > 0 {
                assert(actions.last() == rest.last());
            }
            let relayed: Seq<S> = match action {
                TcpAction::Spawn { conn, .. } => seq![conn],
                _ => seq![],
            };
            assert(came =~= relayed + came_later);
            if ended_by_keepalive(actions) {
                assert(relayed_conns(actions) =~= came.drop_last());
            } else {
                assert(relayed_conns(actions) + conn_at_hand(end) =~= came);
            }
        }
    }
}

/// The event is a connection that was aborted before it could be accepted.
pub open spec fn is_aborted<K, S, E>(event: TcpEvent<K, S, E>) -> bool {
    event matches TcpEvent::AcceptResult(Err(failure)) && failure.kind
        == ErrorKind::ConnectionAborted
}

/// The events but for the connections that were aborted.
pub open spec fn without_aborted<K, S, E>(events: Seq<TcpEvent<K, S, E>>) -> Seq<TcpEvent<K, S, E>>
    decreases events.len(),
{
    if events.len() == 0 {
        seq![]
    } else if is_aborted(events[0]) {
        without_aborted(events.skip(1))
    } else {
        seq![events[0]] + without_aborted(events.skip(1))
    }
}

/// The actions but for those that accept once more after an aborted connection.
pub open spec fn without_repeats<A, R, B, C, K, S, E>(
    actions: Seq<TcpAction<A, R, B, C, K, S, E>>,
) -> Seq<TcpAction<A, R, B, C, K, S, E>>
    decreases actions.len(),
{
    if actions.len() == 0 {
        seq![]
    } else if actions[0] matches TcpAction::Accept { aborted: Some(_) } {
        without_repeats(actions.skip(1))
    } else {
        seq![actions[0]] + without_repeats(actions.skip(1))
    }
}

/// Aborted connections, however many and wherever they come in a run, change
/// nothing but that the relay accepts once more after each: without them it
/// would end in the same state, by the same actions.
pub proof fn aborted_connections_change_nothing<A, R, B, C, K, S, E>(
    state: TcpState<A, R, B, C, K, S>,
    events: Seq<TcpEvent<K, S, E>>,
)
    requires
        tcp_accepts(state, events),
    ensures
        ({
            let run = tcp_run(state, events);
            &&& tcp_accepts(state, without_aborted(events))
            &&& tcp_run(state, without_aborted(events)) == (run.0, without_repeats(run.1))
        }),
    decreases events.len(),
{
    if events.len() > 0 {
        let (next, action) = tcp_next(state, events[0]);
        let tail = events.skip(1);
        let rest = tcp_run(next, tail).1;
        let kept = without_aborted(events);
        aborted_connections_change_nothing(next, tail);
        assert(tcp_run(state, events).1.skip(1) =~= rest);
        if !is_aborted(events[0]) {
            assert(kept.skip(1) =~= without_aborted(tail));
            assert(kept[0] == events[0]);
        }
    }
}

/// Aborted connections can come wherever the relay waits for one: it then goes
/// on as it would have done without them.
pub proof fn aborted_connections_can_come_between<A, R, B, C, K, S, E>(
    state: TcpState<A, R, B, C, K, S>,
    before: Seq<TcpEvent<K, S, E>>,
    errors: Seq<E>,
    after: Seq<TcpEvent<K, S, E>>,
)
    requires
        tcp_accepts(state, before + after),
        tcp_run(state, before).0 is Accepting,
    ensures
        ({
            let run = tcp_run(state, before);
            let rest = tcp_run(run.0, after);
            let events = before + aborted::<K, S, E>(errors) + after;
            &&& tcp_accepts(state, events)
            &&& tcp_run(state, before + after) == (rest.0, run.1 + rest.1)
            &&& tcp_run(state, events) == (
                rest.0,
                run.1 + Seq::new(
                    errors.len(),
                    |i: int| TcpAction::<A, R, B, C, K, S, E>::Accept { aborted: Some(errors[i]) },
                ) + rest.1,
            )
        }),
{
    let middle = aborted::<K, S, E>(errors);
    let listen = tcp_run(state, before).0->Accepting_0;
    tcp_run_in_parts(state, before, after);
    tcp_run_in_parts(state, before, middle);
    tcp_run_in_parts(state, before + middle, after);
    aborted_connections_are_passed_over::<A, R, B, C, K, S, E>(listen, errors);
}

/// The events of a series of attempts to bind, with a sleep between each two.
pub open spec fn attempts<K, S, E>(outcomes: Seq<Result<(), Failure<E>>>) -> Seq<
    TcpEvent<K, S, E>,
>
    decreases outcomes.len(),
{
    if outcomes.len() == 0 {
        seq![]
    } else if outcomes.len() == 1 {
        seq![TcpEvent::BindResult(outcomes[0])]
    } else {
        seq![TcpEvent::BindResult(outcomes[0]), TcpEvent::Slept] + attempts(outcomes.skip(1))
    }
}

/// The delays that the actions ask to sleep for, in order.
pub open spec fn sleeps<A, R, B, C, K, S, E>(
    actions: Seq<TcpAction<A, R, B, C, K, S, E>>,
) -> Seq<u64>
    decreases actions.len(),
{
    if actions.len() == 0 {
        seq![]
    } else {
        (match actions[0] {
            TcpAction::Sleep { delay_ms, .. } => seq![delay_ms],
            _ => seq![],
        }) + sleeps(actions.skip(1))
    }
}

/// A relay that meets taken addresses until one attempt decides goes through
/// the series of attempts of the retry rule: it sleeps the same waits, then
/// goes on to listen or returns the error of the deciding attempt.
pub proof fn binding_follows_the_retries<A, R, B, C, K, S, E>(
    b: TcpBind<A, R, B, C>,
    outcomes: Seq<Result<(), Failure<E>>>,
)
    requires
        b.retry.wf(),
        outcomes.len() > 0,
        b.retry.failures + outcomes.len() <= BIND_MAX_RETRY,
        forall|i: int| 0 <= i < outcomes.len() - 1 ==> address_taken(#[trigger] outcomes[i]),
        !address_taken(outcomes.last()) || b.retry.failures + outcomes.len() == BIND_MAX_RETRY,
    ensures
        ({
            let state = TcpState::<A, R, B, C, K, S>::Binding(b);
            let events = attempts::<K, S, E>(outcomes);
            let run = tcp_run(state, events);
            &&& tcp_accepts(state, events)
            &&& sleeps(run.1) == bind_run(b.retry, outcomes).delays
            &&& run.1.len() > 0
            &&& match outcomes.last() {
                Ok(_) => {
                    &&& run.0 == TcpState::<A, R, B, C, K, S>::Bound(b.handles)
                    &&& run.1.last() == (TcpAction::<A, R, B, C, K, S, E>::BuildKeepalive {
                        conn_opts: b.handles.conn_opts,
                    })
                },
                Err(failure) => {
                    &&& run.0 is Finished
                    &&& run.1.last() == (TcpAction::<A, R, B, C, K, S, E>::GiveUp {
                        attempts: (b.retry.failures + outcomes.len()) as u32,
                        error: failure.error,
                    })
                },
            }
        }),
    decreases outcomes.len(),
{
    let state = TcpState::<A, R, B, C, K, S>::Binding(b);
    let events = attempts::<K, S, E>(outcomes);
    reveal_with_fuel(tcp_run, 3);
    reveal_with_fuel(tcp_accepts, 3);
    reveal_with_fuel(sleeps, 3);
    let run = tcp_run(state, events);
    if outcomes.len() == 1 {
        assert(events[0] == TcpEvent::<K, S, E>::BindResult(outcomes[0]));
        assert(events.skip(1).len() == 0);
        assert(run.1.skip(1) =~= seq![]);
        assert(sleeps(run.1) =~= bind_run(b.retry, outcomes).delays);
    } else {
        assert(address_taken(outcomes[0]));
        let tail = outcomes.skip(1);
        let next = TcpBind { retry: BindRetry { failures: (b.retry.failures + 1) as u32 }, ..b };
        assert forall|i: int| 0 <= i < tail.len() - 1 implies address_taken(
            #[trigger] tail[i],
        ) by {
            assert(tail[i] == outcomes[i + 1]);
        }
        assert(tail.last() == outcomes.last());
        binding_follows_the_retries::<A, R, B, C, K, S, E>(next, tail);
        let rest = tcp_run(TcpState::<A, R, B, C, K, S>::Binding(next), attempts::<K, S, E>(tail));
        assert(events[0] == TcpEvent::<K, S, E>::BindResult(outcomes[0]));
        assert(events.skip(1)[0] == TcpEvent::<K, S, E>::Slept);
        assert(events.skip(1).skip(1) =~= attempts::<K, S, E>(tail));
        assert(run.1.skip(1).skip(1) =~= rest.1);
        assert(run.1.skip(1)[0] is Bind);
        assert(sleeps(run.1) =~= bind_run(b.retry, outcomes).delays);
        assert(run.1.last() == rest.1.last());
    }
}

} // verus!
