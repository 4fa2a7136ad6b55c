//! The life of the process once it is set up: build the endpoints, serve them,
//! tear everything down, and start over if that is what was asked for.

use vstd::prelude::*;

use std::sync::Arc;

use crate::endpoint::share;
use crate::report::{hangup_panic, hangup_panic_text, notice, topic_text, Topic};
use crate::startup::{Features, ReloadCtx};
use crate::workers::{action_after, worker_plan};
use crate::workers::{plan_workers, serve_outcome, watches_hangup};
use crate::workers::{Action, EndpointInfo, ServeEnd, Worker};

verus! {

/// The kind of runtime that the relays run on.
#[derive(Clone, Copy, Debug, PartialEq, Eq, Structural)]
pub enum Flavor {
    MultiThread,
    CurrentThread,
}

/// A runtime to build.
#[derive(Clone, Copy, Debug, PartialEq, Eq, Structural)]
pub struct RuntimePlan {
    pub flavor: Flavor,
    /// It drives sockets and signals.
    pub io: bool,
    /// It drives timers.
    pub time: bool,
}

/// How long the teardown waits for relays that are still at work: not at all.
pub const SHUTDOWN_TIMEOUT_MS: u64 = 0;

/// What the supervisor waits for.
#[derive(Debug, PartialEq, Eq)]
pub enum Phase<N, E> {
    /// To be started.
    Idle,
    /// An endpoint to be built from its configuration. `todo` are the ones after
    /// it, `built` the ones before.
    Building { todo: Vec<N>, built: Vec<EndpointInfo<E>> },
    /// The last of `built` to be announced.
    Announcing { todo: Vec<N>, built: Vec<EndpointInfo<E>> },
    /// A runtime to be there for all that are built.
    Starting { built: Vec<EndpointInfo<E>> },
    /// The relays to come to an end, or a hang-up signal.
    Serving,
    /// The runtime to be gone.
    TearingDown(Action),
    /// The reload to be announced.
    AnnouncingReload,
    /// The configuration to be read again.
    Reloading,
    /// Nothing any more.
    Stopped,
}

/// The supervisor. `reload` is what a reload starts from, if there can be one.
#[derive(Debug, PartialEq, Eq)]
pub struct Supervisor<N, E, O> {
    pub features: Features,
    pub reload: Option<Arc<ReloadCtx<O>>>,
    pub phase: Phase<N, E>,
}

/// What happened.
#[derive(Debug, PartialEq, Eq)]
pub enum SupervisorEvent<N, E, X> {
    /// The process is set up; these are its endpoints.
    Start(Vec<N>),
    /// An endpoint is built; `shown` is how it is shown to the user.
    Built { info: EndpointInfo<E>, shown: String },
    Announced,
    RuntimeReady,
    RuntimeFailed(X),
    Served(ServeEnd),
    /// The hang-up signal cannot be listened for.
    HangupFailed(X),
    TornDown,
    /// The configuration was read again; these are its endpoints.
    Reloaded(Vec<N>),
}

/// What to do next.
#[derive(Debug, PartialEq, Eq)]
pub enum SupervisorAction<N, E, O, X> {
    /// Build the endpoint.
    Build(N),
    /// Write the line to standard output.
    Announce(String),
    /// Build a new runtime.
    StartRuntime(RuntimePlan),
    /// Start these workers on the runtime, and wait until all of them are done
    /// or, where it is watched for, a hang-up comes.
    Serve { endpoints: Vec<EndpointInfo<E>>, workers: Vec<Worker>, watch_hangup: bool },
    /// Shut the runtime down, with every relay that is left on it.
    TearDown { timeout_ms: u64 },
    /// Read the configuration again.
    Reload(Arc<ReloadCtx<O>>),
    /// Return.
    Stop,
    /// Panic: there is no runtime to serve on.
    Abort(X),
    /// Panic, with the words of [`SupervisorAction::panic_text`], and give the
    /// serving up with that: the hang-up that should be listened for cannot be.
    AbortServing(X),
}

/// A phase with its lists as sequences.
pub enum PhaseView<N, E> {
    Idle,
    Building { todo: Seq<N>, built: Seq<EndpointInfo<E>> },
    Announcing { todo: Seq<N>, built: Seq<EndpointInfo<E>> },
    Starting { built: Seq<EndpointInfo<E>> },
    Serving,
    TearingDown(Action),
    AnnouncingReload,
    Reloading,
    Stopped,
}

/// A supervisor with the lists of its phase as sequences.
pub struct SupervisorView<N, E, O> {
    pub features: Features,
    pub reload: Option<Arc<ReloadCtx<O>>>,
    pub phase: PhaseView<N, E>,
}

/// An event with its lists and texts as sequences.
pub enum EventView<N, E, X> {
    Start(Seq<N>),
    Built { info: EndpointInfo<E>, shown: Seq<char> },
    Announced,
    RuntimeReady,
    RuntimeFailed(X),
    Served(ServeEnd),
    HangupFailed(X),
    TornDown,
    Reloaded(Seq<N>),
}

/// An action with its lists and texts as sequences.
pub enum ActionView<N, E, O, X> {
    Build(N),
    Announce(Seq<char>),
    StartRuntime(RuntimePlan),
    Serve { endpoints: Seq<EndpointInfo<E>>, workers: Seq<Worker>, watch_hangup: bool },
    TearDown { timeout_ms: u64 },
    Reload(Arc<ReloadCtx<O>>),
    Stop,
    Abort(X),
    AbortServing(X),
}

impl<N, E> View for Phase<N, E> {
    type V = PhaseView<N, E>;

    open spec fn view(&self) -> PhaseView<N, E> {
        match *self {
            Phase::Idle => PhaseView::Idle,
            Phase::Building { todo, built } => PhaseView::Building { todo: todo@, built: built@ },
            Phase::Announcing { todo, built } => PhaseView::Announcing {
                todo: todo@,
                built: built@,
            },
            Phase::Starting { built } => PhaseView::Starting { built: built@ },
            Phase::Serving => PhaseView::Serving,
            Phase::TearingDown(action) => PhaseView::TearingDown(action),
            Phase::AnnouncingReload => PhaseView::AnnouncingReload,
            Phase::Reloading => PhaseView::Reloading,
            Phase::Stopped => PhaseView::Stopped,
        }
    }
}

impl<N, E, O> View for Supervisor<N, E, O> {
    type V = SupervisorView<N, E, O>;

    open spec fn view(&self) -> SupervisorView<N, E, O> {
        SupervisorView { features: self.features, reload: self.reload, phase: self.phase@ }
    }
}

impl<N, E, X> View for SupervisorEvent<N, E, X> {
    type V = EventView<N, E, X>;

    open spec fn view(&self) -> EventView<N, E, X> {
        match *self {
            SupervisorEvent::Start(confs) => EventView::Start(confs@),
            SupervisorEvent::Built { info, shown } => EventView::Built { info, shown: shown@ },
            SupervisorEvent::Announced => EventView::Announced,
            SupervisorEvent::RuntimeReady => EventView::RuntimeReady,
            SupervisorEvent::RuntimeFailed(error) => EventView::RuntimeFailed(error),
            SupervisorEvent::Served(end) => EventView::Served(end),
            SupervisorEvent::HangupFailed(error) => EventView::HangupFailed(error),
            SupervisorEvent::TornDown => EventView::TornDown,
            SupervisorEvent::Reloaded(confs) => EventView::Reloaded(confs@),
        }
    }
}

impl<N, E, O, X> View for SupervisorAction<N, E, O, X> {
    type V = ActionView<N, E, O, X>;

    open spec fn view(&self) -> ActionView<N, E, O, X> {
        match *self {
            SupervisorAction::Build(conf) => ActionView::Build(conf),
            SupervisorAction::Announce(line) => ActionView::Announce(line@),
            SupervisorAction::StartRuntime(plan) => ActionView::StartRuntime(plan),
            SupervisorAction::Serve { endpoints, workers, watch_hangup } => ActionView::Serve {
                endpoints: endpoints@,
                workers: workers@,
                watch_hangup,
            },
            SupervisorAction::TearDown { timeout_ms } => ActionView::TearDown { timeout_ms },
            SupervisorAction::Reload(ctx) => ActionView::Reload(ctx),
            SupervisorAction::Stop => ActionView::Stop,
            SupervisorAction::Abort(error) => ActionView::Abort(error),
            SupervisorAction::AbortServing(error) => ActionView::AbortServing(error),
        }
    }
}

impl<N, E, O, X> SupervisorAction<N, E, O, X> {
    /// The words to panic with when serving is given up. `error` is the action's
    /// error as it is shown for debugging.
    pub fn panic_text(&self, error: &str) -> (text: Option<String>)
        ensures
            match text {
                Some(t) => self is AbortServing && t@ == hangup_panic_text(error@),
                None => !(self is AbortServing),
            },
    {
        match self {
            SupervisorAction::AbortServing(_) => Some(hangup_panic(error)),
            _ => None,
        }
    }
}

impl<N, E, O> SupervisorView<N, E, O> {
    /// A reload is under way only if there is something to reload from.
    pub open spec fn wf(self) -> bool {
        match self.phase {
            PhaseView::TearingDown(action) => action == Action::Reload ==> self.reload is Some,
            PhaseView::AnnouncingReload => self.reload is Some,
            PhaseView::Reloading => self.reload is Some,
            _ => true,
        }
    }

    /// A hang-up signal is listened for while serving.
    pub open spec fn watching(self) -> bool {
        self.reload is Some && self.features.unix
    }

    /// The event is an outcome of what the supervisor waits for.
    pub open spec fn accepts<X>(self, event: EventView<N, E, X>) -> bool {
        match self.phase {
            PhaseView::Idle => event is Start,
            PhaseView::Building { .. } => event is Built,
            PhaseView::Announcing { .. } => event is Announced,
            PhaseView::Starting { .. } => event is RuntimeReady || event is RuntimeFailed,
            PhaseView::Serving => match event {
                EventView::Served(end) => end == ServeEnd::HangUp ==> self.watching(),
                EventView::HangupFailed(_) => self.watching(),
                _ => false,
            },
            PhaseView::TearingDown(_) => event is TornDown,
            PhaseView::AnnouncingReload => event is Announced,
            PhaseView::Reloading => event is Reloaded,
            PhaseView::Stopped => false,
        }
    }

    /// The supervisor in another phase.
    pub open spec fn with_phase(self, phase: PhaseView<N, E>) -> SupervisorView<N, E, O> {
        SupervisorView { phase, ..self }
    }
}

/// The runtime that the build asks for.
pub open spec fn runtime_of(features: Features) -> RuntimePlan {
    RuntimePlan {
        flavor: if features.multi_thread {
            Flavor::MultiThread
        } else {
            Flavor::CurrentThread
        },
        io: true,
        time: true,
    }
}

/// The line that announces an endpoint.
pub open spec fn inited_line(shown: Seq<char>) -> Seq<char> {
    topic_text(Topic::Inited) + shown
}

/// The line that announces a reload.
pub open spec fn reload_line<O>(ctx: ReloadCtx<O>) -> Seq<char> {
    topic_text(Topic::Reload) + ctx.path@
}

/// What follows when `built` is there and `todo` is left to be built.
pub open spec fn build_next<N, E, O, X>(
    s: SupervisorView<N, E, O>,
    todo: Seq<N>,
    built: Seq<EndpointInfo<E>>,
) -> (SupervisorView<N, E, O>, ActionView<N, E, O, X>) {
    if todo.len() == 0 {
        (
            s.with_phase(PhaseView::Starting { built }),
            ActionView::StartRuntime(runtime_of(s.features)),
        )
    } else {
        (
            s.with_phase(PhaseView::Building { todo: todo.skip(1), built }),
            ActionView::Build(todo[0]),
        )
    }
}

/// The next state and action, for an event that the supervisor accepts.
pub open spec fn supervise_next<N, E, O, X>(
    s: SupervisorView<N, E, O>,
    event: EventView<N, E, X>,
) -> (SupervisorView<N, E, O>, ActionView<N, E, O, X>) {
    match (s.phase, event) {
        (PhaseView::Idle, EventView::Start(confs)) => build_next(s, confs, seq![]),
        (PhaseView::Building { todo, built }, EventView::Built { info, shown }) => (
            s.with_phase(PhaseView::Announcing { todo, built: built.push(info) }),
            ActionView::Announce(inited_line(shown)),
        ),
        (PhaseView::Announcing { todo, built }, EventView::Announced) => build_next(s, todo, built),
        (PhaseView::Starting { built }, EventView::RuntimeReady) => (
            s.with_phase(PhaseView::Serving),
            ActionView::Serve {
                endpoints: built,
                workers: worker_plan(built),
                watch_hangup: s.watching(),
            },
        ),
        (PhaseView::Starting { .. }, EventView::RuntimeFailed(error)) => (
            s.with_phase(PhaseView::Stopped),
            ActionView::Abort(error),
        ),
        (PhaseView::Serving, EventView::Served(end)) => (
            s.with_phase(PhaseView::TearingDown(action_after(end))),
            ActionView::TearDown { timeout_ms: SHUTDOWN_TIMEOUT_MS },
        ),
        (PhaseView::Serving, EventView::HangupFailed(error)) => (
            s.with_phase(PhaseView::Stopped),
            ActionView::AbortServing(error),
        ),
        (PhaseView::TearingDown(Action::Reload), EventView::TornDown) => (
            s.with_phase(PhaseView::AnnouncingReload),
            ActionView::Announce(reload_line(*s.reload->0)),
        ),
        (PhaseView::TearingDown(Action::Shutdown), EventView::TornDown) => (
            s.with_phase(PhaseView::Stopped),
            ActionView::Stop,
        ),
        (PhaseView::AnnouncingReload, EventView::Announced) => (
            s.with_phase(PhaseView::Reloading),
            ActionView::Reload(s.reload->0),
        ),
        (PhaseView::Reloading, EventView::Reloaded(confs)) => build_next(s, confs, seq![]),
        _ => arbitrary(),
    }
}

/// The view of an action leaves nothing out and changes nothing.
pub proof fn action_view_keeps_all<N, E, O, X>(action: SupervisorAction<N, E, O, X>)
    ensures
        match (action, action@) {
            (SupervisorAction::Build(conf), ActionView::Build(c)) => c == conf,
            (SupervisorAction::Announce(line), ActionView::Announce(l)) => l == line@,
            (SupervisorAction::StartRuntime(plan), ActionView::StartRuntime(p)) => p == plan,
            (
                SupervisorAction::Serve { endpoints, workers, watch_hangup },
                ActionView::Serve { endpoints: e, workers: w, watch_hangup: h },
            ) => e == endpoints@ && w == workers@ && h == watch_hangup,
            (
                SupervisorAction::TearDown { timeout_ms },
                ActionView::TearDown { timeout_ms: t },
            ) => t == timeout_ms,
            (SupervisorAction::Reload(ctx), ActionView::Reload(c)) => c == ctx,
            (SupervisorAction::Stop, ActionView::Stop) => true,
            (SupervisorAction::Abort(error), ActionView::Abort(e)) => e == error,
            (SupervisorAction::AbortServing(error), ActionView::AbortServing(e)) => e == error,
            _ => false,
        },
{
}

/// The view of an event leaves nothing out and changes nothing.
pub proof fn event_view_keeps_all<N, E, X>(event: SupervisorEvent<N, E, X>)
    ensures
        match (event, event@) {
            (SupervisorEvent::Start(confs), EventView::Start(c)) => c == confs@,
            (
                SupervisorEvent::Built { info, shown },
                EventView::Built { info: i, shown: s },
            ) => i == info && s == shown@,
            (SupervisorEvent::Announced, EventView::Announced) => true,
            (SupervisorEvent::RuntimeReady, EventView::RuntimeReady) => true,
            (SupervisorEvent::RuntimeFailed(error), EventView::RuntimeFailed(e)) => e == error,
            (SupervisorEvent::Served(end), EventView::Served(e)) => e == end,
            (SupervisorEvent::HangupFailed(error), EventView::HangupFailed(e)) => e == error,
            (SupervisorEvent::TornDown, EventView::TornDown) => true,
            (SupervisorEvent::Reloaded(confs), EventView::Reloaded(c)) => c == confs@,
            _ => false,
        },
{
}

/// The view of a supervisor leaves nothing out and changes nothing.
pub proof fn supervisor_view_keeps_all<N, E, O>(supervisor: Supervisor<N, E, O>)
    ensures
        supervisor@.features == supervisor.features,
        supervisor@.reload == supervisor.reload,
        match (supervisor.phase, supervisor@.phase) {
            (Phase::Idle, PhaseView::Idle) => true,
            (
                Phase::Building { todo, built },
                PhaseView::Building { todo: t, built: b },
            ) => t == todo@ && b == built@,
            (
                Phase::Announcing { todo, built },
                PhaseView::Announcing { todo: t, built: b },
            ) => t == todo@ && b == built@,
            (Phase::Starting { built }, PhaseView::Starting { built: b }) => b == built@,
            (Phase::Serving, PhaseView::Serving) => true,
            (Phase::TearingDown(action), PhaseView::TearingDown(a)) => a == action,
            (Phase::AnnouncingReload, PhaseView::AnnouncingReload) => true,
            (Phase::Reloading, PhaseView::Reloading) => true,
            (Phase::Stopped, PhaseView::Stopped) => true,
            _ => false,
        },
{
}

impl<N, E, O> Supervisor<N, E, O> {
    /// Whether the supervisor can take this event next.
    pub fn ready_for<X>(&self, event: &SupervisorEvent<N, E, X>) -> (ready: bool)
        ensures
            ready == (self@.wf() && self@.accepts(event@)),
    {
        match (&self.phase, event) {
            (Phase::Idle, SupervisorEvent::Start(_)) => true,
            (Phase::Building { .. }, SupervisorEvent::Built { .. }) => true,
            (Phase::Announcing { .. }, SupervisorEvent::Announced) => true,
            (Phase::Starting { .. }, SupervisorEvent::RuntimeReady) => true,
            (Phase::Starting { .. }, SupervisorEvent::RuntimeFailed(_)) => true,
            (Phase::Serving, SupervisorEvent::Served(ServeEnd::WorkersDone)) => true,
            (Phase::Serving, SupervisorEvent::Served(ServeEnd::HangUp)) => watches_hangup(
                self.reload.is_some(),
                self.features.unix,
            ),
            (Phase::Serving, SupervisorEvent::HangupFailed(_)) => watches_hangup(
                self.reload.is_some(),
                self.features.unix,
            ),
            (Phase::TearingDown(Action::Reload), SupervisorEvent::TornDown) => {
                self.reload.is_some()
            },
            (Phase::TearingDown(Action::Shutdown), SupervisorEvent::TornDown) => true,
            (Phase::AnnouncingReload, SupervisorEvent::Announced) => self.reload.is_some(),
            (Phase::Reloading, SupervisorEvent::Reloaded(_)) => self.reload.is_some(),
            _ => false,
        }
    }

    /// A supervisor that is not started yet.
    pub fn new(features: Features, reload: Option<ReloadCtx<O>>) -> (supervisor: Supervisor<
        N,
        E,
        O,
    >)
        ensures
            supervisor@.wf(),
            supervisor.phase is Idle,
            supervisor.features == features,
            match reload {
                Some(ctx) => supervisor.reload matches Some(kept) && *kept == ctx,
                None => supervisor.reload is None,
            },
    {
        let reload = match reload {
            Some(ctx) => Some(Arc::new(ctx)),
            None => None,
        };
        Supervisor { features, reload, phase: Phase::Idle }
    }

    /// Goes on to the next endpoint, or to the runtime if there is none left.
    fn build<X>(
        features: Features,
        reload: Option<Arc<ReloadCtx<O>>>,
        todo: Vec<N>,
        built: Vec<EndpointInfo<E>>,
    ) -> (next: (Supervisor<N, E, O>, SupervisorAction<N, E, O, X>))
        ensures
            (next.0@, next.1@) == build_next::<N, E, O, X>(
                SupervisorView { features, reload, phase: PhaseView::Idle },
                todo@,
                built@,
            ),
    {
        if todo.len() == 0 {
            let flavor = if features.multi_thread {
                Flavor::MultiThread
            } else {
                Flavor::CurrentThread
            };
            (
                Supervisor { features, reload, phase: Phase::Starting { built } },
                SupervisorAction::StartRuntime(RuntimePlan { flavor, io: true, time: true }),
            )
        } else {
            let ghost all = todo@;
            let mut todo = todo;
            let first = todo.remove(0);
            assert(todo@ =~= all.skip(1));
            (
                Supervisor { features, reload, phase: Phase::Building { todo, built } },
                SupervisorAction::Build(first),
            )
        }
    }
}

/// Runs the supervisor one step further.
///
/// The endpoints of a configuration are built and announced one by one, then
/// served on a runtime of their own and torn down with it. Then the process
/// ends, unless a hang-up asked for a reload: in that case the reload is
/// announced, the configuration is read again and its endpoints take the place
/// of the old ones. A reload changes the endpoints alone, not what was set up
/// before them. Where a hang-up should be listened for and cannot be, or there is
/// no runtime to be had, the process panics.
pub fn supervise<N, E, O, X>(
    supervisor: Supervisor<N, E, O>,
    event: SupervisorEvent<N, E, X>,
) -> (next: (Supervisor<N, E, O>, SupervisorAction<N, E, O, X>))
    requires
        supervisor@.wf(),
        supervisor@.accepts(event@),
    ensures
        (next.0@, next.1@) == supervise_next(supervisor@, event@),
        next.0@.wf(),
{
    let Supervisor { features, reload, phase } = supervisor;
    match (phase, event) {
        (Phase::Idle, SupervisorEvent::Start(confs)) => Supervisor::build(
            features,
            reload,
            confs,
            Vec::new(),
        ),
        (Phase::Building { todo, built }, SupervisorEvent::Built { info, shown }) => {
            let line = notice(Topic::Inited, shown.as_str());
            let mut built = built;
            built.push(info);
            (
                Supervisor { features, reload, phase: Phase::Announcing { todo, built } },
                SupervisorAction::Announce(line),
            )
        },
        (Phase::Announcing { todo, built }, SupervisorEvent::Announced) => Supervisor::build(
            features,
            reload,
            todo,
            built,
        ),
        (Phase::Starting { built }, SupervisorEvent::RuntimeReady) => {
            let workers = plan_workers(&built);
            let watch_hangup: bool = watches_hangup(reload.is_some(), features.unix);
            (
                Supervisor { features, reload, phase: Phase::Serving },
                SupervisorAction::Serve { endpoints: built, workers, watch_hangup },
            )
        },
        (Phase::Starting { built: _ }, SupervisorEvent::RuntimeFailed(error)) => (
            Supervisor { features, reload, phase: Phase::Stopped },
            SupervisorAction::Abort(error),
        ),
        (Phase::Serving, SupervisorEvent::Served(end)) => {
            let action = serve_outcome(end);
            (
                Supervisor { features, reload, phase: Phase::TearingDown(action) },
                SupervisorAction::TearDown { timeout_ms: SHUTDOWN_TIMEOUT_MS },
            )
        },
        (Phase::Serving, SupervisorEvent::HangupFailed(error)) => (
            Supervisor { features, reload, phase: Phase::Stopped },
            SupervisorAction::AbortServing(error),
        ),
        (Phase::TearingDown(Action::Reload), SupervisorEvent::TornDown) => {
            let line = match &reload {
                Some(ctx) => notice(Topic::Reload, ctx.path.as_str()),
                None => vstd::pervasive::unreached(),
            };
            (
                Supervisor { features, reload, phase: Phase::AnnouncingReload },
                SupervisorAction::Announce(line),
            )
        },
        (Phase::TearingDown(Action::Shutdown), SupervisorEvent::TornDown) => (
            Supervisor { features, reload, phase: Phase::Stopped },
            SupervisorAction::Stop,
        ),
        (Phase::AnnouncingReload, SupervisorEvent::Announced) => {
            let ctx = match &reload {
                Some(ctx) => share(ctx),
                None => vstd::pervasive::unreached(),
            };
            (
                Supervisor { features, reload, phase: Phase::Reloading },
                SupervisorAction::Reload(ctx),
            )
        },
        (Phase::Reloading, SupervisorEvent::Reloaded(confs)) => Supervisor::build(
            features,
            reload,
            confs,
            Vec::new(),
        ),
        _ => vstd::pervasive::unreached(),
    }
}

} // verus!
