//! What holds of the supervisor's whole life, whatever happens in it.

use vstd::prelude::*;

use std::sync::Arc;

use crate::startup::ReloadCtx;
use crate::supervisor::{build_next, inited_line, reload_line, runtime_of, supervise_next};
use crate::supervisor::{ActionView, EventView, PhaseView, SupervisorView, SHUTDOWN_TIMEOUT_MS};
use crate::workers::{worker_plan, Action, EndpointInfo, ServeEnd};

verus! {

/// A stretch of the supervisor's life: `states[i]` met `events[i]` and asked for
/// `actions[i]`.
#[verifier::reject_recursive_types(N)]
#[verifier::reject_recursive_types(E)]
#[verifier::reject_recursive_types(O)]
#[verifier::reject_recursive_types(X)]
pub struct History<N, E, O, X> {
    pub states: Seq<SupervisorView<N, E, O>>,
    pub events: Seq<EventView<N, E, X>>,
    pub actions: Seq<ActionView<N, E, O, X>>,
}

impl<N, E, O, X> History<N, E, O, X> {
    /// Step `i` is one that the supervisor takes.
    pub open spec fn step(self, i: int) -> bool {
        &&& self.states[i].accepts(self.events[i])
        &&& (self.states[i + 1], self.actions[i]) == supervise_next(self.states[i], self.events[i])
    }

    /// Every step is one that the supervisor takes, from its start on.
    pub open spec fn wf(self) -> bool {
        &&& self.states.len() == self.events.len() + 1
        &&& self.actions.len() == self.events.len()
        &&& self.states[0].phase is Idle
        &&& forall|i: int| 0 <= i < self.events.len() ==> #[trigger] self.step(i)
    }

    /// How many rounds of serving have begun and not been ended, by a teardown or
    /// with the process, before action `i`.
    pub open spec fn rounds_alive(self, i: int) -> int
        decreases i,
    {
        if i <= 0 {
            0
        } else {
            self.rounds_alive(i - 1) + (match self.actions[i - 1] {
                ActionView::Serve { .. } => 1int,
                ActionView::TearDown { .. } => -1int,
                ActionView::AbortServing(_) => -1int,
                _ => 0int,
            })
        }
    }

    /// The supervisor stays in a state that makes sense, keeps what it was made
    /// with, and is not idle again; a round is alive exactly while it serves.
    pub proof fn keeps(self, i: int)
        requires
            self.wf(),
            0 <= i < self.states.len(),
        ensures
            self.states[i].wf(),
            self.states[i].reload == self.states[0].reload,
            self.states[i].features == self.states[0].features,
            i > 0 ==> !(self.states[i].phase is Idle),
            self.rounds_alive(i) == (if self.states[i].phase is Serving {
                1int
            } else {
                0int
            }),
        decreases i,
    {
        if i > 0 {
            self.keeps(i - 1);
            assert(self.step(i - 1));
        }
    }
}

/// Nothing of an old configuration outlives it. A round of serving is followed
/// by its teardown, which waits for no relay, before anything else happens:
/// whenever an endpoint is built or announced, a runtime is started, a new round
/// begins, the configuration is read again or the process ends well, no round is
/// alive. The one exception is a hang-up that cannot be listened for: the panic
/// takes the round with it, and nothing comes after.
pub proof fn old_relays_are_gone_first<N, E, O, X>(history: History<N, E, O, X>, i: int)
    requires
        history.wf(),
        0 <= i < history.actions.len(),
    ensures
        match history.actions[i] {
            ActionView::TearDown { timeout_ms } => history.rounds_alive(i) == 1 && timeout_ms == 0,
            ActionView::AbortServing(_) => {
                &&& history.rounds_alive(i) == 1
                &&& i + 1 == history.actions.len()
            },
            _ => history.rounds_alive(i) == 0,
        },
        history.actions[i] is Serve && i + 1 < history.actions.len() ==> history.actions[i + 1]
            is TearDown || history.actions[i + 1] is AbortServing,
{
    history.keeps(i);
    assert(history.step(i));
    if i + 1 < history.actions.len() {
        history.keeps(i + 1);
        assert(history.step(i + 1));
    }
}

/// Each round of serving has a runtime of its own, of the kind that the build
/// asks for and with sockets and timers, which is built just before it and torn
/// down right after it, unless the process panics because a hang-up cannot be
/// listened for. If the runtime cannot be built the supervisor asks for a panic
/// with that error: no worker is started, then or later.
pub proof fn each_round_has_its_own_runtime<N, E, O, X>(history: History<N, E, O, X>, i: int)
    requires
        history.wf(),
        0 <= i < history.actions.len(),
    ensures
        history.actions[i] is Serve ==> {
            &&& i > 0
            &&& history.actions[i - 1] == ActionView::<N, E, O, X>::StartRuntime(
                runtime_of(history.states[0].features),
            )
            &&& history.events[i] is RuntimeReady
            &&& i + 1 < history.actions.len() ==> match history.events[i + 1] {
                EventView::HangupFailed(error) => history.actions[i + 1] == ActionView::<
                    N,
                    E,
                    O,
                    X,
                >::AbortServing(error),
                _ => history.actions[i + 1] == (ActionView::<N, E, O, X>::TearDown {
                    timeout_ms: SHUTDOWN_TIMEOUT_MS,
                }),
            }
        },
        history.actions[i] is StartRuntime && i + 1 < history.actions.len() ==> match history.events[i
            + 1] {
            EventView::RuntimeReady => history.actions[i + 1] is Serve,
            EventView::RuntimeFailed(error) => {
                &&& history.actions[i + 1] == ActionView::<N, E, O, X>::Abort(error)
                &&& i + 2 == history.actions.len()
            },
            _ => false,
        },
{
    history.keeps(i);
    assert(history.step(i));
    if i > 0 {
        history.keeps(i - 1);
        assert(history.step(i - 1));
    }
    if i + 1 < history.actions.len() {
        history.keeps(i + 1);
        assert(history.step(i + 1));
    }
    if i + 2 < history.actions.len() {
        assert(history.step(i + 2));
    }
}

/// Listening for a hang-up fails only where it is asked for, right after the
/// workers were started, and the process panics with just that error: no
/// teardown, reload or end comes after it. No other cause makes the process give
/// its serving up like that.
pub proof fn unheard_hangup_ends_the_process<N, E, O, X>(history: History<N, E, O, X>, i: int)
    requires
        history.wf(),
        0 <= i < history.actions.len(),
    ensures
        history.events[i] matches EventView::HangupFailed(error) ==> {
            &&& history.states[0].watching()
            &&& i > 0
            &&& history.actions[i - 1] matches ActionView::Serve { watch_hangup, .. }
            &&& watch_hangup
            &&& history.actions[i] == ActionView::<N, E, O, X>::AbortServing(error)
            &&& i + 1 == history.actions.len()
        },
        history.actions[i] is AbortServing ==> history.events[i] is HangupFailed,
{
    history.keeps(i);
    assert(history.step(i));
    if i > 0 {
        history.keeps(i - 1);
        assert(history.step(i - 1));
    }
    if i + 1 < history.actions.len() {
        assert(history.step(i + 1));
    }
}

/// Whatever happens, the supervisor reloads from the file and with the options
/// that it was started with, only if there are any, and right after it has
/// announced just that.
pub proof fn reloads_from_the_same_file<N, E, O, X>(history: History<N, E, O, X>, i: int)
    requires
        history.wf(),
        0 <= i < history.actions.len(),
        history.actions[i] is Reload,
    ensures
        history.states[0].reload == Some(history.actions[i]->Reload_0),
        i >= 2,
        history.actions[i - 1] == ActionView::<N, E, O, X>::Announce(
            reload_line(*history.actions[i]->Reload_0),
        ),
        history.actions[i - 2] is TearDown,
{
    history.keeps(i);
    assert(history.step(i));
    assert(history.step(i - 1));
    history.keeps(i - 1);
    assert(history.step(i - 2));
    history.keeps(i - 2);
}

/// After a teardown the process ends exactly when all workers were done, and
/// announces a reload exactly when a hang-up came, which is possible only where
/// it was listened for: a hang-up never ends the process.
pub proof fn only_finished_workers_end_the_process<N, E, O, X>(
    history: History<N, E, O, X>,
    i: int,
)
    requires
        history.wf(),
        0 <= i,
        i + 1 < history.actions.len(),
        history.actions[i] is TearDown,
    ensures
        match history.events[i] {
            EventView::Served(ServeEnd::WorkersDone) => history.actions[i + 1] is Stop,
            EventView::Served(ServeEnd::HangUp) => {
                &&& history.states[0].watching()
                &&& history.states[0].reload matches Some(ctx)
                &&& history.actions[i + 1] == ActionView::<N, E, O, X>::Announce(reload_line(*ctx))
            },
            _ => false,
        },
{
    history.keeps(i);
    history.keeps(i + 1);
    assert(history.step(i));
    assert(history.step(i + 1));
}

/// Without anything to reload from, or without a hang-up signal, nothing is ever
/// read again and the endpoints are served once.
pub proof fn serves_once_without_reload<N, E, O, X>(
    history: History<N, E, O, X>,
    i: int,
    j: int,
)
    requires
        history.wf(),
        !history.states[0].watching(),
        0 <= i < j < history.actions.len(),
    ensures
        !(history.actions[i] is Reload) && !(history.actions[j] is Reload),
        !(history.actions[i] is Serve && history.actions[j] is Serve),
{
    never_reloading(history, i);
    never_reloading(history, j);
    assert(history.step(i));
    assert(history.step(j));
    if history.actions[i] is Serve {
        winding_up(history, i + 1, j);
    }
}

proof fn never_reloading<N, E, O, X>(history: History<N, E, O, X>, i: int)
    requires
        history.wf(),
        !history.states[0].watching(),
        0 <= i < history.states.len(),
    ensures
        history.states[i].phase != PhaseView::<N, E>::TearingDown(Action::Reload),
        !(history.states[i].phase is AnnouncingReload),
        !(history.states[i].phase is Reloading),
    decreases i,
{
    if i > 0 {
        never_reloading(history, i - 1);
        history.keeps(i - 1);
        assert(history.step(i - 1));
    }
}

proof fn winding_up<N, E, O, X>(history: History<N, E, O, X>, i: int, j: int)
    requires
        history.wf(),
        !history.states[0].watching(),
        0 <= i <= j < history.states.len(),
        history.states[i].phase is Serving,
    ensures
        history.states[j].phase is Serving || history.states[j].phase is TearingDown
            || history.states[j].phase is Stopped,
    decreases j - i,
{
    if i < j {
        winding_up(history, i, j - 1);
        never_reloading(history, j - 1);
        assert(history.step(j - 1));
    }
}

/// A storm of hang-ups is survived: as long as nothing but hang-ups ends the
/// serving, they can be listened for and a runtime can be had, the process does
/// not end.
pub proof fn hangup_storm_is_survived<N, E, O, X>(history: History<N, E, O, X>, i: int)
    requires
        history.wf(),
        0 <= i < history.states.len(),
        forall|j: int|
            0 <= j < history.events.len() ==> #[trigger] history.events[j] != EventView::<
                N,
                E,
                X,
            >::Served(ServeEnd::WorkersDone) && !(history.events[j] is RuntimeFailed) && !(
            history.events[j] is HangupFailed),
    ensures
        !(history.states[i].phase is Stopped),
        history.states[i].phase != PhaseView::<N, E>::TearingDown(Action::Shutdown),
    decreases i,
{
    if i > 0 {
        hangup_storm_is_survived(history, i - 1);
        assert(history.step(i - 1));
        assert(!(history.events[i - 1] is RuntimeFailed));
    }
}

/// What a series of events makes of the supervisor: the state it ends in and the
/// actions it asks for on the way.
pub open spec fn supervise_run<N, E, O, X>(
    s: SupervisorView<N, E, O>,
    events: Seq<EventView<N, E, X>>,
) -> (SupervisorView<N, E, O>, Seq<ActionView<N, E, O, X>>)
    decreases events.len(),
{
    if events.len() == 0 {
        (s, seq![])
    } else {
        let (next, action) = supervise_next(s, events[0]);
        let (end, actions) = supervise_run(next, events.skip(1));
        (end, seq![action] + actions)
    }
}

/// Each event of the series is an outcome of the action before it.
pub open spec fn supervise_accepts<N, E, O, X>(
    s: SupervisorView<N, E, O>,
    events: Seq<EventView<N, E, X>>,
) -> bool
    decreases events.len(),
{
    events.len() > 0 ==> {
        &&& s.accepts(events[0])
        &&& supervise_accepts(supervise_next(s, events[0]).0, events.skip(1))
    }
}

proof fn run_in_parts<N, E, O, X>(
    s: SupervisorView<N, E, O>,
    first: Seq<EventView<N, E, X>>,
    second: Seq<EventView<N, E, X>>,
)
    requires
        supervise_accepts(s, first),
        supervise_accepts(supervise_run(s, first).0, second),
    ensures
        supervise_accepts(s, first + second),
        supervise_run(s, first + second).0 == supervise_run(supervise_run(s, first).0, second).0,
        supervise_run(s, first + second).1 == supervise_run(s, first).1 + supervise_run(
            supervise_run(s, first).0,
            second,
        ).1,
    decreases first.len(),
{
    let all = first + second;
    if first.len() == 0 {
        assert(all =~= second);
        assert(supervise_run(s, first).1 + supervise_run(s, second).1 =~= supervise_run(
            s,
            second,
        ).1);
    } else {
        let (next, action) = supervise_next(s, first[0]);
        run_in_parts(next, first.skip(1), second);
        assert(all.skip(1) =~= first.skip(1) + second);
        assert(all[0] == first[0]);
        assert(supervise_run(s, all).1 =~= supervise_run(s, first).1 + supervise_run(
            supervise_run(s, first).0,
            second,
        ).1);
    }
}

/// One configuration: what its endpoints say, what they are built to, and how
/// they are shown.
#[verifier::reject_recursive_types(N)]
#[verifier::reject_recursive_types(E)]
pub struct Round<N, E> {
    pub confs: Seq<N>,
    pub infos: Seq<EndpointInfo<E>>,
    pub shown: Seq<Seq<char>>,
}

impl<N, E> Round<N, E> {
    /// Every endpoint is built, and can be shown.
    pub open spec fn wf(self) -> bool {
        self.confs.len() == self.infos.len() && self.confs.len() == self.shown.len()
    }

    /// What happens while the endpoints from `k` on are built and announced.
    pub open spec fn build_events<X>(self, k: int) -> Seq<EventView<N, E, X>>
        decreases self.infos.len() - k,
    {
        if k >= self.infos.len() {
            seq![]
        } else {
            seq![
                EventView::Built { info: self.infos[k], shown: self.shown[k] },
                EventView::Announced,
            ] + self.build_events(k + 1)
        }
    }

    /// The endpoints from `k` on are built, each announced before the next.
    pub open spec fn build_actions<O, X>(self, k: int) -> Seq<ActionView<N, E, O, X>>
        decreases self.infos.len() - k,
    {
        if k >= self.infos.len() {
            seq![]
        } else {
            seq![
                ActionView::Build(self.confs[k]),
                ActionView::Announce(inited_line(self.shown[k])),
            ] + self.build_actions(k + 1)
        }
    }

    /// What happens until the round is served.
    pub open spec fn events<X>(self) -> Seq<EventView<N, E, X>> {
        self.build_events(0) + seq![EventView::RuntimeReady]
    }

    /// All endpoints are built and announced, a runtime is started, and the
    /// workers of all that was built are served on it.
    pub open spec fn actions<O, X>(self, s: SupervisorView<N, E, O>) -> Seq<
        ActionView<N, E, O, X>,
    > {
        self.build_actions(0) + seq![
            ActionView::StartRuntime(runtime_of(s.features)),
            ActionView::Serve {
                endpoints: self.infos,
                workers: worker_plan(self.infos),
                watch_hangup: s.watching(),
            },
        ]
    }
}

proof fn endpoints_are_built<N, E, O, X>(s: SupervisorView<N, E, O>, round: Round<N, E>, k: int)
    requires
        round.wf(),
        0 <= k <= round.confs.len(),
    ensures
        ({
            let (from, first) = build_next::<N, E, O, X>(
                s,
                round.confs.skip(k),
                round.infos.take(k),
            );
            let run = supervise_run(from, round.build_events::<X>(k));
            &&& supervise_accepts(from, round.build_events::<X>(k))
            &&& run.0 == s.with_phase(PhaseView::Starting { built: round.infos })
            &&& seq![first] + run.1 == round.build_actions::<O, X>(k) + seq![
                ActionView::<N, E, O, X>::StartRuntime(runtime_of(s.features)),
            ]
        }),
    decreases round.confs.len() - k,
{
    let todo = round.confs.skip(k);
    let built = round.infos.take(k);
    let (from, first) = build_next::<N, E, O, X>(s, todo, built);
    let events = round.build_events::<X>(k);
    let run = supervise_run(from, events);
    if k == round.confs.len() {
        assert(built =~= round.infos);
        assert(seq![first] + run.1 =~= round.build_actions::<O, X>(k) + seq![
            ActionView::<N, E, O, X>::StartRuntime(runtime_of(s.features)),
        ]);
    } else {
        endpoints_are_built::<N, E, O, X>(s, round, k + 1);
        reveal_with_fuel(supervise_run, 3);
        reveal_with_fuel(supervise_accepts, 3);
        assert(todo.skip(1) =~= round.confs.skip(k + 1));
        assert(built.push(round.infos[k]) =~= round.infos.take(k + 1));
        let (then, next) = build_next::<N, E, O, X>(
            s,
            round.confs.skip(k + 1),
            round.infos.take(k + 1),
        );
        let rest = supervise_run(then, round.build_events::<X>(k + 1));
        assert(events[0] == (EventView::<N, E, X>::Built {
            info: round.infos[k],
            shown: round.shown[k],
        }));
        assert(events.skip(1)[0] == EventView::<N, E, X>::Announced);
        assert(events.skip(1).skip(1) =~= round.build_events::<X>(k + 1));
        assert(run.1 =~= seq![
            ActionView::<N, E, O, X>::Announce(inited_line(round.shown[k])),
            next,
        ] + rest.1);
        assert(seq![first] + run.1 =~= seq![
            ActionView::<N, E, O, X>::Build(round.confs[k]),
            ActionView::<N, E, O, X>::Announce(inited_line(round.shown[k])),
        ] + (seq![next] + rest.1));
        assert(seq![first] + run.1 =~= round.build_actions::<O, X>(k) + seq![
            ActionView::<N, E, O, X>::StartRuntime(runtime_of(s.features)),
        ]);
    }
}

proof fn round_is_served<N, E, O, X>(s: SupervisorView<N, E, O>, round: Round<N, E>)
    requires
        round.wf(),
    ensures
        ({
            let (from, first) = build_next::<N, E, O, X>(s, round.confs, seq![]);
            let run = supervise_run(from, round.events::<X>());
            &&& supervise_accepts(from, round.events::<X>())
            &&& run.0 == s.with_phase(PhaseView::Serving)
            &&& seq![first] + run.1 == round.actions::<O, X>(s)
        }),
{
    endpoints_are_built::<N, E, O, X>(s, round, 0);
    assert(round.confs.skip(0) =~= round.confs);
    assert(round.infos.take(0) =~= seq![]);
    let (from, first) = build_next::<N, E, O, X>(s, round.confs, seq![]);
    let ready = seq![EventView::<N, E, X>::RuntimeReady];
    let middle = supervise_run(from, round.build_events::<X>(0));
    reveal_with_fuel(supervise_run, 2);
    reveal_with_fuel(supervise_accepts, 2);
    assert(ready.skip(1) =~= seq![]);
    run_in_parts(from, round.build_events::<X>(0), ready);
    let serve = ActionView::<N, E, O, X>::Serve {
        endpoints: round.infos,
        workers: worker_plan(round.infos),
        watch_hangup: s.watching(),
    };
    assert(supervise_run(middle.0, ready).1 =~= seq![serve]);
    let run = supervise_run(from, round.events::<X>());
    assert(seq![first] + run.1 =~= (seq![first] + middle.1) + seq![serve]);
    assert(seq![first] + run.1 =~= round.actions::<O, X>(s));
}

/// What happens from the end of a round on, when a hang-up follows each round
/// before the last, and the workers of the last are done.
pub open spec fn later_events<N, E, X>(rounds: Seq<Round<N, E>>) -> Seq<EventView<N, E, X>>
    decreases rounds.len(),
{
    if rounds.len() == 0 {
        seq![EventView::Served(ServeEnd::WorkersDone), EventView::TornDown]
    } else {
        seq![
            EventView::Served(ServeEnd::HangUp),
            EventView::TornDown,
            EventView::Announced,
            EventView::Reloaded(rounds[0].confs),
        ] + (rounds[0].events::<X>() + later_events(rounds.skip(1)))
    }
}

/// What a hang-up leads to: the old round is torn down, and the reload is
/// announced and made.
pub open spec fn reload_actions<N, E, O, X>(ctx: Arc<ReloadCtx<O>>) -> Seq<
    ActionView<N, E, O, X>,
> {
    seq![
        ActionView::TearDown { timeout_ms: SHUTDOWN_TIMEOUT_MS },
        ActionView::Announce(reload_line(*ctx)),
        ActionView::Reload(ctx),
    ]
}

/// What is asked for then: each hang-up leads through the teardown, the notice
/// of the reload and the reload itself to the next round, and the last teardown
/// to the end.
pub open spec fn later_actions<N, E, O, X>(
    s: SupervisorView<N, E, O>,
    ctx: Arc<ReloadCtx<O>>,
    rounds: Seq<Round<N, E>>,
) -> Seq<ActionView<N, E, O, X>>
    decreases rounds.len(),
{
    if rounds.len() == 0 {
        seq![ActionView::TearDown { timeout_ms: SHUTDOWN_TIMEOUT_MS }, ActionView::Stop]
    } else {
        reload_actions(ctx) + (rounds[0].actions::<O, X>(s) + later_actions(
            s,
            ctx,
            rounds.skip(1),
        ))
    }
}

#[verifier::rlimit(50)]
proof fn later_rounds<N, E, O, X>(
    s: SupervisorView<N, E, O>,
    ctx: Arc<ReloadCtx<O>>,
    rounds: Seq<Round<N, E>>,
)
    requires
        s.phase is Serving,
        s.reload == Some(ctx),
        s.features.unix,
        forall|i: int| 0 <= i < rounds.len() ==> (#[trigger] rounds[i]).wf(),
    ensures
        supervise_accepts(s, later_events::<N, E, X>(rounds)),
        supervise_run(s, later_events::<N, E, X>(rounds)).0.phase is Stopped,
        supervise_run(s, later_events::<N, E, X>(rounds)).1 == later_actions::<N, E, O, X>(
            s,
            ctx,
            rounds,
        ),
    decreases rounds.len(),
{
    let events = later_events::<N, E, X>(rounds);
    let teardown = ActionView::<N, E, O, X>::TearDown { timeout_ms: SHUTDOWN_TIMEOUT_MS };
    reveal_with_fuel(supervise_run, 5);
    reveal_with_fuel(supervise_accepts, 5);
    if rounds.len() == 0 {
        assert(events[0] == EventView::<N, E, X>::Served(ServeEnd::WorkersDone));
        assert(events.skip(1)[0] == EventView::<N, E, X>::TornDown);
        assert(events.skip(1).skip(1) =~= seq![]);
        assert(supervise_run(s, events).1 =~= seq![teardown, ActionView::Stop]);
    } else {
        let round = rounds[0];
        let rest = rounds.skip(1);
        assert(round.wf());
        assert forall|i: int| 0 <= i < rest.len() implies (#[trigger] rest[i]).wf() by {
            assert(rest[i] == rounds[i + 1]);
        }
        let hangup = seq![
            EventView::<N, E, X>::Served(ServeEnd::HangUp),
            EventView::TornDown,
            EventView::Announced,
            EventView::Reloaded(round.confs),
        ];
        let reloading = s.with_phase(PhaseView::Reloading);
        let (from, first) = build_next::<N, E, O, X>(reloading, round.confs, seq![]);
        assert(hangup.skip(1)[0] == hangup[1]);
        assert(hangup.skip(1).skip(1)[0] == hangup[2]);
        assert(hangup.skip(1).skip(1).skip(1)[0] == hangup[3]);
        assert(hangup.skip(1).skip(1).skip(1).skip(1) =~= seq![]);
        assert(supervise_run(s, hangup).0 == from);
        assert(supervise_accepts(s, hangup));
        let lead = reload_actions::<N, E, O, X>(ctx);
        assert(supervise_run(s, hangup).1 =~= lead + seq![first]);
        round_is_served::<N, E, O, X>(reloading, round);
        assert(reloading.with_phase(PhaseView::Serving) == s);
        later_rounds::<N, E, O, X>(s, ctx, rest);
        run_in_parts(from, round.events::<X>(), later_events::<N, E, X>(rest));
        run_in_parts(s, hangup, round.events::<X>() + later_events::<N, E, X>(rest));
        let served = supervise_run(from, round.events::<X>()).1;
        let later = later_actions::<N, E, O, X>(s, ctx, rest);
        assert(supervise_run(s, events).1 =~= lead + ((seq![first] + served) + later));
    }
}

/// The whole life of a process that is reloaded any number of times and then
/// ends, as it happens, action by action. In each round every endpoint is built
/// and announced, in the order of the list and each before the next is built;
/// then a runtime is started, and the workers of exactly those endpoints are
/// served on it. After each round the runtime is torn down; then there is one
/// notice with the path of the file, the file is read, and the endpoints that
/// were read make up the next round. After the last round the process ends.
pub proof fn life_is_exact<N, E, O, X>(
    s: SupervisorView<N, E, O>,
    ctx: Arc<ReloadCtx<O>>,
    first: Round<N, E>,
    rounds: Seq<Round<N, E>>,
)
    requires
        s.phase is Idle,
        s.reload == Some(ctx),
        s.features.unix,
        first.wf(),
        forall|i: int| 0 <= i < rounds.len() ==> (#[trigger] rounds[i]).wf(),
    ensures
        ({
            let events = seq![EventView::<N, E, X>::Start(first.confs)] + (first.events::<X>()
                + later_events::<N, E, X>(rounds));
            let run = supervise_run(s, events);
            &&& supervise_accepts(s, events)
            &&& run.0.phase is Stopped
            &&& run.1 == first.actions::<O, X>(s) + later_actions::<N, E, O, X>(s, ctx, rounds)
        }),
{
    let serving = s.with_phase(PhaseView::Serving);
    let begin = seq![EventView::<N, E, X>::Start(first.confs)];
    let (from, action) = build_next::<N, E, O, X>(s, first.confs, seq![]);
    reveal_with_fuel(supervise_run, 2);
    reveal_with_fuel(supervise_accepts, 2);
    assert(begin.skip(1) =~= seq![]);
    assert(supervise_run(s, begin).1 =~= seq![action]);
    round_is_served::<N, E, O, X>(s, first);
    later_rounds::<N, E, O, X>(serving, ctx, rounds);
    same_later_actions::<N, E, O, X>(s, serving, ctx, rounds);
    run_in_parts(from, first.events::<X>(), later_events::<N, E, X>(rounds));
    run_in_parts(s, begin, first.events::<X>() + later_events::<N, E, X>(rounds));
    let served = supervise_run(from, first.events::<X>()).1;
    let later = later_actions::<N, E, O, X>(s, ctx, rounds);
    assert(supervise_run(
        s,
        begin + (first.events::<X>() + later_events::<N, E, X>(rounds)),
    ).1 =~= (seq![action] + served) + later);
}

proof fn same_later_actions<N, E, O, X>(
    s: SupervisorView<N, E, O>,
    t: SupervisorView<N, E, O>,
    ctx: Arc<ReloadCtx<O>>,
    rounds: Seq<Round<N, E>>,
)
    requires
        s.features == t.features,
        s.reload == t.reload,
    ensures
        later_actions::<N, E, O, X>(s, ctx, rounds) == later_actions::<N, E, O, X>(t, ctx, rounds),
    decreases rounds.len(),
{
    if rounds.len() > 0 {
        same_later_actions::<N, E, O, X>(s, t, ctx, rounds.skip(1));
        assert(rounds[0].actions::<O, X>(s) == rounds[0].actions::<O, X>(t));
    }
}

/// A process that cannot be reloaded builds, announces and serves its endpoints
/// once and then ends.
pub proof fn short_life_is_exact<N, E, O, X>(s: SupervisorView<N, E, O>, round: Round<N, E>)
    requires
        s.phase is Idle,
        round.wf(),
    ensures
        ({
            let events = seq![EventView::<N, E, X>::Start(round.confs)] + (round.events::<X>()
                + later_events::<N, E, X>(seq![]));
            let run = supervise_run(s, events);
            &&& supervise_accepts(s, events)
            &&& run.0.phase is Stopped
            &&& run.1 == round.actions::<O, X>(s) + seq![
                ActionView::<N, E, O, X>::TearDown { timeout_ms: SHUTDOWN_TIMEOUT_MS },
                ActionView::Stop,
            ]
        }),
{
    let serving = s.with_phase(PhaseView::Serving);
    let begin = seq![EventView::<N, E, X>::Start(round.confs)];
    let end = later_events::<N, E, X>(seq![]);
    let (from, action) = build_next::<N, E, O, X>(s, round.confs, seq![]);
    reveal_with_fuel(supervise_run, 3);
    reveal_with_fuel(supervise_accepts, 3);
    assert(begin.skip(1) =~= seq![]);
    assert(supervise_run(s, begin).1 =~= seq![action]);
    assert(end.skip(1)[0] == end[1]);
    assert(end.skip(1).skip(1) =~= seq![]);
    let last = seq![
        ActionView::<N, E, O, X>::TearDown { timeout_ms: SHUTDOWN_TIMEOUT_MS },
        ActionView::Stop,
    ];
    assert(supervise_run(serving, end).1 =~= last);
    round_is_served::<N, E, O, X>(s, round);
    run_in_parts(from, round.events::<X>(), end);
    run_in_parts(s, begin, round.events::<X>() + end);
    let served = supervise_run(from, round.events::<X>()).1;
    assert(supervise_run(s, begin + (round.events::<X>() + end)).1 =~= (seq![action] + served)
        + last);
}

} // verus!
