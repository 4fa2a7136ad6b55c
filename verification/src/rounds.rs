//! The rounds of the supervisor, told by what happens: every action follows from
//! the events of its round, whatever the state it was asked for in.

use vstd::prelude::*;

use crate::life::History;
use crate::supervisor::{supervise_next, Flavor};
use crate::supervisor::{ActionView, EventView, PhaseView, SupervisorView};
use crate::workers::{worker_plan, Action, EndpointInfo, ServeEnd};

verus! {

/// The supervisor is ready for every outcome of what it asked for last, whatever
/// that outcome is, and for nothing else: a hang-up, or that it cannot be heard,
/// is an outcome only where it was asked to be listened for. One that was not
/// started can only be started.
pub proof fn outcomes_are_taken<N, E, O, X>(
    s: SupervisorView<N, E, O>,
    event: EventView<N, E, X>,
    outcome: EventView<N, E, X>,
)
    requires
        s.wf(),
        s.accepts(event),
    ensures
        ({
            let (next, action) = supervise_next(s, event);
            next.accepts(outcome) <==> match action {
                ActionView::Build(_) => outcome is Built,
                ActionView::Announce(_) => outcome is Announced,
                ActionView::StartRuntime(_) => outcome is RuntimeReady || outcome is RuntimeFailed,
                ActionView::Serve { watch_hangup, .. } => {
                    ||| outcome == EventView::<N, E, X>::Served(ServeEnd::WorkersDone)
                    ||| watch_hangup && outcome == EventView::<N, E, X>::Served(ServeEnd::HangUp)
                    ||| watch_hangup && outcome is HangupFailed
                },
                ActionView::TearDown { .. } => outcome is TornDown,
                ActionView::Reload(_) => outcome is Reloaded,
                ActionView::Stop => false,
                ActionView::Abort(_) => false,
                ActionView::AbortServing(_) => false,
            }
        }),
        s.phase is Idle ==> (s.accepts(outcome) <==> outcome is Start),
{
}

/// Nothing changes what the supervisor was made with: what the program was built
/// with, and what reloads start from.
pub proof fn settings_are_kept<N, E, O, X>(
    s: SupervisorView<N, E, O>,
    event: EventView<N, E, X>,
)
    requires
        s.wf(),
        s.accepts(event),
    ensures
        supervise_next(s, event).0.features == s.features,
        supervise_next(s, event).0.reload == s.reload,
{
}

/// Every runtime drives sockets, signals and timers, whatever the program was
/// built with, and has several threads exactly if it was built for them.
pub proof fn runtimes_drive_sockets_and_timers<N, E, O, X>(history: History<N, E, O, X>, i: int)
    requires
        history.wf(),
        0 <= i < history.actions.len(),
    ensures
        history.actions[i] matches ActionView::StartRuntime(plan) ==> {
            &&& plan.io
            &&& plan.time
            &&& plan.flavor == Flavor::MultiThread <==> history.states[0].features.multi_thread
            &&& plan.flavor == Flavor::CurrentThread <==> !history.states[0].features.multi_thread
        },
{
    history.keeps(i);
    assert(history.step(i));
}

/// The first `k` endpoints that were built in the round that event `j` began.
pub open spec fn built_in_round<N, E, O, X>(
    history: History<N, E, O, X>,
    j: int,
    k: int,
) -> Seq<EndpointInfo<E>> {
    Seq::new(k as nat, |m: int| history.events[j + 1 + 2 * m]->info)
}

/// Event `j` begins a round with these endpoints.
pub open spec fn begins<N, E, O, X>(history: History<N, E, O, X>, j: int, confs: Seq<N>) -> bool {
    ||| history.events[j] == EventView::<N, E, X>::Start(confs)
    ||| history.events[j] == EventView::<N, E, X>::Reloaded(confs)
}

proof fn phases_follow<N, E, O, X>(
    history: History<N, E, O, X>,
    j: int,
    confs: Seq<N>,
    d: int,
)
    requires
        history.wf(),
        0 <= j,
        0 <= d <= 2 * confs.len() + 4,
        j + d < history.events.len(),
        begins(history, j, confs),
    ensures
        ({
            let n = confs.len() as int;
            let phase = history.states[j + d + 1].phase;
            let event = history.events[j + d];
            if d < 2 * n && d % 2 == 0 {
                phase == (PhaseView::Building {
                    todo: confs.skip(d / 2 + 1),
                    built: built_in_round(history, j, d / 2),
                })
            } else if d < 2 * n {
                phase == (PhaseView::Announcing {
                    todo: confs.skip(d / 2 + 1),
                    built: built_in_round(history, j, d / 2 + 1),
                })
            } else if d == 2 * n {
                phase == (PhaseView::<N, E>::Starting { built: built_in_round(history, j, n) })
            } else if d == 2 * n + 1 {
                phase is Serving && event is RuntimeReady || phase is Stopped && event
                    is RuntimeFailed
            } else if d == 2 * n + 2 {
                phase == PhaseView::<N, E>::TearingDown(Action::Reload) && event == EventView::<
                    N,
                    E,
                    X,
                >::Served(ServeEnd::HangUp) || phase == PhaseView::<N, E>::TearingDown(
                    Action::Shutdown,
                ) && event == EventView::<N, E, X>::Served(ServeEnd::WorkersDone) || phase
                    is Stopped && event is HangupFailed
            } else if d == 2 * n + 3 {
                &&& event is TornDown
                &&& phase is AnnouncingReload && history.events[j + d - 1] == EventView::<
                    N,
                    E,
                    X,
                >::Served(ServeEnd::HangUp) || phase is Stopped && history.events[j + d - 1]
                    == EventView::<N, E, X>::Served(ServeEnd::WorkersDone)
            } else {
                phase is Reloading && event is Announced
            }
        }),
    decreases d,
{
    let n = confs.len() as int;
    let i = j + d;
    history.keeps(i);
    assert(history.step(i));
    if d == 0 {
        assert(built_in_round(history, j, 0) =~= seq![]);
    } else {
        phases_follow(history, j, confs, d - 1);
        if d <= 2 * n {
            if d % 2 == 1 {
                let k = d / 2;
                assert((d - 1) / 2 == k);
                assert(j + 1 + 2 * k == i);
                assert(built_in_round(history, j, k).push(history.events[i]->info)
                    =~= built_in_round(history, j, k + 1));
            } else {
                let k = d / 2;
                assert((d - 1) / 2 + 1 == k);
                assert(confs.skip(k).len() == n - k);
                if k < n {
                    assert(confs.skip(k).skip(1) =~= confs.skip(k + 1));
                }
            }
        }
    }
}

/// A round, event by event, from its list of endpoints to its end. The endpoints
/// are built one after the other, in the order of the list, and each is
/// announced, as it is shown, before the next. Then a runtime is started. If
/// there is none the process panics with that error; otherwise all endpoints
/// that were built are served on it, as built and in their order, and a hang-up
/// is listened for exactly if there is something to reload from and the system
/// has the signal. When the serving ends, the runtime is torn down at once. If
/// all workers were done that was the last round. If it was a hang-up, the file
/// is announced and then read again, with the options of the start, and what it
/// says begins the next round.
pub proof fn rounds_are_exact<N, E, O, X>(
    history: History<N, E, O, X>,
    j: int,
    confs: Seq<N>,
    i: int,
)
    requires
        history.wf(),
        0 <= j <= i < history.events.len(),
        begins(history, j, confs),
        i - j <= 2 * confs.len() + 5,
    ensures
        ({
            let n = confs.len() as int;
            let d = i - j;
            let start = history.states[0];
            let event = history.events[i];
            let action = history.actions[i];
            let over = i + 1 == history.events.len();
            if d < 2 * n && d % 2 == 0 {
                &&& action matches ActionView::Build(conf) && conf == confs[d / 2]
                &&& d > 0 ==> event is Announced
            } else if d < 2 * n {
                &&& event matches EventView::Built { shown, .. }
                &&& action == ActionView::<N, E, O, X>::Announce("inited: "@ + shown)
            } else if d == 2 * n {
                &&& action is StartRuntime
                &&& d > 0 ==> event is Announced
            } else if d == 2 * n + 1 {
                match (event, action) {
                    (
                        EventView::RuntimeReady,
                        ActionView::Serve { endpoints, workers, watch_hangup },
                    ) => {
                        &&& endpoints.len() == n
                        &&& forall|k: int|
                            0 <= k < n ==> history.events[j + 1 + 2 * k] is Built
                                && #[trigger] endpoints[k] == history.events[j + 1 + 2 * k]->info
                        &&& workers == worker_plan(endpoints)
                        &&& watch_hangup <==> start.reload is Some && start.features.unix
                    },
                    (EventView::RuntimeFailed(error), ActionView::Abort(last)) => last == error
                        && over,
                    _ => false,
                }
            } else if d == 2 * n + 2 {
                match (event, action) {
                    (EventView::Served(_), ActionView::TearDown { timeout_ms }) => timeout_ms == 0,
                    (EventView::HangupFailed(error), ActionView::AbortServing(last)) => {
                        &&& last == error && over
                        &&& start.reload is Some && start.features.unix
                    },
                    _ => false,
                }
            } else if d == 2 * n + 3 {
                &&& event is TornDown
                &&& history.events[i - 1] == EventView::<N, E, X>::Served(ServeEnd::WorkersDone)
                    ==> action is Stop && over
                &&& history.events[i - 1] != EventView::<N, E, X>::Served(ServeEnd::WorkersDone)
                    ==> {
                    &&& history.events[i - 1] == EventView::<N, E, X>::Served(ServeEnd::HangUp)
                    &&& start.reload matches Some(ctx)
                    &&& action == ActionView::<N, E, O, X>::Announce("reload: "@ + ctx.path@)
                }
            } else if d == 2 * n + 4 {
                &&& event is Announced
                &&& start.reload matches Some(ctx)
                &&& action == ActionView::<N, E, O, X>::Reload(ctx)
            } else {
                event is Reloaded
            }
        }),
{
    let n = confs.len() as int;
    let d = i - j;
    history.keeps(i);
    assert(history.step(i));
    if d == 0 {
        phases_follow(history, j, confs, 0);
    } else {
        phases_follow(history, j, confs, d - 1);
        history.keeps(i - 1);
        if d <= 2 * n && d % 2 == 0 {
            assert((d - 1) / 2 + 1 == d / 2);
            assert(confs.skip(d / 2).len() == n - d / 2);
        }
        if d == 2 * n + 1 {
            assert forall|k: int| 0 <= k < n implies #[trigger] history.events[j + 1 + 2 * k]
                is Built by {
                phases_follow(history, j, confs, 2 * k);
                assert(history.step(j + 2 * k + 1));
            }
            if let ActionView::Serve { endpoints, .. } = history.actions[i] {
                assert forall|k: int| 0 <= k < n implies history.events[j + 1 + 2 * k] is Built
                    && #[trigger] endpoints[k] == history.events[j + 1 + 2 * k]->info by {
                    assert(endpoints[k] == built_in_round(history, j, n)[k]);
                }
            }
        }
    }
    if i + 1 < history.events.len() {
        assert(history.step(i + 1));
    }
}

/// The first event is the start, and no later one is; a configuration is read
/// again exactly when a reload was asked for.
pub proof fn rounds_begin_in_turn<N, E, O, X>(history: History<N, E, O, X>, i: int)
    requires
        history.wf(),
        0 <= i < history.events.len(),
    ensures
        history.events[i] is Start <==> i == 0,
        history.events[i] is Reloaded ==> i > 0 && history.actions[i - 1] is Reload,
        i > 0 && history.actions[i - 1] is Reload ==> history.events[i] is Reloaded,
{
    history.keeps(i);
    assert(history.step(i));
    if i > 0 {
        history.keeps(i - 1);
        assert(history.step(i - 1));
    }
}

} // verus!
