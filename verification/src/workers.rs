//! Which relays to run, and what the end of serving them means.

use vstd::prelude::*;

verus! {

/// An endpoint with the protocols it asks for.
#[derive(Debug, PartialEq, Eq)]
pub struct EndpointInfo<E> {
    pub endpoint: E,
    pub no_tcp: bool,
    pub use_udp: bool,
}

#[derive(Clone, Copy, Debug, PartialEq, Eq, Structural)]
pub enum Protocol {
    Tcp,
    Udp,
}

/// A relay to run: the endpoint, by its place in the list, and the protocol.
#[derive(Clone, Copy, Debug, PartialEq, Eq, Structural)]
pub struct Worker {
    pub endpoint: usize,
    pub protocol: Protocol,
}

/// The endpoint's wish for a relay of this protocol.
pub open spec fn wants<E>(info: EndpointInfo<E>, protocol: Protocol) -> bool {
    match protocol {
        Protocol::Tcp => !info.no_tcp,
        Protocol::Udp => info.use_udp,
    }
}

/// The relays of one endpoint, UDP before TCP.
pub open spec fn workers_of<E>(index: usize, info: EndpointInfo<E>) -> Seq<Worker> {
    (if info.use_udp {
        seq![Worker { endpoint: index, protocol: Protocol::Udp }]
    } else {
        seq![]
    }) + (if !info.no_tcp {
        seq![Worker { endpoint: index, protocol: Protocol::Tcp }]
    } else {
        seq![]
    })
}

/// The relays of all endpoints, endpoint after endpoint.
pub open spec fn worker_plan<E>(infos: Seq<EndpointInfo<E>>) -> Seq<Worker>
    decreases infos.len(),
{
    if infos.len() == 0 {
        seq![]
    } else {
        worker_plan(infos.drop_last()) + workers_of((infos.len() - 1) as usize, infos.last())
    }
}

/// Lists the relays that the endpoints ask for.
pub fn plan_workers<E>(infos: &Vec<EndpointInfo<E>>) -> (workers: Vec<Worker>)
    ensures
        workers@ == worker_plan(infos@),
{
    let mut workers: Vec<Worker> = Vec::new();
    let mut i: usize = 0;
    while i < infos.len()
        invariant
            i <= infos.len(),
            workers@ == worker_plan(infos@.take(i as int)),
        decreases infos.len() - i,
    {
        let ghost before = workers@;
        if infos[i].use_udp {
            workers.push(Worker { endpoint: i, protocol: Protocol::Udp });
        }
        if !infos[i].no_tcp {
            workers.push(Worker { endpoint: i, protocol: Protocol::Tcp });
        }
        proof {
            assert(infos@.take(i + 1).drop_last() =~= infos@.take(i as int));
            assert(workers@ =~= before + workers_of(i, infos@[i as int]));
        }
        i = i + 1;
    }
    assert(infos@.take(infos.len() as int) =~= infos@);
    workers
}

/// What ended the serving: all workers are gone, or a hang-up signal came.
#[derive(Clone, Copy, Debug, PartialEq, Eq, Structural)]
pub enum ServeEnd {
    WorkersDone,
    HangUp,
}

/// What the process does after serving.
#[derive(Clone, Copy, Debug, PartialEq, Eq, Structural)]
pub enum Action {
    Reload,
    Shutdown,
}

/// Whether serving listens for the hang-up signal: only where there is something
/// to reload from and the system has such a signal.
pub fn watches_hangup(reloadable: bool, unix: bool) -> (watch: bool)
    ensures
        watch == (reloadable && unix),
{
    reloadable && unix
}

/// What the end of serving leads to. A hang-up can end it only where it is
/// listened for.
pub open spec fn action_after(end: ServeEnd) -> Action {
    match end {
        ServeEnd::WorkersDone => Action::Shutdown,
        ServeEnd::HangUp => Action::Reload,
    }
}

/// Turns the end of serving into what to do next.
pub fn serve_outcome(end: ServeEnd) -> (action: Action)
    ensures
        action == action_after(end),
{
    match end {
        ServeEnd::WorkersDone => Action::Shutdown,
        ServeEnd::HangUp => Action::Reload,
    }
}

/// `a` stands for an earlier endpoint than `b`, or for the UDP relay of the
/// endpoint whose TCP relay `b` is.
pub open spec fn precedes(a: Worker, b: Worker) -> bool {
    a.endpoint < b.endpoint || (a.endpoint == b.endpoint && a.protocol == Protocol::Udp
        && b.protocol == Protocol::Tcp)
}

/// The plan holds exactly the relays that the endpoints ask for, each of them
/// once, in the order of the endpoints and UDP before TCP.
pub proof fn plan_is_exact<E>(infos: Seq<EndpointInfo<E>>)
    requires
        infos.len() <= usize::MAX,
    ensures
        forall|w: Worker|
            #![trigger worker_plan(infos).contains(w)]
            worker_plan(infos).contains(w) <==> w.endpoint < infos.len() && wants(
                infos[w.endpoint as int],
                w.protocol,
            ),
        forall|i: int, j: int|
            0 <= i < j < worker_plan(infos).len() ==> precedes(
                #[trigger] worker_plan(infos)[i],
                #[trigger] worker_plan(infos)[j],
            ),
        worker_plan(infos).no_duplicates(),
        worker_plan(infos).len() <= 2 * infos.len(),
    decreases infos.len(),
{
    let plan = worker_plan(infos);
    if infos.len() > 0 {
        let front = infos.drop_last();
        let last = (infos.len() - 1) as usize;
        plan_is_exact(front);
        let head = worker_plan(front);
        let tail = workers_of(last, infos.last());
        assert(plan == head + tail);
        assert forall|w: Worker| #![trigger plan.contains(w)] plan.contains(w) <==> w.endpoint
            < infos.len() && wants(infos[w.endpoint as int], w.protocol) by {
            if plan.contains(w) {
                let i = choose|i: int| 0 <= i < plan.len() && plan[i] == w;
                if i < head.len() {
                    assert(head[i] == w);
                    assert(head.contains(w));
                } else {
                    assert(tail[i - head.len()] == w);
                }
            }
            if w.endpoint < infos.len() && wants(infos[w.endpoint as int], w.protocol) {
                if w.endpoint < last {
                    assert(infos[w.endpoint as int] == front[w.endpoint as int]);
                    assert(head.contains(w));
                    let i = choose|i: int| 0 <= i < head.len() && head[i] == w;
                    assert(plan[i] == w);
                } else if w.protocol == Protocol::Udp {
                    assert(tail[0] == w);
                    assert(plan[head.len() as int] == w);
                } else {
                    assert(tail[tail.len() - 1] == w);
                    assert(plan[plan.len() - 1] == w);
                }
            }
        }
        assert forall|i: int, j: int| 0 <= i < j < plan.len() implies precedes(
            #[trigger] plan[i],
            #[trigger] plan[j],
        ) by {
            if j < head.len() {
                assert(precedes(head[i], head[j]));
            } else if i < head.len() {
                assert(head.contains(head[i]));
            }
        }
    }
}

/// An endpoint has a TCP relay unless it asks for none, and a UDP relay exactly
/// if it asks for one, whatever the other endpoints ask for; each relay is there
/// once. The relays come in the order of their endpoints, and the UDP relay of an
/// endpoint comes before its TCP relay.
pub proof fn endpoints_get_what_they_ask_for<E>(
    infos: Seq<EndpointInfo<E>>,
    index: usize,
    i: int,
    j: int,
)
    requires
        infos.len() <= usize::MAX,
    ensures
        worker_plan(infos).contains(Worker { endpoint: index, protocol: Protocol::Tcp })
            <==> index < infos.len() && !infos[index as int].no_tcp,
        worker_plan(infos).contains(Worker { endpoint: index, protocol: Protocol::Udp })
            <==> index < infos.len() && infos[index as int].use_udp,
        0 <= i < j < worker_plan(infos).len() ==> {
            let (first, second) = (worker_plan(infos)[i], worker_plan(infos)[j]);
            &&& first != second
            &&& first.endpoint <= second.endpoint
            &&& first.endpoint == second.endpoint ==> first.protocol == Protocol::Udp
                && second.protocol == Protocol::Tcp
        },
{
    plan_is_exact(infos);
}

/// There are as many relays as the endpoints ask for: one for each that does not
/// refuse TCP, and one for each that asks for UDP.
pub proof fn relays_are_counted<E>(infos: Seq<EndpointInfo<E>>)
    ensures
        worker_plan(infos).len() == infos.filter(|info: EndpointInfo<E>| !info.no_tcp).len()
            + infos.filter(|info: EndpointInfo<E>| info.use_udp).len(),
    decreases infos.len(),
{
    let tcp = |info: EndpointInfo<E>| !info.no_tcp;
    let udp = |info: EndpointInfo<E>| info.use_udp;
    reveal(Seq::filter);
    if infos.len() > 0 {
        relays_are_counted(infos.drop_last());
        assert(infos.filter(tcp).len() == infos.drop_last().filter(tcp).len() + (if tcp(
            infos.last(),
        ) {
            1int
        } else {
            0int
        }));
        assert(infos.filter(udp).len() == infos.drop_last().filter(udp).len() + (if udp(
            infos.last(),
        ) {
            1int
        } else {
            0int
        }));
    }
}

/// Endpoints that are added behind others change nothing of the relays that the
/// others have, which stay in front.
pub proof fn later_endpoints_change_nothing<E>(
    infos: Seq<EndpointInfo<E>>,
    later: Seq<EndpointInfo<E>>,
)
    ensures
        worker_plan(infos).is_prefix_of(worker_plan(infos + later)),
    decreases later.len(),
{
    let all = infos + later;
    if later.len() == 0 {
        assert(all =~= infos);
        assert(worker_plan(infos) =~= worker_plan(all).subrange(0, worker_plan(all).len() as int));
    } else {
        later_endpoints_change_nothing(infos, later.drop_last());
        assert(all.drop_last() =~= infos + later.drop_last());
        let before = worker_plan(all.drop_last());
        assert(worker_plan(all).subrange(0, worker_plan(infos).len() as int)
            =~= before.subrange(0, worker_plan(infos).len() as int));
    }
}

/// A hang-up leads to a reload, and nothing else does; the process comes to its
/// end only when no relay is left.
pub proof fn only_a_hangup_reloads(end: ServeEnd)
    ensures
        action_after(end) == Action::Reload <==> end == ServeEnd::HangUp,
        action_after(end) == Action::Shutdown <==> end == ServeEnd::WorkersDone,
{
}

/// An endpoint that sets neither option is served over TCP alone.
pub proof fn tcp_is_the_default<E>(infos: Seq<EndpointInfo<E>>, index: usize)
    requires
        infos.len() <= usize::MAX,
        index < infos.len(),
        !infos[index as int].no_tcp,
        !infos[index as int].use_udp,
    ensures
        worker_plan(infos).contains(Worker { endpoint: index, protocol: Protocol::Tcp }),
        !worker_plan(infos).contains(Worker { endpoint: index, protocol: Protocol::Udp }),
{
    plan_is_exact(infos);
}

} // verus!
