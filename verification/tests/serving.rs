use realm_control::workers::{
    plan_workers, serve_outcome, watches_hangup, Action, EndpointInfo, Protocol, ServeEnd, Worker,
};

fn info(no_tcp: bool, use_udp: bool) -> EndpointInfo<()> {
    EndpointInfo { endpoint: (), no_tcp, use_udp }
}

fn tcp(endpoint: usize) -> Worker {
    Worker { endpoint, protocol: Protocol::Tcp }
}

fn udp(endpoint: usize) -> Worker {
    Worker { endpoint, protocol: Protocol::Udp }
}

#[test]
fn tcp_alone_by_default() {
    assert_eq!(plan_workers(&vec![info(false, false)]), vec![tcp(0)]);
}

#[test]
fn udp_alone_on_request() {
    assert_eq!(plan_workers(&vec![info(true, true)]), vec![udp(0)]);
}

#[test]
fn udp_comes_before_tcp() {
    assert_eq!(plan_workers(&vec![info(false, true)]), vec![udp(0), tcp(0)]);
}

#[test]
fn an_endpoint_may_want_nothing() {
    assert_eq!(plan_workers(&vec![info(true, false)]), vec![]);
    assert_eq!(plan_workers::<()>(&vec![]), vec![]);
}

#[test]
fn workers_follow_the_order_of_endpoints() {
    let infos = vec![info(false, true), info(true, false), info(false, false), info(true, true)];
    assert_eq!(plan_workers(&infos), vec![udp(0), tcp(0), tcp(2), udp(3)]);
}

#[test]
fn hangup_is_watched_for_only_where_it_can_reload() {
    assert!(watches_hangup(true, true));
    assert!(!watches_hangup(true, false));
    assert!(!watches_hangup(false, true));
    assert!(!watches_hangup(false, false));
}

#[test]
fn the_end_of_serving_decides() {
    assert_eq!(serve_outcome(ServeEnd::HangUp), Action::Reload);
    assert_eq!(serve_outcome(ServeEnd::WorkersDone), Action::Shutdown);
}
