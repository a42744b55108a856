use rpc_discover::discover::{Action, Change, Event, RPCDiscover};
use rpc_discover::model::{ROUND_INTERVAL_SECS, SOFT_CAP};
use rpc_discover::probe::{check_rpc, Endpoint, ProbeReport, PROBE_TIMEOUT_SECS};

fn addrs(list: &[&str]) -> Vec<String> {
    list.iter().map(|addr| addr.to_string()).collect()
}

fn endpoint(addr: &str) -> Endpoint {
    Endpoint { addr: addr.to_string() }
}

fn probed(addr: &str, report: ProbeReport) -> Event {
    Event::Probed { addr: addr.to_string(), report }
}

/// Drives one loop as its driver would: wakes it, reports the probes in
/// the order given, and lets the consumer take `open_for` changes before it
/// goes away. Returns the loop, the changes that were delivered and every
/// action that was asked for.
fn drive(
    backlog: &[&str],
    completions: &[(&str, ProbeReport)],
    open_for: usize,
) -> (RPCDiscover, Vec<Change>, Vec<Action>) {
    let mut delivered = Vec::new();
    let mut actions = Vec::new();
    let (mut discover, first) = RPCDiscover::new(addrs(backlog)).run(Event::Wake);
    actions.push(first);
    for (addr, report) in completions {
        let (next, action) = discover.run(probed(addr, *report));
        discover = next;
        actions.push(action.clone());
        if let Action::Publish(change) = action {
            let event = if delivered.len() < open_for {
                delivered.push(change);
                Event::Delivered
            } else {
                Event::Disconnected
            };
            let (next, action) = discover.run(event);
            discover = next;
            actions.push(action);
        }
    }
    (discover, delivered, actions)
}

#[test]
fn probe_result_follows_the_report() {
    assert_eq!(check_rpc("node:18081".to_string(), ProbeReport::Alive), Some(endpoint("node:18081")));
    assert_eq!(check_rpc("node:18081".to_string(), ProbeReport::ConstructionFailed), None);
    assert_eq!(check_rpc("node:18081".to_string(), ProbeReport::CallFailed), None);
    assert_eq!(check_rpc("node:18081".to_string(), ProbeReport::TimedOut), None);
}

#[test]
fn fixed_durations_and_cap() {
    assert_eq!(PROBE_TIMEOUT_SECS, 2);
    assert_eq!(ROUND_INTERVAL_SECS, 2);
    assert_eq!(SOFT_CAP, 100);
}

#[test]
fn new_loop_has_admitted_nothing() {
    let discover = RPCDiscover::new(addrs(&["a", "b"]));
    assert_eq!(discover.initial_list(), &addrs(&["a", "b"]));
    assert!(discover.already_connected().is_empty());
    assert!(!discover.is_stopped());
}

#[test]
fn wake_hands_out_the_whole_backlog() {
    let (discover, action) = RPCDiscover::new(addrs(&["a", "b", "a"])).run(Event::Wake);
    assert_eq!(action, Action::Probe { addrs: addrs(&["a", "b", "a"]), timeout_secs: 2 });
    assert!(discover.initial_list().is_empty());
    assert!(discover.already_connected().is_empty());
}

#[test]
fn wake_with_empty_backlog_rests() {
    let (discover, action) = RPCDiscover::new(Vec::new()).run(Event::Wake);
    assert_eq!(action, Action::Sleep { secs: 2, notice: false });
    let (discover, action) = discover.run(Event::Wake);
    assert_eq!(action, Action::Sleep { secs: 2, notice: false });
    assert!(!discover.is_stopped());
}

#[test]
fn only_the_reachable_candidate_is_admitted() {
    let (discover, delivered, actions) = drive(
        &["a", "b", "c"],
        &[("a", ProbeReport::ConstructionFailed), ("c", ProbeReport::Alive), ("b", ProbeReport::TimedOut)],
        usize::MAX,
    );
    assert_eq!(delivered, vec![Change::Insert(0, endpoint("c"))]);
    assert_eq!(discover.already_connected(), &addrs(&["c"]));
    assert_eq!(
        actions,
        vec![
            Action::Probe { addrs: addrs(&["a", "b", "c"]), timeout_secs: 2 },
            Action::Wait,
            Action::Publish(Change::Insert(0, endpoint("c"))),
            Action::Wait,
            Action::Sleep { secs: 2, notice: false },
        ]
    );
    assert!(!discover.is_stopped());
}

#[test]
fn slots_follow_completion_order() {
    let (discover, delivered, _) =
        drive(&["x", "y"], &[("y", ProbeReport::Alive), ("x", ProbeReport::Alive)], usize::MAX);
    assert_eq!(delivered, vec![Change::Insert(0, endpoint("y")), Change::Insert(1, endpoint("x"))]);
    assert_eq!(discover.already_connected(), &addrs(&["y", "x"]));
}

#[test]
fn submission_order_does_not_matter() {
    let completions = [("b", ProbeReport::Alive), ("c", ProbeReport::Alive), ("a", ProbeReport::Alive)];
    let (_, one, _) = drive(&["a", "b", "c"], &completions, usize::MAX);
    let (_, other, _) = drive(&["c", "a", "b"], &completions, usize::MAX);
    assert_eq!(one, other);
    assert_eq!(
        one,
        vec![
            Change::Insert(0, endpoint("b")),
            Change::Insert(1, endpoint("c")),
            Change::Insert(2, endpoint("a")),
        ]
    );
}

#[test]
fn no_address_is_admitted_twice() {
    let (discover, delivered, _) = drive(
        &["a", "b", "a", "a"],
        &[
            ("a", ProbeReport::Alive),
            ("a", ProbeReport::Alive),
            ("b", ProbeReport::Alive),
            ("a", ProbeReport::Alive),
        ],
        usize::MAX,
    );
    assert_eq!(delivered, vec![Change::Insert(0, endpoint("a")), Change::Insert(1, endpoint("b"))]);
    assert_eq!(discover.already_connected(), &addrs(&["a", "b"]));
}

#[test]
fn rediscovery_publishes_nothing() {
    let (discover, action) = RPCDiscover::new(addrs(&["a", "a", "b"])).run(Event::Wake);
    assert!(matches!(action, Action::Probe { .. }));
    let (discover, action) = discover.run(probed("a", ProbeReport::Alive));
    assert_eq!(action, Action::Publish(Change::Insert(0, endpoint("a"))));
    let (discover, action) = discover.run(Event::Delivered);
    assert_eq!(action, Action::Wait);
    let (discover, action) = discover.run(probed("a", ProbeReport::Alive));
    assert_eq!(action, Action::Wait);
    assert_eq!(discover.already_connected(), &addrs(&["a"]));
    let (discover, action) = discover.run(probed("b", ProbeReport::CallFailed));
    assert_eq!(action, Action::Sleep { secs: 2, notice: false });
    assert_eq!(discover.already_connected(), &addrs(&["a"]));
}

#[test]
fn failed_probes_do_not_halt_the_round() {
    let (discover, delivered, actions) = drive(
        &["a", "b", "c", "d"],
        &[
            ("a", ProbeReport::ConstructionFailed),
            ("b", ProbeReport::TimedOut),
            ("c", ProbeReport::CallFailed),
            ("d", ProbeReport::Alive),
        ],
        usize::MAX,
    );
    assert_eq!(delivered, vec![Change::Insert(0, endpoint("d"))]);
    assert_eq!(
        actions,
        vec![
            Action::Probe { addrs: addrs(&["a", "b", "c", "d"]), timeout_secs: 2 },
            Action::Wait,
            Action::Wait,
            Action::Wait,
            Action::Publish(Change::Insert(0, endpoint("d"))),
            Action::Sleep { secs: 2, notice: false },
        ]
    );
    assert!(!discover.is_stopped());
}

#[test]
fn admission_waits_for_delivery() {
    let (discover, _) = RPCDiscover::new(addrs(&["a", "b"])).run(Event::Wake);
    let (discover, action) = discover.run(probed("a", ProbeReport::Alive));
    assert_eq!(action, Action::Publish(Change::Insert(0, endpoint("a"))));
    assert!(discover.already_connected().is_empty());
    let (discover, _) = discover.run(Event::Delivered);
    assert_eq!(discover.already_connected(), &addrs(&["a"]));
}

#[test]
fn closed_channel_stops_the_loop() {
    let (discover, delivered, actions) = drive(
        &["a", "b", "c"],
        &[("a", ProbeReport::Alive), ("b", ProbeReport::Alive)],
        1,
    );
    assert_eq!(delivered, vec![Change::Insert(0, endpoint("a"))]);
    assert_eq!(actions.last(), Some(&Action::Stop));
    assert!(discover.is_stopped());
    assert_eq!(discover.already_connected(), &addrs(&["a"]));

    let (discover, action) = discover.run(probed("c", ProbeReport::Alive));
    assert_eq!(action, Action::Stop);
    let (discover, action) = discover.run(Event::Wake);
    assert_eq!(action, Action::Stop);
    let (discover, action) = discover.run(Event::Delivered);
    assert_eq!(action, Action::Stop);
    assert!(discover.is_stopped());
    assert_eq!(discover.already_connected(), &addrs(&["a"]));
}

#[test]
fn closed_channel_at_first_publish_admits_nothing() {
    let (discover, delivered, actions) = drive(&["a", "b"], &[("a", ProbeReport::Alive)], 0);
    assert!(delivered.is_empty());
    assert_eq!(
        actions,
        vec![
            Action::Probe { addrs: addrs(&["a", "b"]), timeout_secs: 2 },
            Action::Publish(Change::Insert(0, endpoint("a"))),
            Action::Stop,
        ]
    );
    assert!(discover.already_connected().is_empty());
    assert!(discover.is_stopped());
}

#[test]
fn later_rounds_only_rest() {
    let (discover, _, _) = drive(&["a"], &[("a", ProbeReport::Alive)], usize::MAX);
    let (discover, action) = discover.run(Event::Wake);
    assert_eq!(action, Action::Sleep { secs: 2, notice: false });
    let (discover, action) = discover.run(Event::Wake);
    assert_eq!(action, Action::Sleep { secs: 2, notice: false });
    assert_eq!(discover.already_connected(), &addrs(&["a"]));
}

#[test]
fn events_out_of_turn_change_nothing() {
    let (discover, action) = RPCDiscover::new(addrs(&["a"])).run(Event::Delivered);
    assert_eq!(action, Action::Wait);
    let (discover, action) = discover.run(probed("a", ProbeReport::Alive));
    assert_eq!(action, Action::Wait);
    let (discover, action) = discover.run(Event::Disconnected);
    assert_eq!(action, Action::Wait);
    assert_eq!(discover.initial_list(), &addrs(&["a"]));
    assert!(discover.already_connected().is_empty());

    let (discover, _) = discover.run(Event::Wake);
    let (discover, action) = discover.run(Event::Wake);
    assert_eq!(action, Action::Wait);
    let (discover, action) = discover.run(Event::Disconnected);
    assert_eq!(action, Action::Wait);
    assert!(!discover.is_stopped());

    let (discover, action) = discover.run(probed("a", ProbeReport::Alive));
    assert_eq!(action, Action::Publish(Change::Insert(0, endpoint("a"))));
    let (discover, action) = discover.run(probed("a", ProbeReport::Alive));
    assert_eq!(action, Action::Wait);
    let (discover, action) = discover.run(Event::Wake);
    assert_eq!(action, Action::Wait);
    assert!(discover.already_connected().is_empty());
    let (discover, action) = discover.run(Event::Delivered);
    assert_eq!(action, Action::Sleep { secs: 2, notice: false });
    assert_eq!(discover.already_connected(), &addrs(&["a"]));
}

#[test]
fn notice_is_given_above_the_cap_only() {
    let names: Vec<String> = (0..102).map(|i| format!("node-{i}")).collect();
    let (mut discover, _) = RPCDiscover::new(names.clone()).run(Event::Wake);
    let mut last = Action::Wait;
    for (slot, name) in names.iter().enumerate() {
        let (next, action) = discover.run(Event::Probed { addr: name.clone(), report: ProbeReport::Alive });
        assert_eq!(action, Action::Publish(Change::Insert(slot, Endpoint { addr: name.clone() })));
        let (next, action) = next.run(Event::Delivered);
        discover = next;
        last = action;
    }
    assert_eq!(discover.already_connected().len(), 102);
    assert_eq!(last, Action::Sleep { secs: 2, notice: true });

    let hundred: Vec<String> = (0..100).map(|i| format!("node-{i}")).collect();
    let (mut discover, _) = RPCDiscover::new(hundred.clone()).run(Event::Wake);
    let mut last = Action::Wait;
    for name in hundred.iter() {
        let (next, _) = discover.run(Event::Probed { addr: name.clone(), report: ProbeReport::Alive });
        let (next, action) = next.run(Event::Delivered);
        discover = next;
        last = action;
    }
    assert_eq!(discover.already_connected().len(), 100);
    assert_eq!(last, Action::Sleep { secs: 2, notice: false });
}
