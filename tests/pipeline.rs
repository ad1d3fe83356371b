use siren::checker::{choose_action, is_supported, status_from_probe, CheckAction, CheckTask};
use siren::dispatcher::plan_checks;
use siren::notifier::{Notifier, NotifierAction, NotifierEvent, NotifierState};
use siren::service::{ProbeError, Service, ServiceType, StatusRecord};

fn svc(host: &str, service_type: ServiceType, name: &str, enabled: bool) -> Service {
    Service::new(host.to_string(), service_type, name.to_string(), enabled)
}

/// Runs the notifier over `records` as they arrive, with a sink that fails on
/// the deliveries whose index is in `failing`; returns the messages it was asked
/// to deliver and the final state.
fn drive(records: Vec<StatusRecord>, failing: &[usize]) -> (Vec<String>, NotifierState) {
    let mut notifier = Notifier::new();
    let mut pending = records.into_iter();
    let mut sent: Vec<String> = Vec::new();
    let mut action = notifier.step(NotifierEvent::Start);
    loop {
        match action {
            NotifierAction::Receive => {
                let ev = match pending.next() {
                    Some(r) => NotifierEvent::Received(r),
                    None => NotifierEvent::Closed,
                };
                assert!(notifier.accepts(&ev));
                action = notifier.step(ev);
            }
            NotifierAction::Deliver(m) => {
                let failed = failing.contains(&sent.len());
                sent.push(m);
                let ev = if failed { NotifierEvent::DeliveryFailed } else { NotifierEvent::Delivered };
                action = notifier.step(ev);
            }
            NotifierAction::Finish => break,
        }
    }
    (sent, notifier.state())
}

/// Checks every planned task with the outcome `probe` gives for its host.
fn check_all(services: &Vec<Service>, probe: impl Fn(&str) -> Result<(), ProbeError>) -> Vec<StatusRecord> {
    plan_checks(services)
        .into_iter()
        .filter_map(|t| {
            let outcome = probe(&t.service.host);
            t.finish(outcome)
        })
        .collect()
}

#[test]
fn scenario_single_service_up() {
    let services = vec![svc("http://ok.example", ServiceType::Http, "A", true)];
    let records = check_all(&services, |_| Ok(()));
    assert_eq!(records.len(), 1);
    assert_eq!(records[0].service.name, "A");
    assert!(records[0].is_up);
    let (sent, state) = drive(records, &[]);
    assert_eq!(sent, vec!["A is UP".to_string()]);
    assert_eq!(state, NotifierState::Done);
}

#[test]
fn scenario_single_service_timeout_is_down() {
    let services = vec![svc("http://down.example", ServiceType::Http, "B", true)];
    let records = check_all(&services, |_| Err(ProbeError::Timeout));
    let (sent, state) = drive(records, &[]);
    assert_eq!(sent, vec!["B is DOWN".to_string()]);
    assert_eq!(state, NotifierState::Done);
}

#[test]
fn scenario_disabled_service_spawns_nothing() {
    let services = vec![svc("http://c.example", ServiceType::Http, "C", false)];
    let tasks = plan_checks(&services);
    assert_eq!(tasks.len(), 0);
    let (sent, state) = drive(Vec::new(), &[]);
    assert!(sent.is_empty());
    assert_eq!(state, NotifierState::Done);
}

#[test]
fn scenario_one_up_one_down() {
    let services = vec![
        svc("http://up.example", ServiceType::Http, "Up", true),
        svc("http://down.example", ServiceType::Http, "Down", true),
    ];
    let mut records =
        check_all(&services, |h| if h == "http://up.example" { Ok(()) } else { Err(ProbeError::Connect) });
    // arrival order is not fixed: deliver in reverse of configuration order
    records.reverse();
    let (mut sent, state) = drive(records, &[]);
    sent.sort();
    assert_eq!(sent, vec!["Down is DOWN".to_string(), "Up is UP".to_string()]);
    assert_eq!(state, NotifierState::Done);
}

#[test]
fn every_eligible_service_yields_one_status() {
    let services = vec![
        svc("http://a", ServiceType::Http, "a", true),
        svc("http://b", ServiceType::Http, "b", false),
        svc("tcp://c", ServiceType::Tcp, "c", true),
        svc("http://d", ServiceType::Http, "d", true),
        svc("http://d", ServiceType::Http, "d", true),
    ];
    for fail_all in [false, true] {
        let records = check_all(&services, |_| if fail_all { Err(ProbeError::Other) } else { Ok(()) });
        let names: Vec<String> = records.iter().map(|r| r.service.name.clone()).collect();
        assert_eq!(names, vec!["a".to_string(), "d".to_string(), "d".to_string()]);
        assert!(records.iter().all(|r| r.is_up != fail_all));
    }
}

#[test]
fn disabled_services_are_never_probed() {
    let services = vec![
        svc("http://a", ServiceType::Http, "a", false),
        svc("tcp://b", ServiceType::Tcp, "b", false),
        svc("http://c", ServiceType::Http, "c", true),
    ];
    let probed = std::cell::RefCell::new(Vec::new());
    let records = check_all(&services, |h| {
        probed.borrow_mut().push(h.to_string());
        Ok(())
    });
    assert_eq!(probed.into_inner(), vec!["http://c".to_string()]);
    assert_eq!(records.len(), 1);
}

#[test]
fn unsupported_type_is_skipped_and_others_still_reported() {
    let services = vec![
        svc("tcp://db:5432", ServiceType::Tcp, "db", true),
        svc("http://web", ServiceType::Http, "web", true),
    ];
    let tasks = plan_checks(&services);
    assert_eq!(tasks.len(), 2);
    assert_eq!(tasks[0].action, CheckAction::Skip);
    assert_eq!(tasks[1].action, CheckAction::Probe);
    let records = check_all(&services, |_| Ok(()));
    let (sent, state) = drive(records, &[]);
    assert_eq!(sent, vec!["web is UP".to_string()]);
    assert_eq!(state, NotifierState::Done);
}

#[test]
fn notifier_terminates_with_no_records() {
    let (sent, state) = drive(Vec::new(), &[]);
    assert!(sent.is_empty());
    assert_eq!(state, NotifierState::Done);
}

#[test]
fn notifier_accepts_nothing_when_done() {
    let mut n = Notifier::new();
    assert_eq!(n.state(), NotifierState::Idle);
    assert!(!n.accepts(&NotifierEvent::Closed));
    n.step(NotifierEvent::Start);
    assert!(matches!(n.step(NotifierEvent::Closed), NotifierAction::Finish));
    assert!(!n.accepts(&NotifierEvent::Start));
    assert!(!n.accepts(&NotifierEvent::Closed));
    assert!(!n.accepts(&NotifierEvent::Delivered));
}

#[test]
fn probe_error_is_down_and_success_is_up() {
    for e in [ProbeError::Timeout, ProbeError::Connect, ProbeError::Other] {
        let r = status_from_probe(svc("http://x", ServiceType::Http, "x", true), Err(e));
        assert!(!r.is_up);
        assert_eq!(r.service.host, "http://x");
    }
    let r = status_from_probe(svc("http://x", ServiceType::Http, "x", true), Ok(()));
    assert!(r.is_up);
    assert_eq!(r.message(), "x is UP");
}

#[test]
fn failed_delivery_does_not_stop_later_ones() {
    let records = vec![
        status_from_probe(svc("http://1", ServiceType::Http, "one", true), Ok(())),
        status_from_probe(svc("http://2", ServiceType::Http, "two", true), Err(ProbeError::Connect)),
        status_from_probe(svc("http://3", ServiceType::Http, "three", true), Ok(())),
    ];
    let (sent, state) = drive(records, &[0, 1]);
    assert_eq!(sent, vec!["one is UP".to_string(), "two is DOWN".to_string(), "three is UP".to_string()]);
    assert_eq!(state, NotifierState::Done);
}

#[test]
fn messages_follow_arrival_order() {
    let records = vec![
        status_from_probe(svc("h", ServiceType::Http, "zeta", true), Ok(())),
        status_from_probe(svc("h", ServiceType::Http, "alpha", true), Err(ProbeError::Timeout)),
    ];
    let (sent, _) = drive(records, &[]);
    assert_eq!(sent, vec!["zeta is UP".to_string(), "alpha is DOWN".to_string()]);
}

#[test]
fn type_support_and_actions() {
    assert!(is_supported(ServiceType::Http));
    assert!(!is_supported(ServiceType::Tcp));
    assert_eq!(choose_action(ServiceType::Http), CheckAction::Probe);
    assert_eq!(choose_action(ServiceType::Tcp), CheckAction::Skip);
    let t = CheckTask::for_service(svc("tcp://x", ServiceType::Tcp, "x", true));
    assert!(t.finish(Ok(())).is_none());
}

#[test]
fn empty_configuration_plans_nothing() {
    assert_eq!(plan_checks(&Vec::new()).len(), 0);
}

#[test]
fn duplicate_copies_every_field() {
    let s = svc("http://h", ServiceType::Tcp, "n", false);
    let d = s.duplicate();
    assert_eq!(d.host, "http://h");
    assert_eq!(d.name, "n");
    assert_eq!(d.service_type, ServiceType::Tcp);
    assert!(!d.enabled);
}
