use firewall_updater::models::FirewallRules;
use firewall_updater::reconcile::{is_success, Action, Event, Outcome, Reconciler, Stage};

fn only_address(doc: &FirewallRules) -> Vec<String> {
    assert_eq!(doc.inbound_rules.len(), 1);
    assert_eq!(doc.inbound_rules[0].protocol, "tcp");
    assert_eq!(doc.inbound_rules[0].ports, "22");
    doc.inbound_rules[0].sources.addresses.clone()
}

#[test]
fn unchanged_address_issues_only_discovery() {
    let mut r = Reconciler::new(22, false);
    r.last_applied = Some(String::from("1.2.3.4"));
    let a = r.step(Event::Observed(String::from("1.2.3.4")));
    assert!(matches!(a, Action::Sleep(Outcome::Unchanged)));
    assert_eq!(r.last_applied.as_deref(), Some("1.2.3.4"));
    let a = r.step(Event::Woke);
    assert!(matches!(a, Action::ObserveIp));
}

#[test]
fn idle_loop_replaces_stale_address() {
    let mut r = Reconciler::new(22, false);
    assert!(r.last_applied.is_none());
    let a = r.step(Event::Observed(String::from("5.6.7.8")));
    assert!(matches!(a, Action::FetchRules));
    let a = r.step(Event::Fetched(vec![String::from("9.9.9.9")]));
    match a {
        Action::RemoveAddresses(doc) => assert_eq!(only_address(&doc), vec!["9.9.9.9"]),
        _ => panic!("expected a removal"),
    }
    let a = r.step(Event::RemoveAnswered(200));
    match a {
        Action::AddAddress(doc) => assert_eq!(only_address(&doc), vec!["5.6.7.8"]),
        _ => panic!("expected an addition"),
    }
    let a = r.step(Event::AddAnswered(201));
    assert!(matches!(a, Action::Sleep(Outcome::Applied)));
    assert_eq!(r.last_applied.as_deref(), Some("5.6.7.8"));
}

#[test]
fn rejected_add_keeps_state_and_retries() {
    let mut r = Reconciler::new(22, false);
    r.step(Event::Observed(String::from("5.6.7.8")));
    r.step(Event::Fetched(vec![String::from("9.9.9.9")]));
    r.step(Event::RemoveAnswered(204));
    let a = r.step(Event::AddAnswered(422));
    assert!(matches!(a, Action::Sleep(Outcome::AddFailed)));
    assert!(r.last_applied.is_none());
    assert!(matches!(r.step(Event::Woke), Action::ObserveIp));
    assert!(matches!(r.step(Event::Observed(String::from("5.6.7.8"))), Action::FetchRules));
}

#[test]
fn repeated_address_after_success_is_quiet() {
    let mut r = Reconciler::new(22, false);
    r.step(Event::Observed(String::from("5.6.7.8")));
    r.step(Event::Fetched(vec![String::from("9.9.9.9")]));
    r.step(Event::RemoveAnswered(200));
    r.step(Event::AddAnswered(200));
    assert!(matches!(r.step(Event::Woke), Action::ObserveIp));
    let a = r.step(Event::Observed(String::from("5.6.7.8")));
    assert!(matches!(a, Action::Sleep(Outcome::Unchanged)));
}

#[test]
fn empty_listing_skips_removal() {
    let mut r = Reconciler::new(22, false);
    r.step(Event::Observed(String::from("5.6.7.8")));
    match r.step(Event::Fetched(vec![])) {
        Action::AddAddress(doc) => assert_eq!(only_address(&doc), vec!["5.6.7.8"]),
        _ => panic!("expected an addition"),
    }
}

#[test]
fn each_failure_ends_the_tick() {
    let mut r = Reconciler::new(22, false);
    assert!(matches!(r.step(Event::ObserveFailed), Action::Sleep(Outcome::ObserveFailed)));
    r.step(Event::Woke);
    r.step(Event::Observed(String::from("5.6.7.8")));
    assert!(matches!(r.step(Event::FetchFailed), Action::Sleep(Outcome::FetchFailed)));
    r.step(Event::Woke);
    r.step(Event::Observed(String::from("5.6.7.8")));
    r.step(Event::Fetched(vec![String::from("9.9.9.9")]));
    assert!(matches!(r.step(Event::RemoveAnswered(500)), Action::Sleep(Outcome::RemoveFailed)));
    r.step(Event::Woke);
    r.step(Event::Observed(String::from("5.6.7.8")));
    r.step(Event::Fetched(vec![String::from("9.9.9.9")]));
    assert!(matches!(r.step(Event::RemoveFailed), Action::Sleep(Outcome::RemoveFailed)));
    r.step(Event::Woke);
    r.step(Event::Observed(String::from("5.6.7.8")));
    r.step(Event::Fetched(vec![String::from("9.9.9.9")]));
    r.step(Event::RemoveAnswered(200));
    assert!(matches!(r.step(Event::AddFailed), Action::Sleep(Outcome::AddFailed)));
    assert!(r.last_applied.is_none());
}

#[test]
fn single_run_finishes_after_one_tick() {
    let mut r = Reconciler::new(22, true);
    assert!(matches!(r.step(Event::ObserveFailed), Action::Finish(Outcome::ObserveFailed)));
    assert!(r.is_finished());
    assert!(matches!(r.stage, Stage::Finished(Outcome::ObserveFailed)));
    assert!(!r.accepts(&Event::Woke));
}

#[test]
fn accepts_only_the_awaited_answer() {
    let mut r = Reconciler::new(22, false);
    assert!(r.accepts(&Event::Observed(String::from("1.1.1.1"))));
    assert!(r.accepts(&Event::ObserveFailed));
    assert!(!r.accepts(&Event::Woke));
    assert!(!r.accepts(&Event::AddAnswered(200)));
    r.step(Event::Observed(String::from("1.1.1.1")));
    assert!(r.accepts(&Event::Fetched(vec![])));
    assert!(!r.accepts(&Event::RemoveFailed));
}

#[test]
fn success_statuses() {
    assert!(!is_success(199));
    assert!(is_success(200));
    assert!(is_success(204));
    assert!(is_success(299));
    assert!(!is_success(300));
    assert!(!is_success(404));
}
