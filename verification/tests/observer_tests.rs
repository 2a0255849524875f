use buds_bt::observer::AdapterEvent;
use buds_bt::observer::DeviceReport;
use buds_bt::observer::EventAction;
use buds_bt::observer::NotifyDecision;
use buds_bt::observer::check_and_notify;
use buds_bt::observer::classify_event;
use buds_bt::observer::sweep_emissions;

fn path(s: &str) -> String {
    s.to_owned()
}

#[test]
fn check_and_notify_emits_when_qualified_and_resolved() {
    let d = check_and_notify(true, Some(path("AA:BB:CC:DD:EE:FF")));
    match d {
        NotifyDecision::Emit { address } => assert_eq!(address, "AA:BB:CC:DD:EE:FF"),
        _ => panic!("a qualifying, resolved device must be emitted"),
    }
}

#[test]
fn check_and_notify_skips_when_not_qualified() {
    assert!(matches!(
        check_and_notify(false, Some(path("AA:BB:CC:DD:EE:FF"))),
        NotifyDecision::Skip
    ));
    assert!(matches!(check_and_notify(false, None), NotifyDecision::Skip));
}

#[test]
fn check_and_notify_reports_failed_resolution() {
    assert!(matches!(check_and_notify(true, None), NotifyDecision::ResolveFailed));
}

#[test]
fn connected_event_triggers_check() {
    let e = AdapterEvent::ConnectivityChanged { path: path("/dev/0"), connected: true };
    match classify_event(e) {
        EventAction::Check { path } => assert_eq!(path, "/dev/0"),
        EventAction::Ignore => panic!("an arrival must be checked"),
    }
}

#[test]
fn disconnected_event_is_ignored() {
    let e = AdapterEvent::ConnectivityChanged { path: path("/dev/0"), connected: false };
    assert!(matches!(classify_event(e), EventAction::Ignore));
}

#[test]
fn other_event_is_ignored() {
    assert!(matches!(classify_event(AdapterEvent::Other), EventAction::Ignore));
}

fn report(connected: Option<bool>, qualifies: bool, resolved: Option<&str>) -> DeviceReport {
    DeviceReport { connected, qualifies, resolved: resolved.map(|s| s.to_owned()) }
}

#[test]
fn sweep_emits_qualifying_devices_in_order() {
    let reports = vec![
        report(Some(true), true, Some("11:11:11:11:11:11")),
        report(Some(true), false, Some("22:22:22:22:22:22")),
        report(Some(true), true, Some("33:33:33:33:33:33")),
    ];
    let out = sweep_emissions(&reports);
    assert_eq!(out, vec!["11:11:11:11:11:11".to_owned(), "33:33:33:33:33:33".to_owned()]);
}

#[test]
fn sweep_emits_each_qualifying_device_exactly_once() {
    let reports = vec![
        report(Some(true), true, Some("11:11:11:11:11:11")),
        report(Some(true), true, Some("11:11:11:11:11:11")),
    ];
    let out = sweep_emissions(&reports);
    assert_eq!(out.len(), 2);
}

#[test]
fn sweep_skips_failed_or_negative_connectivity_queries() {
    let reports = vec![
        report(None, true, Some("11:11:11:11:11:11")),
        report(Some(false), true, Some("22:22:22:22:22:22")),
        report(Some(true), true, Some("33:33:33:33:33:33")),
    ];
    let out = sweep_emissions(&reports);
    assert_eq!(out, vec!["33:33:33:33:33:33".to_owned()]);
}

#[test]
fn sweep_skips_unresolved_addresses() {
    let reports = vec![report(Some(true), true, None)];
    let out = sweep_emissions(&reports);
    assert!(out.is_empty());
}

#[test]
fn sweep_of_nothing_emits_nothing() {
    let out = sweep_emissions(&Vec::new());
    assert!(out.is_empty());
}
