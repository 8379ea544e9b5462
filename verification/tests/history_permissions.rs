use netguard::checks::{CheckCategory, CheckOutcome, Severity};
use netguard::history::{clear, get, latest, list_summaries, save, ScanRecord, MAX_HISTORY};
use netguard::permissions::{get_all, get_one, set_one, PermissionMap, PermissionState};
use netguard::scan::previous_raw_keys;

fn record(id: &str) -> ScanRecord {
    ScanRecord {
        id: id.to_string(),
        timestamp: "2026-01-01T00:00:00+00:00".to_string(),
        overall_severity: Severity::Okay,
        executed_count: 0,
        total_count: 0,
        outcomes: vec![CheckOutcome::PermissionDenied { id: "c".into(), name: "c".into(), category: CheckCategory::System }],
    }
}

#[test]
fn history_is_newest_first_and_bounded() {
    let mut h = Vec::new();
    for i in 0..(MAX_HISTORY + 5) {
        save(&mut h, record(&i.to_string()));
    }
    assert_eq!(h.len(), MAX_HISTORY);
    assert_eq!(latest(&h).unwrap().id, (MAX_HISTORY + 4).to_string());
    assert_eq!(get(&h, "104").unwrap().id, "104");
    assert!(get(&h, "0").is_none());
    assert_eq!(list_summaries(&h)[1].id, "103");
    clear(&mut h);
    assert!(latest(&h).is_none());
}

#[test]
fn previous_keys_skip_incomplete_outcomes() {
    let r = record("a");
    assert!(previous_raw_keys(Some(&r)).is_empty());
    assert!(previous_raw_keys(None).is_empty());
}

#[test]
fn permission_defaults_and_read_after_write() {
    let mut m = PermissionMap::new();
    assert_eq!(get_one(&m, "wifi_security_posture"), PermissionState::AskEveryTime);
    set_one(&mut m, "wifi_security_posture", PermissionState::Denied);
    set_one(&mut m, "arp_anomaly_heuristic", PermissionState::Allowed);
    set_one(&mut m, "wifi_security_posture", PermissionState::Allowed);
    assert_eq!(get_one(&m, "wifi_security_posture"), PermissionState::Allowed);
    let all = get_all(&m, &["arp_anomaly_heuristic", "firewall_status"]);
    assert_eq!(all, vec![("arp_anomaly_heuristic".to_string(), PermissionState::Allowed), ("firewall_status".to_string(), PermissionState::AskEveryTime)]);
    assert_eq!(PermissionState::default(), PermissionState::AskEveryTime);
}
