use netguard::checks::{all_checks, CheckCategory, CheckOutcome, CheckResult, Severity};
use netguard::permissions::PermissionState;
use netguard::scan::{catalog, rollup, select_checks, ScanSession};

fn filtered_ids(categories: Option<&[CheckCategory]>) -> Vec<String> {
    select_checks(categories).iter().map(|c| c.id().to_string()).collect()
}

#[test]
fn none_or_empty_categories_means_full_catalog() {
    let full = all_checks().len();
    assert_eq!(filtered_ids(None).len(), full);
    assert_eq!(filtered_ids(Some(&[])).len(), full);
}

#[test]
fn single_category_only_returns_matching_checks() {
    let network_ids = filtered_ids(Some(&[CheckCategory::Network]));
    assert!(!network_ids.is_empty());
    let all = all_checks();
    for id in &network_ids {
        let check = all.iter().find(|c| c.id() == id).unwrap();
        assert_eq!(check.category(), CheckCategory::Network);
    }
    assert!(network_ids.len() < all.len());
}

#[test]
fn multiple_categories_union_their_checks() {
    let combined = filtered_ids(Some(&[CheckCategory::Network, CheckCategory::Persistence]));
    let network_only = filtered_ids(Some(&[CheckCategory::Network]));
    let persistence_only = filtered_ids(Some(&[CheckCategory::Persistence]));
    assert_eq!(combined.len(), network_only.len() + persistence_only.len());
}

fn completed(id: &str, severity: Severity) -> CheckOutcome {
    CheckOutcome::Completed(CheckResult {
        id: id.to_string(),
        name: id.to_string(),
        category: CheckCategory::System,
        severity,
        verdict: String::new(),
        findings: vec![],
        remediation: None,
        data_source: String::new(),
        raw_keys: vec![],
    })
}

#[test]
fn rollup_ignores_skipped_and_defaults_to_caution() {
    let denied = CheckOutcome::PermissionDenied { id: "x".into(), name: "x".into(), category: CheckCategory::Network };
    assert_eq!(rollup(&vec![denied.clone()]), (Severity::Caution, 0));
    assert_eq!(rollup(&vec![denied, completed("a", Severity::Okay)]), (Severity::Okay, 1));
    assert_eq!(rollup(&vec![completed("a", Severity::AtRisk), completed("b", Severity::Okay)]), (Severity::AtRisk, 2));
}

#[test]
fn catalog_lists_every_check() {
    let c = catalog();
    assert_eq!(c.len(), 17);
    assert_eq!(c[0].id, "wifi_security_posture");
}

#[test]
fn session_skips_ask_every_time_without_approval() {
    let mut s = ScanSession::start(vec![], Some(&[CheckCategory::Persistence]));
    let p = s.progress().unwrap();
    assert_eq!(p.running_id, "startup_persistence_entries");
    assert_eq!(s.decide(PermissionState::AskEveryTime), None);
    assert!(s.is_done());
    let (record, complete) = s.finish("id1".into(), "2026-01-01T00:00:00+00:00".into());
    assert_eq!(record.executed_count, 0);
    assert_eq!(complete.overall_severity, Severity::Caution);
    assert!(matches!(record.outcomes[0], CheckOutcome::PermissionDenied { .. }));
}

#[test]
fn session_runs_approved_check_and_records_result() {
    let mut s = ScanSession::start(vec!["startup_persistence_entries".to_string()], Some(&[CheckCategory::Persistence]));
    let k = s.decide(PermissionState::AskEveryTime).unwrap();
    assert_eq!(k.id(), "startup_persistence_entries");
    s.complete(None);
    assert!(s.is_done());
    match &s.outcomes[0] {
        CheckOutcome::Error { message, .. } => assert_eq!(message, "The check failed unexpectedly while running."),
        _ => panic!("expected an error outcome"),
    }
}

#[test]
fn whole_scan_run_records_one_outcome_per_check_in_order() {
    let considered = filtered_ids(Some(&[CheckCategory::Network]));
    let mut s = ScanSession::start(vec![], Some(&[CheckCategory::Network]));
    let mut n = 0;
    while s.progress().is_some() {
        let state = if n % 2 == 0 { PermissionState::Allowed } else { PermissionState::Denied };
        if let Some(kind) = s.decide(state) {
            s.complete(Some(CheckResult {
                id: kind.id().to_string(),
                name: kind.name().to_string(),
                category: kind.category(),
                severity: Severity::Okay,
                verdict: "fine".to_string(),
                findings: vec![],
                remediation: None,
                data_source: "test".to_string(),
                raw_keys: vec![],
            }));
        }
        n += 1;
    }
    let (record, complete) = s.finish("run1".into(), "2026-01-01T00:00:00+00:00".into());
    let ids: Vec<String> = record.outcomes.iter().map(|o| o.id().to_string()).collect();
    assert_eq!(ids, considered);
    assert_eq!(record.total_count, considered.len());
    assert_eq!(complete.total_count, considered.len());
    assert_eq!((record.overall_severity, record.executed_count), rollup(&record.outcomes));
    assert_eq!(record.executed_count, (considered.len() + 1) / 2);
    assert_eq!(complete.id, record.id);
    let mut history = vec![];
    netguard::history::save(&mut history, record);
    assert_eq!(netguard::history::latest(&history).unwrap().id, "run1");
}
