use netguard::checks::process_baseline::{evaluate, has_random_looking_name, raw_key, ProcessBaselineCheck, ProcessInfo};
use netguard::checks::{ScanContext, Severity};

#[test]
fn allowlisted_process_ignored() {
    let procs = vec![ProcessInfo { pid: 1, name: "explorer.exe".into(), exe_path: Some(r"C:\Windows\explorer.exe".into()) }];
    let (sev, _) = evaluate(&procs, None);
    assert_eq!(sev, Severity::Okay);
}

#[test]
fn temp_path_random_name_is_at_risk() {
    let procs = vec![ProcessInfo {
        pid: 2,
        name: "a1b2c3d4e5.exe".into(),
        exe_path: Some(r"C:\Users\bob\AppData\Local\Temp\a1b2c3d4e5.exe".into()),
    }];
    let (sev, findings) = evaluate(&procs, None);
    assert_eq!(sev, Severity::AtRisk);
    assert!(findings.iter().any(|f| f.detail.contains("random-looking")));
}

#[test]
fn temp_path_normal_name_is_caution() {
    let procs = vec![ProcessInfo {
        pid: 3,
        name: "installer.exe".into(),
        exe_path: Some(r"C:\Users\bob\AppData\Local\Temp\installer.exe".into()),
    }];
    let (sev, _) = evaluate(&procs, None);
    assert_eq!(sev, Severity::Caution);
}

#[test]
fn normal_program_files_path_is_ok() {
    let procs = vec![ProcessInfo {
        pid: 4,
        name: "somegame.exe".into(),
        exe_path: Some(r"C:\Program Files\Game\somegame.exe".into()),
    }];
    let (sev, _) = evaluate(&procs, None);
    assert_eq!(sev, Severity::Okay);
}

#[test]
fn new_temp_process_since_last_scan_is_at_risk() {
    let procs = vec![ProcessInfo {
        pid: 5,
        name: "installer.exe".into(),
        exe_path: Some(r"C:\Users\bob\AppData\Local\Temp\installer.exe".into()),
    }];
    let previous: Vec<String> = Vec::new();
    let (sev, findings) = evaluate(&procs, Some(&previous));
    assert_eq!(sev, Severity::AtRisk);
    assert!(findings.iter().any(|f| f.label.contains("new since last scan")));
}

#[test]
fn known_temp_process_from_last_scan_stays_caution() {
    let procs = vec![ProcessInfo {
        pid: 6,
        name: "installer.exe".into(),
        exe_path: Some(r"C:\Users\bob\AppData\Local\Temp\installer.exe".into()),
    }];
    let previous: Vec<String> = procs.iter().map(raw_key).collect();
    let (sev, _) = evaluate(&procs, Some(&previous));
    assert_eq!(sev, Severity::Caution);
}

#[test]
fn random_name_needs_eight_lowercase_hex_characters() {
    assert!(has_random_looking_name("DEADBEEF.exe"));
    assert!(has_random_looking_name("0123456789abcdef"));
    assert!(!has_random_looking_name("abc1234.exe"));
    assert!(!has_random_looking_name("a1b2c3d4g5.exe"));
}

#[test]
fn raw_key_is_name_and_path() {
    let p = ProcessInfo { pid: 9, name: "x.exe".into(), exe_path: None };
    assert_eq!(raw_key(&p), "x.exe|");
}

#[test]
fn baseline_run_records_keys_and_uses_previous_scan() {
    let procs = vec![ProcessInfo { pid: 5, name: "setup.exe".into(), exe_path: Some(r"C:\Temp\setup.exe".into()) }];
    let ctx = ScanContext::with_previous(procs, vec![("process_baseline_diff".to_string(), vec!["other|".to_string()])]);
    let r = ProcessBaselineCheck.run(&ctx);
    assert_eq!(r.severity, Severity::AtRisk);
    assert_eq!(r.raw_keys, vec![r"setup.exe|C:\Temp\setup.exe".to_string()]);
    assert_eq!(r.findings[0].label, "setup.exe (PID 5) - new since last scan");
}

#[test]
fn random_name_outside_temp_is_caution() {
    let procs = vec![ProcessInfo {
        pid: 7,
        name: "a1b2c3d4e5.exe".into(),
        exe_path: Some(r"C:\Program Files\Thing\a1b2c3d4e5.exe".into()),
    }];
    let (sev, findings) = evaluate(&procs, None);
    assert_eq!(sev, Severity::Caution);
    assert_eq!(findings[0].label, "a1b2c3d4e5.exe (PID 7)");
    assert_eq!(findings[0].detail, r"Has a random-looking name: C:\Program Files\Thing\a1b2c3d4e5.exe");
    let ctx = ScanContext::with_previous(procs, vec![]);
    let r = ProcessBaselineCheck.run(&ctx);
    assert_eq!(r.verdict, "Process(es) running from a Temp directory or with a random-looking name found.");
}

#[test]
fn empty_previous_entry_means_nothing_to_diff_against() {
    let procs = vec![ProcessInfo {
        pid: 8,
        name: "installer.exe".into(),
        exe_path: Some(r"C:\Users\bob\AppData\Local\Temp\installer.exe".into()),
    }];
    let ctx = ScanContext::with_previous(procs, vec![("process_baseline_diff".to_string(), vec![])]);
    assert!(ctx.previous_keys("process_baseline_diff").is_none());
    let r = ProcessBaselineCheck.run(&ctx);
    assert_eq!(r.severity, Severity::Caution);
    assert!(!r.findings.iter().any(|f| f.label.contains("new since last scan")));
    assert_eq!(r.raw_keys, vec![r"installer.exe|C:\Users\bob\AppData\Local\Temp\installer.exe".to_string()]);
}
