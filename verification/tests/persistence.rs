use netguard::checks::persistence::{evaluate, parse_scheduled_tasks_csv, raw_key, run_key_entry, PersistenceCheck, PersistenceEntry};
use netguard::checks::{RemediationAction, ScanContext, Severity};

#[test]
fn flags_temp_startup_entry() {
    let entries = vec![PersistenceEntry {
        source: "HKCU\\...Run".into(),
        name: "Updater".into(),
        command: r"C:\Users\bob\AppData\Local\Temp\upd.exe".into(),
    }];
    let (sev, findings) = evaluate(&entries, None);
    assert_eq!(sev, Severity::Caution);
    assert!(!findings.is_empty());
}

#[test]
fn normal_entry_is_ok() {
    let entries = vec![PersistenceEntry {
        source: "HKCU\\...Run".into(),
        name: "OneDrive".into(),
        command: r"C:\Users\bob\AppData\Local\Microsoft\OneDrive\OneDrive.exe /background".into(),
    }];
    let (sev, _) = evaluate(&entries, None);
    assert_eq!(sev, Severity::Okay);
}

#[test]
fn new_temp_entry_since_last_scan_is_at_risk() {
    let entries = vec![PersistenceEntry {
        source: "HKCU\\...Run".into(),
        name: "Updater".into(),
        command: r"C:\Users\bob\AppData\Local\Temp\upd.exe".into(),
    }];
    let previous: Vec<String> = Vec::new();
    let (sev, findings) = evaluate(&entries, Some(&previous));
    assert_eq!(sev, Severity::AtRisk);
    assert!(findings.iter().any(|f| f.label.contains("new since last scan")));
}

#[test]
fn known_temp_entry_from_last_scan_stays_caution() {
    let entries = vec![PersistenceEntry {
        source: "HKCU\\...Run".into(),
        name: "Updater".into(),
        command: r"C:\Users\bob\AppData\Local\Temp\upd.exe".into(),
    }];
    let previous: Vec<String> = entries.iter().map(raw_key).collect();
    let (sev, findings) = evaluate(&entries, Some(&previous));
    assert_eq!(sev, Severity::Caution);
    assert!(!findings.iter().any(|f| f.label.contains("new since last scan")));
}

#[test]
fn parses_scheduled_tasks_csv() {
    let csv = "\"HostName\",\"TaskName\",\"Task To Run\"\n\"WIN-PC\",\"\\MyTask\",\"C:\\Temp\\evil.exe\"\n";
    let entries = parse_scheduled_tasks_csv(csv);
    assert_eq!(entries.len(), 1);
    assert_eq!(entries[0].name, r"\MyTask");
    assert_eq!(entries[0].command, r"C:\Temp\evil.exe");
}

#[test]
fn registry_entry_gets_delete_action() {
    let e = run_key_entry("HKCU", r"Software\Microsoft\Windows\CurrentVersion\Run", "Updater".into(), r"C:\Temp\u.exe".into());
    assert_eq!(e.source, r"HKCU\Software\Microsoft\Windows\CurrentVersion\Run");
    assert_eq!(raw_key(&e), r"HKCU\Software\Microsoft\Windows\CurrentVersion\Run|Updater|C:\Temp\u.exe");
    let (_, findings) = evaluate(&vec![e], None);
    match &findings[0].action {
        Some(RemediationAction::DirectFix { action_id, params, label }) => {
            assert_eq!(action_id, "persistence_delete_run_value");
            assert_eq!(label, "Remove 'Updater' from startup");
            assert_eq!(params[0], ("hive".to_string(), "HKCU".to_string()));
            assert_eq!(params[1].1, r"Software\Microsoft\Windows\CurrentVersion\Run");
            assert_eq!(params[2], ("valueName".to_string(), "Updater".to_string()));
        }
        _ => panic!("expected a direct fix"),
    }
}

#[test]
fn scheduled_task_entry_has_no_action() {
    let entries = parse_scheduled_tasks_csv("TaskName,Task To Run\n\\T,C:\\Temp\\x.exe\nTaskName,Task To Run\n");
    assert_eq!(entries.len(), 1);
    let (_, findings) = evaluate(&entries, None);
    assert!(findings[0].action.is_none());
}

#[test]
fn persistence_run_keeps_registry_when_schtasks_fails() {
    let reg = vec![run_key_entry("HKLM", "Software\\Microsoft\\Windows\\CurrentVersion\\RunOnce", "A".into(), "a.exe".into())];
    let r = PersistenceCheck.run(&ScanContext::new(), reg, Err("denied".into()));
    assert_eq!(r.severity, Severity::Okay);
    assert_eq!(r.raw_keys, vec!["HKLM\\Software\\Microsoft\\Windows\\CurrentVersion\\RunOnce|A|a.exe".to_string()]);
}

#[test]
fn empty_previous_entry_is_not_everything_new() {
    let reg = vec![run_key_entry("HKCU", "Software\\Microsoft\\Windows\\CurrentVersion\\Run", "Updater".into(), r"C:\Users\bob\AppData\Local\Temp\upd.exe".into())];
    let ctx = ScanContext::with_previous(vec![], vec![("startup_persistence_entries".to_string(), vec![])]);
    let r = PersistenceCheck.run(&ctx, reg.clone(), Err("denied".into()));
    assert_eq!(r.severity, Severity::Caution);
    assert!(!r.findings.iter().any(|f| f.label.contains("new since last scan")));
    let ctx = ScanContext::with_previous(vec![], vec![("startup_persistence_entries".to_string(), vec!["other".to_string()])]);
    let r = PersistenceCheck.run(&ctx, reg, Err("denied".into()));
    assert_eq!(r.severity, Severity::AtRisk);
}
