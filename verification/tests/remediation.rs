use netguard::remediation::{deep_link_outcome, delete_run_value, enable_firewall_profile, run_direct_fix, FixFailure, FixPlan};

#[test]
fn rejects_unknown_action_id() {
    let outcome = run_direct_fix("nonsense", &Vec::new()).unwrap_err();
    assert!(!outcome.success);
}

#[test]
fn rejects_unknown_firewall_profile() {
    let params = vec![("profile".to_string(), "evil".to_string())];
    let outcome = enable_firewall_profile(&params).unwrap_err();
    assert!(!outcome.success);
}

#[test]
fn rejects_registry_path_outside_allowlist() {
    let params = vec![
        ("hive".to_string(), "HKCU".to_string()),
        ("path".to_string(), r"Software\Some\Other\Key".to_string()),
        ("valueName".to_string(), "Evil".to_string()),
    ];
    let outcome = delete_run_value(&params).unwrap_err();
    assert!(!outcome.success);
    assert!(outcome.message.contains("Refusing"));
}

#[test]
fn rejects_missing_params() {
    let outcome = delete_run_value(&Vec::new()).unwrap_err();
    assert!(!outcome.success);
}

#[test]
fn firewall_profile_is_lower_cased() {
    let params = vec![("profile".to_string(), "Public".to_string())];
    match run_direct_fix("firewall_enable_profile", &params).unwrap() {
        FixPlan::EnableFirewallProfile { profile } => assert_eq!(profile, "public"),
        other => panic!("unexpected plan {other:?}"),
    }
    let outcome = run_direct_fix("nonsense", &params).unwrap_err();
    assert_eq!(outcome.message, "Unknown remediation action 'nonsense'.");
}

#[test]
fn delete_plan_and_outcomes() {
    let params = vec![
        ("hive".to_string(), "HKLM".to_string()),
        ("path".to_string(), r"Software\Microsoft\Windows\CurrentVersion\RunOnce".to_string()),
        ("valueName".to_string(), "Evil".to_string()),
    ];
    let plan = run_direct_fix("persistence_delete_run_value", &params).unwrap();
    let ok = plan.outcome(Ok(()));
    assert!(ok.success);
    assert_eq!(ok.message, r"Removed startup entry 'Evil' from HKLM\Software\Microsoft\Windows\CurrentVersion\RunOnce.");
    let failed = plan.outcome(Err(FixFailure::Open("denied".into())));
    assert!(!failed.success);
    assert_eq!(failed.message, r"Could not open HKLM\Software\Microsoft\Windows\CurrentVersion\RunOnce (insufficient privileges): denied");
}

#[test]
fn unknown_hive_is_refused() {
    let params = vec![
        ("hive".to_string(), "HKU".to_string()),
        ("path".to_string(), r"Software\Microsoft\Windows\CurrentVersion\Run".to_string()),
        ("valueName".to_string(), "Evil".to_string()),
    ];
    assert_eq!(delete_run_value(&params).unwrap_err().message, "Unknown registry hive 'HKU'.");
}

#[test]
fn rdp_plan_and_deep_link_wording() {
    let plan = run_direct_fix("rdp_disable", &Vec::new()).unwrap();
    assert_eq!(plan.outcome(Ok(())).message, "Remote Desktop has been disabled.");
    let o = deep_link_outcome("ms-settings:windowsupdate", Err("no handler".into()));
    assert!(!o.success);
    assert_eq!(o.message, "Could not open ms-settings:windowsupdate: no handler");
    assert_eq!(deep_link_outcome("x:", Ok(())).message, "Opened x:.");
}
