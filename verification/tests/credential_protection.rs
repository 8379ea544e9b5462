use netguard::checks::credential_protection::{evaluate, parse_credential_guard_running, CredentialProtectionCheck, CredentialProtectionState};
use netguard::checks::Severity;

#[test]
fn parses_credential_guard_running() {
    let out = "\nSecurityServicesRunning : {1, 2}\n\n";
    assert!(parse_credential_guard_running(out));
}

#[test]
fn parses_credential_guard_not_running() {
    let out = "\nSecurityServicesRunning : {2}\n\n";
    assert!(!parse_credential_guard_running(out));
}

#[test]
fn lsa_protected_is_ok() {
    let state = CredentialProtectionState { run_as_ppl: Some(1), credential_guard_running: false };
    let (sev, _, _) = evaluate(&state);
    assert_eq!(sev, Severity::Okay);
}

#[test]
fn credential_guard_alone_is_ok() {
    let state = CredentialProtectionState { run_as_ppl: None, credential_guard_running: true };
    let (sev, _, _) = evaluate(&state);
    assert_eq!(sev, Severity::Okay);
}

#[test]
fn neither_is_caution() {
    let state = CredentialProtectionState { run_as_ppl: None, credential_guard_running: false };
    let (sev, _, _) = evaluate(&state);
    assert_eq!(sev, Severity::Caution);
}

#[test]
fn run_as_ppl_other_values_are_not_protection() {
    let state = CredentialProtectionState { run_as_ppl: Some(3), credential_guard_running: false };
    let (sev, findings, _) = evaluate(&state);
    assert_eq!(sev, Severity::Caution);
    assert_eq!(findings[0].detail, "Disabled");
    let state = CredentialProtectionState { run_as_ppl: Some(2), credential_guard_running: false };
    assert_eq!(evaluate(&state).0, Severity::Okay);
}

#[test]
fn credential_run_counts_query_error_as_not_running() {
    let r = CredentialProtectionCheck.run(None, Err("no powershell".to_string()));
    assert_eq!(r.severity, Severity::Caution);
    assert_eq!(r.findings.len(), 3);
}
