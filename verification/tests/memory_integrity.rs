use netguard::checks::memory_integrity::{evaluate, parse_device_guard_status, parse_int_array, DeviceGuardState, MemoryIntegrityCheck};
use netguard::checks::Severity;

#[test]
fn parses_running_hvci() {
    let out = "\nSecurityServicesConfigured : {2}\nSecurityServicesRunning    : {2}\n\n";
    let state = parse_device_guard_status(out);
    assert_eq!(state.configured, vec![2]);
    assert_eq!(state.running, vec![2]);
}

#[test]
fn running_is_ok() {
    let state = DeviceGuardState { configured: vec![2], running: vec![2] };
    let (sev, _, _) = evaluate(&state);
    assert_eq!(sev, Severity::Okay);
}

#[test]
fn configured_but_not_running_is_caution() {
    let state = DeviceGuardState { configured: vec![2], running: vec![] };
    let (sev, _, _) = evaluate(&state);
    assert_eq!(sev, Severity::Caution);
}

#[test]
fn not_configured_is_caution_not_ok() {
    let state = DeviceGuardState::default();
    let (sev, _, _) = evaluate(&state);
    assert_eq!(sev, Severity::Caution);
}

#[test]
fn parses_empty_array() {
    assert_eq!(parse_int_array("{}"), Vec::<u32>::new());
}

#[test]
fn int_array_skips_non_numbers() {
    assert_eq!(parse_int_array(" {1, x, 3} "), vec![1, 3]);
    assert_eq!(parse_int_array("2"), vec![2]);
}

#[test]
fn device_guard_findings_use_list_rendering() {
    let state = DeviceGuardState { configured: vec![1, 2], running: vec![] };
    let (_, findings, verdict) = evaluate(&state);
    assert_eq!(findings[0].detail, "[1, 2]");
    assert_eq!(findings[1].detail, "[]");
    assert_eq!(verdict, "Memory integrity (HVCI) is configured but not currently running.");
}

#[test]
fn memory_integrity_run_adds_action_when_not_ok() {
    let r = MemoryIntegrityCheck.run(Ok("SecurityServicesRunning : {}\n".to_string()));
    assert_eq!(r.severity, Severity::Caution);
    assert_eq!(r.findings.len(), 3);
    assert_eq!(r.findings[2].label, "Fix this");
}
