use netguard::checks::defender::{evaluate, parse_defender_status, DefenderState, DefenderStatusCheck};
use netguard::checks::Severity;

#[test]
fn parses_enabled_status() {
    let out = "\nRealTimeProtectionEnabled : True\nAntivirusEnabled          : True\n\n";
    let state = parse_defender_status(out);
    assert_eq!(state.real_time_protection, Some(true));
    assert_eq!(state.antivirus_enabled, Some(true));
}

#[test]
fn disabled_is_at_risk() {
    let state = DefenderState { real_time_protection: Some(false), antivirus_enabled: Some(true) };
    let (sev, _, _) = evaluate(&state);
    assert_eq!(sev, Severity::AtRisk);
}

#[test]
fn unknown_is_caution_not_ok() {
    let state = DefenderState::default();
    let (sev, _, _) = evaluate(&state);
    assert_eq!(sev, Severity::Caution);
}

#[test]
fn defender_non_boolean_value_counts_as_unknown() {
    let state = parse_defender_status("RealTimeProtectionEnabled : maybe\n");
    assert_eq!(state.real_time_protection, None);
    let (_, findings, verdict) = evaluate(&state);
    assert_eq!(verdict, "Could not determine Defender real-time protection status.");
    assert_eq!(findings.len(), 1);
}

#[test]
fn defender_error_is_caution() {
    let r = DefenderStatusCheck.run(Err("boom".to_string()));
    assert_eq!(r.severity, Severity::Caution);
    assert_eq!(r.verdict, "Could not query Windows Defender status.");
}
