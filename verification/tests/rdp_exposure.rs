use netguard::checks::rdp_exposure::{evaluate, parse_rdp_firewall_enabled, RdpExposureCheck, RdpState};
use netguard::checks::{RemediationAction, Severity};

const SAMPLE_RDP_RULE_ENABLED: &str = r#"
Rule Name:                            Remote Desktop - User Mode (TCP-In)
----------------------------------------------------------------------
Enabled:                              Yes
Direction:                            In

Rule Name:                            Some Other App
----------------------------------------------------------------------
Enabled:                              Yes
"#;

const SAMPLE_RDP_RULE_DISABLED: &str = r#"
Rule Name:                            Remote Desktop - User Mode (TCP-In)
----------------------------------------------------------------------
Enabled:                              No
"#;

#[test]
fn detects_enabled_rdp_rule() {
    assert!(parse_rdp_firewall_enabled(SAMPLE_RDP_RULE_ENABLED));
}

#[test]
fn ignores_disabled_rdp_rule() {
    assert!(!parse_rdp_firewall_enabled(SAMPLE_RDP_RULE_DISABLED));
}

#[test]
fn disabled_rdp_is_ok() {
    let state = RdpState { deny_connections: Some(1), nla_required: None, firewall_rule_enabled: false };
    let (sev, _, _) = evaluate(&state);
    assert_eq!(sev, Severity::Okay);
}

#[test]
fn enabled_no_nla_reachable_is_at_risk() {
    let state = RdpState { deny_connections: Some(0), nla_required: Some(0), firewall_rule_enabled: true };
    let (sev, _, _) = evaluate(&state);
    assert_eq!(sev, Severity::AtRisk);
}

#[test]
fn enabled_with_nla_is_caution() {
    let state = RdpState { deny_connections: Some(0), nla_required: Some(1), firewall_rule_enabled: true };
    let (sev, _, _) = evaluate(&state);
    assert_eq!(sev, Severity::Caution);
}

#[test]
fn other_rule_enabled_does_not_count() {
    assert!(!parse_rdp_firewall_enabled("Rule Name: Some Other App\nEnabled: Yes\n"));
}

#[test]
fn rdp_risk_finding_offers_disable() {
    let state = RdpState { deny_connections: Some(0), nla_required: None, firewall_rule_enabled: true };
    let (_, findings, _) = evaluate(&state);
    assert_eq!(findings.len(), 4);
    assert!(matches!(&findings[3].action, Some(RemediationAction::DirectFix { action_id, .. }) if action_id == "rdp_disable"));
    let r = RdpExposureCheck.run(Some(0), Some(0), Err("x".into()));
    assert_eq!(r.verdict, "Remote Desktop is enabled without Network Level Authentication (not currently reachable via firewall).");
}
