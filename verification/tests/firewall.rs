use netguard::checks::firewall::{evaluate, parse_firewall_profiles, ProfileState};
use netguard::checks::{RemediationAction, Severity};

const SAMPLE_ALL_ON: &str = r#"
Domain Profile Settings:
----------------------------------------------------------------------
State                                 ON

Private Profile Settings:
----------------------------------------------------------------------
State                                 ON

Public Profile Settings:
----------------------------------------------------------------------
State                                 ON
"#;

const SAMPLE_PUBLIC_OFF: &str = r#"
Domain Profile Settings:
----------------------------------------------------------------------
State                                 ON

Private Profile Settings:
----------------------------------------------------------------------
State                                 ON

Public Profile Settings:
----------------------------------------------------------------------
State                                 OFF
"#;

#[test]
fn parses_three_profiles() {
    let profiles = parse_firewall_profiles(SAMPLE_ALL_ON);
    assert_eq!(profiles.len(), 3);
    assert!(profiles.iter().all(|p| p.on));
}

#[test]
fn all_on_is_ok() {
    let profiles = parse_firewall_profiles(SAMPLE_ALL_ON);
    let (sev, _, _) = evaluate(&profiles);
    assert_eq!(sev, Severity::Okay);
}

#[test]
fn one_off_is_caution() {
    let profiles = parse_firewall_profiles(SAMPLE_PUBLIC_OFF);
    let (sev, _, _) = evaluate(&profiles);
    assert_eq!(sev, Severity::Caution);
}

#[test]
fn off_profile_offers_enable_action() {
    let profiles = parse_firewall_profiles(SAMPLE_PUBLIC_OFF);
    assert_eq!(profiles[2].profile, "Public");
    let (_, findings, verdict) = evaluate(&profiles);
    assert_eq!(verdict, "Windows Firewall is disabled for: Public.");
    match &findings[2].action {
        Some(RemediationAction::DirectFix { action_id, label, params }) => {
            assert_eq!(action_id, "firewall_enable_profile");
            assert_eq!(label, "Turn on the Public firewall profile");
            assert_eq!(params, &vec![("profile".to_string(), "public".to_string())]);
        }
        _ => panic!("expected a direct fix"),
    }
}

#[test]
fn all_off_is_at_risk_and_none_is_caution() {
    let all_off = vec![ProfileState { profile: "Domain".into(), on: false }];
    assert_eq!(evaluate(&all_off).0, Severity::AtRisk);
    let (sev, _, verdict) = evaluate(&vec![]);
    assert_eq!(sev, Severity::Caution);
    assert_eq!(verdict, "Could not read Windows Firewall status.");
}
