use netguard::checks::proxy_tampering::{evaluate, host_of, ProxyState, ProxyTamperingCheck};
use netguard::checks::Severity;

#[test]
fn no_proxy_is_ok() {
    let state = ProxyState::default();
    let (sev, _, _) = evaluate(&state);
    assert_eq!(sev, Severity::Okay);
}

#[test]
fn loopback_proxy_is_ok() {
    let state = ProxyState { proxy_enabled: true, proxy_server: Some("127.0.0.1:8080".to_string()), auto_config_url: None };
    let (sev, _, _) = evaluate(&state);
    assert_eq!(sev, Severity::Okay);
}

#[test]
fn external_proxy_is_at_risk() {
    let state = ProxyState { proxy_enabled: true, proxy_server: Some("evil.example.com:3128".to_string()), auto_config_url: None };
    let (sev, _, _) = evaluate(&state);
    assert_eq!(sev, Severity::AtRisk);
}

#[test]
fn remote_pac_is_caution() {
    let state = ProxyState { proxy_enabled: false, proxy_server: None, auto_config_url: Some("http://10.0.0.5/proxy.pac".to_string()) };
    let (sev, _, _) = evaluate(&state);
    assert_eq!(sev, Severity::Caution);
}

#[test]
fn extracts_host_from_protocol_list() {
    assert_eq!(host_of("http=proxy.corp.com:80;https=proxy.corp.com:443"), "proxy.corp.com");
    assert_eq!(host_of("proxy.corp.com:8080"), "proxy.corp.com");
}

#[test]
fn registry_values_blank_means_unset() {
    let s = ProxyState::from_registry(Some(1), Some("   ".into()), None);
    assert!(s.proxy_enabled);
    assert!(s.proxy_server.is_none());
    let s = ProxyState::from_registry(Some(0), Some("x:1".into()), Some("http://localhost/p.pac".into()));
    assert!(!s.proxy_enabled);
    assert_eq!(evaluate(&s).0, Severity::Okay);
}

#[test]
fn proxy_run_adds_settings_link() {
    let s = ProxyState { proxy_enabled: true, proxy_server: Some("Evil.Example:1".into()), auto_config_url: None };
    let r = ProxyTamperingCheck.run(&s);
    assert_eq!(r.severity, Severity::AtRisk);
    assert_eq!(r.findings.len(), 3);
    assert_eq!(r.findings[1].detail, "Evil.Example:1");
}
