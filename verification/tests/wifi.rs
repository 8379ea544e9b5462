use netguard::checks::wifi::{evaluate, parse_wifi_interfaces, WifiInterfaceInfo, WifiSecurityCheck};
use netguard::checks::Severity;

const SAMPLE_CONNECTED_WPA2: &str = r#"
    Name                   : Wi-Fi
    State                  : connected
    SSID                   : HomeNetwork_5G
    Authentication         : WPA2-Personal
    Cipher                 : CCMP
"#;

const SAMPLE_OPEN: &str = r#"
    Name                   : Wi-Fi
    State                  : connected
    SSID                   : Free Airport WiFi
    Authentication         : Open
"#;

const SAMPLE_DISCONNECTED: &str = r#"
    Name                   : Wi-Fi
    State                  : disconnected
"#;

#[test]
fn parses_connected_interface() {
    let info = parse_wifi_interfaces(SAMPLE_CONNECTED_WPA2).unwrap();
    assert_eq!(info.state, "connected");
    assert_eq!(info.ssid.as_deref(), Some("HomeNetwork_5G"));
    assert_eq!(info.authentication.as_deref(), Some("WPA2-Personal"));
}

#[test]
fn wpa2_home_network_is_ok() {
    let info = parse_wifi_interfaces(SAMPLE_CONNECTED_WPA2).unwrap();
    let (sev, _, _, _) = evaluate(Some(&info));
    assert_eq!(sev, Severity::Okay);
}

#[test]
fn open_network_is_at_risk() {
    let info = parse_wifi_interfaces(SAMPLE_OPEN).unwrap();
    let (sev, _, _, remediation) = evaluate(Some(&info));
    assert_eq!(sev, Severity::AtRisk);
    assert!(remediation.is_some());
}

#[test]
fn public_sounding_ssid_is_caution_even_with_wpa2() {
    let info = WifiInterfaceInfo {
        state: "connected".to_string(),
        ssid: Some("Airport Free WiFi".to_string()),
        authentication: Some("WPA2-Personal".to_string()),
    };
    let (sev, _, _, _) = evaluate(Some(&info));
    assert_eq!(sev, Severity::Caution);
}

#[test]
fn disconnected_adapter_is_ok() {
    let info = parse_wifi_interfaces(SAMPLE_DISCONNECTED).unwrap();
    let (sev, _, _, _) = evaluate(Some(&info));
    assert_eq!(sev, Severity::Okay);
}

#[test]
fn missing_interface_is_ok_not_error() {
    let (sev, _, _, _) = evaluate(None);
    assert_eq!(sev, Severity::Okay);
}

#[test]
fn wifi_verdict_wording() {
    let info = parse_wifi_interfaces(SAMPLE_CONNECTED_WPA2).unwrap();
    let (_, verdict, findings, _) = evaluate(Some(&info));
    assert_eq!(verdict, "Connected to \"HomeNetwork_5G\" using WPA2-Personal.");
    assert_eq!(findings.len(), 2);
    let wep = WifiInterfaceInfo { state: "Connected".into(), ssid: None, authentication: Some("WEP".into()) };
    let (sev, verdict, _, _) = evaluate(Some(&wep));
    assert_eq!(sev, Severity::AtRisk);
    assert_eq!(verdict, "Connected to \"(unknown SSID)\" using WEP, an obsolete and broken encryption standard.");
}

#[test]
fn wifi_without_state_is_no_interface() {
    assert!(parse_wifi_interfaces("SSID : x\n").is_none());
    let r = WifiSecurityCheck.run(Err("netsh missing".into()));
    assert_eq!(r.severity, Severity::Okay);
    assert_eq!(r.verdict, "No active Wi-Fi interface detected (likely on wired Ethernet).");
}
