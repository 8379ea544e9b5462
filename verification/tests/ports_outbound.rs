use netguard::checks::outbound::{evaluate as evaluate_outbound, foreign_port};
use netguard::checks::ports::{evaluate, is_listening, parse_netstat, NetstatEntry, OpenPortsCheck};
use netguard::checks::process_baseline::ProcessInfo;
use netguard::checks::{ScanContext, Severity};

const SAMPLE: &str = r#"
Active Connections

  Proto  Local Address          Foreign Address        State           PID
  TCP    0.0.0.0:135            0.0.0.0:0              LISTENING       1234
  TCP    0.0.0.0:3389           0.0.0.0:0              LISTENING       999
  TCP    192.168.1.5:54321      93.184.216.34:443      ESTABLISHED     5678
  UDP    0.0.0.0:5353           *:*                                    4321
"#;

#[test]
fn parses_tcp_and_udp() {
    let entries = parse_netstat(SAMPLE);
    assert_eq!(entries.len(), 4);
    assert_eq!(entries[0].local_port, 135);
    assert_eq!(entries[0].state.as_deref(), Some("LISTENING"));
    assert_eq!(entries[3].proto, "UDP");
    assert!(entries[3].state.is_none());
}

#[test]
fn flags_rdp_listening_on_all_interfaces() {
    let entries = parse_netstat(SAMPLE);
    let ctx = ScanContext::new();
    let (severity, findings) = evaluate(&entries, &ctx);
    assert_eq!(severity, Severity::Caution);
    assert!(findings.iter().any(|f| f.label.contains("3389")));
}

#[test]
fn established_connection_not_counted_as_listener() {
    let entries = parse_netstat(SAMPLE);
    let listeners: Vec<_> = entries.iter().filter(|e| is_listening(e)).collect();
    assert!(!listeners.iter().any(|e| e.local_port == 54321));
}

const OUTBOUND_SAMPLE: &str = r#"
  Proto  Local Address          Foreign Address        State           PID
  TCP    192.168.1.5:54321      93.184.216.34:4444     ESTABLISHED     5678
  TCP    192.168.1.5:54322      93.184.216.34:443      ESTABLISHED     5679
"#;

#[test]
fn flags_watched_port() {
    let entries = parse_netstat(OUTBOUND_SAMPLE);
    let ctx = ScanContext::new();
    let (severity, findings) = evaluate_outbound(&entries, &ctx);
    assert_eq!(severity, Severity::AtRisk);
    assert!(findings.iter().any(|f| f.label.contains("4444")));
}

#[test]
fn normal_https_not_flagged() {
    let entries = vec![NetstatEntry {
        proto: "TCP".into(),
        local_addr: "192.168.1.5".into(),
        local_port: 54322,
        foreign_addr: "93.184.216.34:443".into(),
        state: Some("ESTABLISHED".into()),
        pid: 1,
    }];
    let ctx = ScanContext::new();
    let (severity, _) = evaluate_outbound(&entries, &ctx);
    assert_eq!(severity, Severity::Okay);
}

#[test]
fn ipv6_listener_host_keeps_brackets() {
    let entries = parse_netstat("  TCP    [::]:445    [::]:0    LISTENING    4\n");
    assert_eq!(entries.len(), 1);
    assert_eq!(entries[0].local_addr, "[::]");
    assert_eq!(entries[0].local_port, 445);
}

#[test]
fn port_finding_names_owning_process() {
    let ctx = ScanContext::with_previous(
        vec![ProcessInfo { pid: 999, name: "svchost.exe".into(), exe_path: None }],
        vec![],
    );
    let entries = parse_netstat(SAMPLE);
    let (_, findings) = evaluate(&entries, &ctx);
    assert_eq!(findings[0].label, "Port 3389 (RDP (Remote Desktop))");
    assert_eq!(findings[0].detail, "TCP listening on all interfaces - owned by svchost.exe");
    assert_eq!(findings[1].detail, "3");
}

#[test]
fn duplicate_listener_reported_once() {
    let out = "  TCP    0.0.0.0:23    0.0.0.0:0    LISTENING    7\n  TCP    [::]:23    [::]:0    LISTENING    7\n";
    let (sev, findings) = evaluate(&parse_netstat(out), &ScanContext::new());
    assert_eq!(sev, Severity::AtRisk);
    assert_eq!(findings.len(), 2);
    assert_eq!(findings[0].detail, "TCP listening on all interfaces - owned by PID 7 (process exited)");
}

#[test]
fn foreign_port_handles_ipv6() {
    assert_eq!(foreign_port("[2001:db8::1]:4444"), Some(4444));
    assert_eq!(foreign_port("*:*"), None);
}

#[test]
fn ports_run_error_is_caution() {
    let r = OpenPortsCheck.run(&ScanContext::new(), Err("netstat missing".into()));
    assert_eq!(r.severity, Severity::Caution);
    assert_eq!(r.verdict, "Could not enumerate listening ports.");
}
