use netguard::checks::arp::{find_anomalies, parse_arp_table, ArpAnomalyCheck, ArpEntry};
use netguard::checks::Severity;

const SAMPLE: &str = r#"
Interface: 192.168.1.5 --- 0xb
  Internet Address      Physical Address      Type
  192.168.1.1            aa-bb-cc-dd-ee-ff     dynamic
  192.168.1.20           11-22-33-44-55-66     dynamic
  192.168.1.255          ff-ff-ff-ff-ff-ff     static
"#;

#[test]
fn parses_entries() {
    let entries = parse_arp_table(SAMPLE);
    assert_eq!(entries.len(), 3);
    assert_eq!(entries[0].ip, "192.168.1.1");
    assert_eq!(entries[0].mac, "aa-bb-cc-dd-ee-ff");
}

#[test]
fn no_conflict_is_ok() {
    let entries = parse_arp_table(SAMPLE);
    let (sev, _) = find_anomalies(&entries, &vec!["192.168.1.1".to_string()]);
    assert_eq!(sev, Severity::Okay);
}

#[test]
fn gateway_mac_conflict_is_at_risk() {
    let entries = vec![
        ArpEntry { ip: "192.168.1.1".to_string(), mac: "aa-aa-aa-aa-aa-aa".to_string() },
        ArpEntry { ip: "192.168.1.1".to_string(), mac: "bb-bb-bb-bb-bb-bb".to_string() },
    ];
    let (sev, findings) = find_anomalies(&entries, &vec!["192.168.1.1".to_string()]);
    assert_eq!(sev, Severity::AtRisk);
    assert!(!findings.is_empty());
}

#[test]
fn many_ips_single_mac_is_caution() {
    let entries: Vec<ArpEntry> = (0..10)
        .map(|i| ArpEntry { ip: format!("192.168.1.{i}"), mac: "aa-aa-aa-aa-aa-aa".to_string() })
        .collect();
    let (sev, _) = find_anomalies(&entries, &vec![]);
    assert_eq!(sev, Severity::Caution);
}

#[test]
fn arp_mac_is_lower_cased_and_headers_skipped() {
    let entries = parse_arp_table("Interface: 10.0.0.2 --- 0x4\n  10.0.0.1   AA-BB-CC-DD-EE-FF   dynamic\n  garbage line\n");
    assert_eq!(entries.len(), 1);
    assert_eq!(entries[0].mac, "aa-bb-cc-dd-ee-ff");
}

#[test]
fn gateway_conflict_finding_lists_macs_in_cache_order() {
    let entries = vec![
        ArpEntry { ip: "10.0.0.1".to_string(), mac: "aa".to_string() },
        ArpEntry { ip: "10.0.0.1".to_string(), mac: "bb".to_string() },
        ArpEntry { ip: "10.0.0.1".to_string(), mac: "aa".to_string() },
    ];
    let (_, findings) = find_anomalies(&entries, &vec!["10.0.0.1".to_string()]);
    assert_eq!(findings.len(), 1);
    assert_eq!(findings[0].label, "Gateway MAC conflict");
    assert_eq!(findings[0].detail, "Default gateway 10.0.0.1 maps to 2 different MAC addresses: aa, bb");
}

#[test]
fn arp_clean_cache_summary_counts_entries() {
    let entries = parse_arp_table(SAMPLE);
    let (_, findings) = find_anomalies(&entries, &vec![]);
    assert_eq!(findings.len(), 1);
    assert_eq!(findings[0].detail, "3 entries checked, no gateway MAC conflicts found");
}

#[test]
fn arp_run_reports_command_error() {
    let r = ArpAnomalyCheck.run(Ok(String::new()), Err("arp missing".to_string()));
    assert_eq!(r.severity, Severity::Caution);
    assert_eq!(r.verdict, "Could not read the ARP cache.");
    assert_eq!(r.findings[0].detail, "arp missing");
    assert_eq!(r.id, "arp_anomaly_heuristic");
}
