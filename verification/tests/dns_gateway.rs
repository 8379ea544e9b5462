use netguard::checks::dns_gateway::{evaluate_hosts, is_private_or_local, parse_hosts_file, parse_ipconfig, HostsEntry};

const SAMPLE_IPCONFIG: &str = r#"
Wireless LAN adapter Wi-Fi:

   Connection-specific DNS Suffix  . :
   Default Gateway . . . . . . . . . : 192.168.1.1
   DNS Servers . . . . . . . . . . . : 192.168.1.1
                                       8.8.8.8
"#;

#[test]
fn parses_gateway_and_multiline_dns() {
    let info = parse_ipconfig(SAMPLE_IPCONFIG);
    assert_eq!(info.default_gateways, vec!["192.168.1.1"]);
    assert_eq!(info.dns_servers, vec!["192.168.1.1", "8.8.8.8"]);
}

#[test]
fn private_ip_detection() {
    assert!(is_private_or_local("192.168.1.1"));
    assert!(is_private_or_local("10.0.0.1"));
    assert!(is_private_or_local("172.16.5.5"));
    assert!(!is_private_or_local("172.32.5.5"));
    assert!(!is_private_or_local("203.0.113.5"));
}

#[test]
fn parses_hosts_file_ignoring_comments() {
    let content = "# comment\n127.0.0.1 localhost\n10.0.0.5 evil.example.com\n";
    let entries = parse_hosts_file(content);
    assert_eq!(entries.len(), 2);
    assert_eq!(entries[1].ip, "10.0.0.5");
}

#[test]
fn flags_sensitive_domain_redirect() {
    let entries = vec![HostsEntry { ip: "203.0.113.9".to_string(), hostname: "login.microsoftonline.com".to_string() }];
    let findings = evaluate_hosts(&entries);
    assert_eq!(findings.len(), 1);
}

#[test]
fn ignores_loopback_hosts_entries() {
    let entries = vec![HostsEntry { ip: "127.0.0.1".to_string(), hostname: "google.com".to_string() }];
    assert!(evaluate_hosts(&entries).is_empty());
}

#[test]
fn ipv6_dns_continuation_line_is_kept() {
    let output = "   DNS Servers . . . . . . . . . . . : 192.168.1.1\n                                       fe80::1%5\n";
    let info = parse_ipconfig(output);
    assert_eq!(info.dns_servers, vec!["192.168.1.1", "fe80::1%5"]);
    assert!(info.default_gateways.is_empty());
}
