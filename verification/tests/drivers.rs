use netguard::checks::drivers::{evaluate, interpret_verify_trust_result, parse_driverquery_csv, verify_file_signature, DriverAnomalyCheck, DriverInfo, SignatureStatus};
use netguard::checks::Severity;

const SAMPLE: &str = "\"Module Name\",\"Display Name\",\"Path\"\n\"Ntfs\",\"NTFS\",\"C:\\Windows\\System32\\drivers\\Ntfs.sys\"\n\"evil\",\"Evil Driver\",\"C:\\Users\\bob\\AppData\\Local\\Temp\\evil.sys\"\n";

#[test]
fn parses_csv() {
    let drivers = parse_driverquery_csv(SAMPLE);
    assert_eq!(drivers.len(), 2);
}

#[test]
fn flags_unusual_location_as_caution() {
    let drivers = parse_driverquery_csv(SAMPLE);
    let checked: Vec<_> = drivers.into_iter().map(|d| (d, SignatureStatus::Trusted)).collect();
    let (sev, findings) = evaluate(&checked);
    assert_eq!(sev, Severity::Caution);
    assert!(findings.iter().any(|f| f.label.contains("evil")));
}

#[test]
fn untrusted_signature_is_at_risk_even_in_expected_location() {
    let d = DriverInfo { name: "Ntfs".into(), path: r"C:\Windows\System32\drivers\Ntfs.sys".into() };
    let checked = vec![(d, SignatureStatus::Untrusted)];
    let (sev, findings) = evaluate(&checked);
    assert_eq!(sev, Severity::AtRisk);
    assert!(findings.iter().any(|f| f.label.contains("invalid/missing signature")));
}

#[test]
fn trusted_and_expected_is_ok() {
    let d = DriverInfo { name: "Ntfs".into(), path: r"C:\Windows\System32\drivers\Ntfs.sys".into() };
    let checked = vec![(d, SignatureStatus::Trusted)];
    let (sev, _) = evaluate(&checked);
    assert_eq!(sev, Severity::Okay);
}

#[test]
fn interprets_success_code_as_trusted() {
    assert_eq!(interpret_verify_trust_result(0), SignatureStatus::Trusted);
}

#[test]
fn interprets_nonzero_code_as_untrusted() {
    assert_eq!(interpret_verify_trust_result(-2146762751), SignatureStatus::Untrusted);
    assert_eq!(interpret_verify_trust_result(1), SignatureStatus::Untrusted);
}

#[test]
fn bare_filename_is_unknown_not_verified() {
    assert_eq!(verify_file_signature("Ntfs.sys", Some(0)), SignatureStatus::Unknown);
}

#[test]
fn driver_without_trust_code_is_unknown() {
    assert_eq!(verify_file_signature(r"C:\x\y.sys", None), SignatureStatus::Unknown);
    assert_eq!(verify_file_signature(r"C:\x\y.sys", Some(5)), SignatureStatus::Untrusted);
}

#[test]
fn unknown_signatures_are_counted_not_flagged() {
    let d = DriverInfo { name: "beep".into(), path: "beep.sys".into() };
    let (sev, findings) = evaluate(&vec![(d, SignatureStatus::Unknown)]);
    assert_eq!(sev, Severity::Okay);
    assert_eq!(findings.len(), 3);
    assert_eq!(findings[0].label, "Result");
    assert_eq!(findings[1].detail, "1");
    assert_eq!(findings[2].detail, "1 driver(s) reported without a resolvable file path");
}

#[test]
fn csv_without_path_column_gives_nothing() {
    assert!(parse_driverquery_csv("\"Module Name\",\"Display Name\"\n\"a\",\"b\"\n").is_empty());
}

#[test]
fn drivers_run_uses_codes_in_order() {
    let r = DriverAnomalyCheck.run(Ok(SAMPLE.to_string()), vec![Some(0), Some(-1)]);
    assert_eq!(r.severity, Severity::AtRisk);
    assert!(r.findings.iter().any(|f| f.label == "evil has an invalid/missing signature"));
}
