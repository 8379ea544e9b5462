use netguard::checks::bitlocker::{evaluate, parse_manage_bde_status, BitLockerCheck};
use netguard::checks::{RemediationAction, Severity};

const SAMPLE_ENCRYPTED: &str = r#"
BitLocker Drive Encryption: Configuration Tool version 10.0.19041
Copyright (C) 2013 Microsoft Corporation. All rights reserved.

Volume C: [OS]
[OS Volume]

    Size:                 476.03 GB
    BitLocker Version:    2.0
    Conversion Status:    Fully Encrypted
    Percentage Encrypted: 100.0%
    Encryption Method:    XTS-AES 256
    Protection Status:    Protection On
    Lock Status:          Unlocked
"#;

const SAMPLE_UNPROTECTED: &str = r#"
Volume C: [OS]
[OS Volume]

    Conversion Status:    Fully Decrypted
    Protection Status:    Protection Off
"#;

#[test]
fn parses_os_volume() {
    let volumes = parse_manage_bde_status(SAMPLE_ENCRYPTED);
    assert_eq!(volumes.len(), 1);
    assert!(volumes[0].is_os_volume);
    assert_eq!(volumes[0].conversion_status.as_deref(), Some("Fully Encrypted"));
}

#[test]
fn fully_encrypted_is_ok() {
    let volumes = parse_manage_bde_status(SAMPLE_ENCRYPTED);
    let (sev, _, _) = evaluate(&volumes);
    assert_eq!(sev, Severity::Okay);
}

#[test]
fn unprotected_is_at_risk() {
    let volumes = parse_manage_bde_status(SAMPLE_UNPROTECTED);
    let (sev, _, _) = evaluate(&volumes);
    assert_eq!(sev, Severity::AtRisk);
}

#[test]
fn empty_output_yields_no_volumes() {
    let volumes = parse_manage_bde_status("");
    assert!(volumes.is_empty());
}

#[test]
fn bitlocker_verdict_names_both_statuses() {
    let volumes = parse_manage_bde_status(SAMPLE_UNPROTECTED);
    let (_, findings, verdict) = evaluate(&volumes);
    assert_eq!(
        verdict,
        "The system volume is not fully protected by BitLocker (conversion: Fully Decrypted, protection: Protection Off)."
    );
    assert_eq!(findings[0].label, "Volume C: [OS]");
    assert_eq!(findings[0].detail, "Fully Decrypted / Protection Off");
}

#[test]
fn bitlocker_falls_back_to_first_volume() {
    let volumes = parse_manage_bde_status("Volume D: [DATA]\n  Conversion Status: Fully Encrypted\n  Protection Status: Protection On\nVolume E: [DATA]\n");
    assert_eq!(volumes.len(), 2);
    let (sev, _, _) = evaluate(&volumes);
    assert_eq!(sev, Severity::Okay);
}

#[test]
fn bitlocker_unreadable_output_needs_attention() {
    let r = BitLockerCheck.run(Ok("  Access denied  ".to_string()));
    assert_eq!(r.severity, Severity::Caution);
    assert_eq!(r.findings[0].detail, "Access denied");
    assert!(matches!(r.findings[1].action, Some(RemediationAction::DeepLink { .. })));
}
