use netguard::checks::Severity;
use netguard::commands::greeting_name;
use netguard::notifications::notification_body;
use netguard::scan::ScanCompleteEvent;
use netguard::sysutil::{command_outcome, launch_failure};

#[test]
fn notification_body_wording() {
    let c = ScanCompleteEvent {
        id: "x".into(),
        timestamp: "t".into(),
        overall_severity: Severity::AtRisk,
        executed_count: 3,
        total_count: 17,
    };
    assert_eq!(notification_body(&c), "At risk: findings need your attention - based on 3 of 17 checks.");
}

#[test]
fn greeting_falls_back_to_there() {
    assert_eq!(greeting_name(Some("alice".into())), "alice");
    assert_eq!(greeting_name(Some("  ".into())), "there");
    assert_eq!(greeting_name(None), "there");
}

#[test]
fn command_failure_with_empty_stdout_is_error() {
    assert_eq!(command_outcome("arp", false, Some(1), "  \n".into(), " bad \n"), Err("`arp` exited with Some(1): bad".to_string()));
    assert_eq!(command_outcome("arp", false, None, "data".into(), ""), Ok("data".to_string()));
    assert_eq!(command_outcome("x", false, Some(-5), "".into(), "e"), Err("`x` exited with Some(-5): e".to_string()));
    assert_eq!(command_outcome("x", true, Some(0), "".into(), "e"), Ok(String::new()));
    assert_eq!(launch_failure("netsh", "not found"), "failed to launch `netsh`: not found");
}
