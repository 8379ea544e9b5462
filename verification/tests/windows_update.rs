use chrono::{DateTime, Duration, NaiveDate, Utc};
use netguard::checks::windows_update::{evaluate, parse_last_hotfix_date, WindowsUpdateCheck};
use netguard::checks::Severity;

fn ts(d: chrono::NaiveDateTime) -> i64 {
    d.and_utc().timestamp()
}

#[test]
fn parses_observed_format() {
    let out = "\nInstalledOn : 13-Aug-26 12:00:00 AM\n\n";
    let dt = parse_last_hotfix_date(out);
    assert!(dt.is_some());
    let d = DateTime::from_timestamp(dt.unwrap(), 0).unwrap();
    assert_eq!(d.format("%Y-%m-%d").to_string(), "2026-08-13");
}

#[test]
fn missing_value_returns_none() {
    assert!(parse_last_hotfix_date("\nInstalledOn : \n").is_none());
    assert!(parse_last_hotfix_date("").is_none());
}

#[test]
fn recent_update_is_ok() {
    let now = NaiveDate::from_ymd_opt(2026, 8, 26).unwrap().and_hms_opt(0, 0, 0).unwrap();
    let last = now - Duration::days(5);
    let (sev, _, _) = evaluate(Some(ts(last)), ts(now));
    assert_eq!(sev, Severity::Okay);
}

#[test]
fn forty_days_is_caution() {
    let now = NaiveDate::from_ymd_opt(2026, 8, 26).unwrap().and_hms_opt(0, 0, 0).unwrap();
    let last = now - Duration::days(40);
    let (sev, _, _) = evaluate(Some(ts(last)), ts(now));
    assert_eq!(sev, Severity::Caution);
}

#[test]
fn hundred_days_is_at_risk() {
    let now = NaiveDate::from_ymd_opt(2026, 8, 26).unwrap().and_hms_opt(0, 0, 0).unwrap();
    let last = now - Duration::days(100);
    let (sev, _, _) = evaluate(Some(ts(last)), ts(now));
    assert_eq!(sev, Severity::AtRisk);
}

#[test]
fn undeterminable_is_at_risk() {
    let now = Utc::now().timestamp();
    let (sev, _, _) = evaluate(None, now);
    assert_eq!(sev, Severity::AtRisk);
}

#[test]
fn update_findings_show_date_and_age() {
    let now = ts(NaiveDate::from_ymd_opt(2026, 8, 26).unwrap().and_hms_opt(10, 0, 0).unwrap());
    let last = ts(NaiveDate::from_ymd_opt(2026, 8, 13).unwrap().and_hms_opt(0, 0, 0).unwrap());
    let (_, findings, verdict) = evaluate(Some(last), now);
    assert_eq!(findings[0].detail, "2026-08-13");
    assert_eq!(findings[1].detail, "13");
    assert_eq!(verdict, "Windows Update is current (last update 13 day(s) ago).");
    let (_, findings, _) = evaluate(Some(now + 86_400), now);
    assert_eq!(findings[1].detail, "0");
}

#[test]
fn update_date_only_and_other_first_line() {
    assert!(parse_last_hotfix_date("InstalledOn : 2024-01-02\n").is_some());
    assert!(parse_last_hotfix_date("Source : PC\nInstalledOn : 2024-01-02\n").is_none());
    assert!(parse_last_hotfix_date("InstalledOn : someday\n").is_none());
}

#[test]
fn update_run_error_is_at_risk() {
    let r = WindowsUpdateCheck.run(Err("no ps".into()), 0);
    assert_eq!(r.severity, Severity::AtRisk);
    assert_eq!(r.verdict, "Could not determine Windows Update status.");
}
