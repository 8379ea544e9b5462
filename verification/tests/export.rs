use chrono::Utc;
use netguard::checks::{CheckCategory, CheckOutcome, CheckResult, Finding, Severity};
use netguard::export::{escape_html, prepare_report_data, render_report_html, severity_class, severity_label};
use netguard::history::ScanRecord;

fn sample_record() -> ScanRecord {
    ScanRecord {
        id: "abc".to_string(),
        timestamp: Utc::now().to_rfc3339(),
        overall_severity: Severity::Caution,
        executed_count: 1,
        total_count: 2,
        outcomes: vec![
            CheckOutcome::Completed(CheckResult {
                id: "c1".to_string(),
                name: "Sample Check".to_string(),
                category: CheckCategory::System,
                severity: Severity::Caution,
                verdict: "Something <script> needs review".to_string(),
                findings: vec![Finding::new("Label", "Detail & more")],
                remediation: Some("Do the thing".to_string()),
                data_source: "test".to_string(),
                raw_keys: vec![],
            }),
            CheckOutcome::PermissionDenied { id: "c2".to_string(), name: "Denied Check".to_string(), category: CheckCategory::Network },
        ],
    }
}

#[test]
fn prepares_grouped_report_data() {
    let data = prepare_report_data(&sample_record());
    assert_eq!(data.caution_count, 1);
    assert_eq!(data.skipped_count, 1);
    assert_eq!(data.sections.len(), 2);
    assert_eq!(data.sections[0].category_label, "Network");
    assert_eq!(data.sections[1].category_label, "System Security");
}

#[test]
fn renders_completed_and_skipped_sections() {
    let html = render_report_html(&sample_record());
    assert!(html.contains("Sample Check"));
    assert!(html.contains("Denied Check"));
    assert!(html.contains("Skipped"));
    assert!(html.contains("Executive summary"));
}

#[test]
fn escapes_html_in_content() {
    let html = render_report_html(&sample_record());
    assert!(!html.contains("<script>"));
    assert!(html.contains("&lt;script&gt;"));
    assert!(html.contains("Detail &amp; more"));
}

#[test]
fn escape_html_maps_each_special_character() {
    assert_eq!(escape_html("a&b<c>\"d'"), "a&amp;b&lt;c&gt;&quot;d'");
    assert_eq!(escape_html(""), "");
}

#[test]
fn severity_names() {
    assert_eq!(severity_class(Severity::AtRisk), "at-risk");
    assert_eq!(severity_label(Severity::Okay), "OK");
}

#[test]
fn report_timestamp_is_rfc2822() {
    let mut r = sample_record();
    r.timestamp = "2026-08-13T10:00:00+00:00".to_string();
    let data = prepare_report_data(&r);
    assert_eq!(data.timestamp, "Thu, 13 Aug 2026 10:00:00 +0000");
    let html = render_report_html(&r);
    assert!(html.starts_with("<!doctype html>\n<html lang=\"en\">\n<head>\n<meta charset=\"utf-8\">\n<title>NetGuard Scan Report - Thu, 13 Aug 2026 10:00:00 +0000</title>"));
    assert!(html.contains("<span class=\"overall caution\">Caution</span> - based on 1 of 2 checks that ran this scan."));
}

#[test]
fn skipped_item_has_no_findings_list() {
    let html = render_report_html(&sample_record());
    assert!(html.contains("<article class=\"check skipped\">\n  <h3><span class=\"badge skipped\">Skipped</span> Denied Check</h3>\n  <p class=\"verdict\">Not run - permission was not granted for this scan.</p>\n  \n  \n  \n</article>"));
}

#[test]
fn timestamp_outside_rfc2822_years_is_shown_as_stored() {
    let mut record = sample_record();
    record.timestamp = "0000-01-01T00:00:00+01:00".to_string();
    assert_eq!(prepare_report_data(&record).timestamp, "0000-01-01T00:00:00+01:00");
    record.timestamp = "9999-12-31T23:59:59-01:00".to_string();
    assert_eq!(prepare_report_data(&record).timestamp, "9999-12-31T23:59:59-01:00");
    record.timestamp = "2024-03-05T10:20:30+02:00".to_string();
    assert_eq!(prepare_report_data(&record).timestamp, "Tue, 5 Mar 2024 08:20:30 +0000");
    assert!(render_report_html(&record).contains("Generated Tue, 5 Mar 2024 08:20:30 +0000"));
}
