use netguard::pdf::wrap_text;

#[test]
fn wraps_long_paragraph_into_multiple_lines() {
    let text = "This is a moderately long sentence that should wrap across more than one line when constrained.";
    let lines = wrap_text(text, 20);
    assert!(lines.len() > 1);
    for line in &lines {
        assert!(line.len() <= 40);
    }
}

#[test]
fn short_text_stays_on_one_line() {
    let lines = wrap_text("short", 50);
    assert_eq!(lines, vec!["short".to_string()]);
}

#[test]
fn preserves_paragraph_breaks() {
    let lines = wrap_text("first\nsecond", 50);
    assert_eq!(lines, vec!["first".to_string(), "second".to_string()]);
}

#[test]
fn zero_width_returns_original_text_unsplit() {
    let lines = wrap_text("hello world", 0);
    assert_eq!(lines, vec!["hello world".to_string()]);
}

#[test]
fn wrap_breaks_exactly_at_width() {
    assert_eq!(wrap_text("aa bb cc", 5), vec!["aa bb".to_string(), "cc".to_string()]);
    assert_eq!(wrap_text("averyveryverylongword x", 5), vec!["averyveryverylongword".to_string(), "x".to_string()]);
    assert_eq!(wrap_text("a\n\nb", 5), vec!["a".to_string(), "".to_string(), "b".to_string()]);
}

#[test]
fn wrap_counts_bytes_not_characters() {
    assert_eq!(wrap_text("éé é", 4), vec!["éé".to_string(), "é".to_string()]);
}

use netguard::checks::{CheckCategory, CheckOutcome, CheckResult, Finding, Severity};
use netguard::export::prepare_report_data;
use netguard::history::ScanRecord;
use netguard::pdf::{report_blocks, PdfBlock, PdfSpace, PdfStyle};

fn text_of(b: &PdfBlock) -> Option<(PdfStyle, Vec<String>)> {
    match b {
        PdfBlock::Text { style, lines } => Some((*style, lines.clone())),
        PdfBlock::Space(_) => None,
    }
}

#[test]
fn report_blocks_hold_the_report_lines_in_order() {
    let record = ScanRecord {
        id: "r1".to_string(),
        timestamp: "not a time".to_string(),
        overall_severity: Severity::Caution,
        executed_count: 1,
        total_count: 2,
        outcomes: vec![
            CheckOutcome::Completed(CheckResult {
                id: "firewall_status".to_string(),
                name: "Firewall".to_string(),
                category: CheckCategory::System,
                severity: Severity::Caution,
                verdict: "One profile is off.".to_string(),
                findings: vec![Finding::new("Public", "OFF")],
                remediation: Some("Turn it on.".to_string()),
                data_source: "netsh".to_string(),
                raw_keys: vec![],
            }),
            CheckOutcome::PermissionDenied { id: "arp_anomaly".to_string(), name: "ARP".to_string(), category: CheckCategory::Network },
        ],
    };
    let blocks = report_blocks(&prepare_report_data(&record));
    let texts: Vec<(PdfStyle, Vec<String>)> = blocks.iter().filter_map(text_of).collect();
    assert_eq!(texts[0], (PdfStyle::Title, vec!["NetGuard Scan Report".to_string()]));
    assert_eq!(texts[1], (PdfStyle::Generated, vec!["Generated not a time".to_string()]));
    assert_eq!(texts[2], (PdfStyle::SummaryHeading, vec!["Executive summary".to_string()]));
    assert_eq!(
        texts[3],
        (PdfStyle::Overall, vec!["Overall result: Caution - based on 1 of 2 checks that ran this scan.".to_string()])
    );
    assert_eq!(texts[4].0, PdfStyle::Explanation);
    assert!(texts[4].1.len() >= 2);
    assert_eq!(texts[5], (PdfStyle::Counts, vec!["OK: 0   Caution: 1   At Risk: 0   Skipped: 1".to_string()]));
    assert_eq!(texts[6], (PdfStyle::SectionHeading, vec!["Network".to_string()]));
    assert_eq!(texts[7], (PdfStyle::ItemTitle, vec!["[Skipped] ARP".to_string()]));
    let system = texts.iter().position(|t| t == &(PdfStyle::SectionHeading, vec!["System Security".to_string()])).unwrap();
    assert_eq!(texts[system + 1], (PdfStyle::ItemTitle, vec!["[Caution] Firewall".to_string()]));
    assert_eq!(texts[system + 2], (PdfStyle::Verdict, vec!["One profile is off.".to_string()]));
    assert_eq!(texts[system + 3], (PdfStyle::Finding, vec!["- Public: OFF".to_string()]));
    assert_eq!(texts[system + 4], (PdfStyle::Remediation, vec!["What to do: Turn it on.".to_string()]));
    assert_eq!(texts[system + 5], (PdfStyle::DataSource, vec!["Data source: netsh".to_string()]));
    assert_eq!(texts.last().unwrap().0, PdfStyle::Footer);
    assert!(matches!(blocks[1], PdfBlock::Space(PdfSpace::AfterTitle)));
}
