//! Report export.
//!
//! `prepare_report_data` is the single shared data-preparation step used by
//! both exporters, so the HTML report and the PDF report always show the
//! same grouping/summary/wording:
//! - `render_report_html`: a self-contained, printable HTML report (inline
//!   CSS reusing the app's severity colors).
//! - the PDF report, drawn from the same `ReportData`.

use crate::checks::{CheckCategory, CheckOutcome, OutcomeModel, Severity};
use crate::history::ScanRecord;
use crate::text::{concat2, concat3, count_string, decimal, push_char, push_str};
use vstd::prelude::*;

verus! {

pub open spec fn class_of(s: Severity) -> Seq<char> {
    match s {
        Severity::Okay => "ok"@,
        Severity::Caution => "caution"@,
        Severity::AtRisk => "at-risk"@,
    }
}

pub open spec fn label_of(s: Severity) -> Seq<char> {
    match s {
        Severity::Okay => "OK"@,
        Severity::Caution => "Caution"@,
        Severity::AtRisk => "At Risk"@,
    }
}

pub open spec fn category_text(c: CheckCategory) -> Seq<char> {
    match c {
        CheckCategory::Network => "Network"@,
        CheckCategory::Process => "Processes & Programs"@,
        CheckCategory::Persistence => "Startup & Persistence"@,
        CheckCategory::System => "System Security"@,
    }
}

/// The CSS class of a severity badge.
pub fn severity_class(severity: Severity) -> (r: &'static str)
    ensures
        r@ == class_of(severity),
{
    match severity {
        Severity::Okay => "ok",
        Severity::Caution => "caution",
        Severity::AtRisk => "at-risk",
    }
}

/// The user-facing name of a severity.
pub fn severity_label(severity: Severity) -> (r: &'static str)
    ensures
        r@ == label_of(severity),
{
    match severity {
        Severity::Okay => "OK",
        Severity::Caution => "Caution",
        Severity::AtRisk => "At Risk",
    }
}

pub fn category_label(category: CheckCategory) -> (r: &'static str)
    ensures
        r@ == category_text(category),
{
    match category {
        CheckCategory::Network => "Network",
        CheckCategory::Process => "Processes & Programs",
        CheckCategory::Persistence => "Startup & Persistence",
        CheckCategory::System => "System Security",
    }
}

/// The HTML escape of one character: `&`, `<`, `>` and `"` become entities.
pub open spec fn escape_char(c: char) -> Seq<char> {
    if c == '&' {
        "&amp;"@
    } else if c == '<' {
        "&lt;"@
    } else if c == '>' {
        "&gt;"@
    } else if c == '"' {
        "&quot;"@
    } else {
        seq![c]
    }
}

pub open spec fn escape(s: Seq<char>) -> Seq<char>
    decreases s.len(),
{
    if s.len() == 0 {
        seq![]
    } else {
        escape(s.drop_last()) + escape_char(s.last())
    }
}

pub open spec fn markup_free(s: Seq<char>) -> bool {
    forall|i: int| 0 <= i < s.len() ==> s[i] != '<' && s[i] != '>' && s[i] != '"'
}

/// Escaped text never holds `<`, `>` or `"`, so report content cannot
/// open a tag or leave an attribute.
pub proof fn law_escape_has_no_markup(s: Seq<char>)
    ensures
        markup_free(escape(s)),
    decreases s.len(),
{
    if s.len() > 0 {
        law_escape_has_no_markup(s.drop_last());
        reveal_strlit("&amp;");
        reveal_strlit("&lt;");
        reveal_strlit("&gt;");
        reveal_strlit("&quot;");
        let prev = escape(s.drop_last());
        let e = escape_char(s.last());
        assert(markup_free(e));
        assert forall|i: int| 0 <= i < (prev + e).len() implies (prev + e)[i] != '<' && (prev + e)[i] != '>'
            && (prev + e)[i] != '"' by {
            if i < prev.len() {
                assert((prev + e)[i] == prev[i]);
            } else {
                assert((prev + e)[i] == e[i - prev.len()]);
            }
        }
    }
}

pub fn escape_html(input: &str) -> (r: String)
    ensures
        r@ == escape(input@),
{
    let v = crate::text::chars_of(input);
    let mut r = String::new();
    let mut k: usize = 0;
    while k < v.len()
        invariant
            k <= v@.len(),
            v@ == input@,
            r@ == escape(v@.take(k as int)),
        decreases v@.len() - k,
    {
        assert(v@.take(k + 1).drop_last() =~= v@.take(k as int));
        assert(v@.take(k + 1).last() == v@[k as int]);
        let c = v[k];
        if c == '&' {
            push_str(&mut r, "&amp;");
        } else if c == '<' {
            push_str(&mut r, "&lt;");
        } else if c == '>' {
            push_str(&mut r, "&gt;");
        } else if c == '"' {
            push_str(&mut r, "&quot;");
        } else {
            push_char(&mut r, c);
        }
        k = k + 1;
    }
    assert(v@.take(k as int) =~= v@);
    r
}

// ---------------------------------------------------------------------------
// Report data
// ---------------------------------------------------------------------------

pub struct ItemModel {
    pub name: Seq<char>,
    pub severity: Option<Severity>,
    pub verdict: Seq<char>,
    pub findings: Seq<(Seq<char>, Seq<char>)>,
    pub remediation: Option<Seq<char>>,
    pub data_source: Option<Seq<char>>,
}

/// One check's result, normalized for reporting regardless of whether it
/// completed, was skipped for permission, or errored.
#[derive(Debug, Clone)]
pub struct ReportItem {
    pub name: String,
    /// `None` for a skipped/errored check - it contributed no severity.
    pub severity: Option<Severity>,
    pub verdict: String,
    pub findings: Vec<(String, String)>,
    pub remediation: Option<String>,
    pub data_source: Option<String>,
}

impl DeepView for ReportItem {
    type V = ItemModel;

    open spec fn deep_view(&self) -> ItemModel {
        ItemModel {
            name: self.name@,
            severity: self.severity,
            verdict: self.verdict@,
            findings: self.findings.deep_view(),
            remediation: self.remediation.deep_view(),
            data_source: self.data_source.deep_view(),
        }
    }
}

pub struct SectionModel {
    pub category_label: Seq<char>,
    pub items: Seq<ItemModel>,
}

#[derive(Debug, Clone)]
pub struct ReportSection {
    pub category_label: &'static str,
    pub items: Vec<ReportItem>,
}

impl DeepView for ReportSection {
    type V = SectionModel;

    open spec fn deep_view(&self) -> SectionModel {
        SectionModel { category_label: self.category_label@, items: self.items.deep_view() }
    }
}

pub struct ReportModel {
    pub timestamp: Seq<char>,
    pub overall_severity: Severity,
    pub executed_count: usize,
    pub total_count: usize,
    pub ok_count: usize,
    pub caution_count: usize,
    pub at_risk_count: usize,
    pub skipped_count: usize,
    pub sections: Seq<SectionModel>,
}

#[derive(Debug, Clone)]
pub struct ReportData {
    pub timestamp: String,
    pub overall_severity: Severity,
    pub executed_count: usize,
    pub total_count: usize,
    pub ok_count: usize,
    pub caution_count: usize,
    pub at_risk_count: usize,
    pub skipped_count: usize,
    pub sections: Vec<ReportSection>,
}

impl DeepView for ReportData {
    type V = ReportModel;

    open spec fn deep_view(&self) -> ReportModel {
        ReportModel {
            timestamp: self.timestamp@,
            overall_severity: self.overall_severity,
            executed_count: self.executed_count,
            total_count: self.total_count,
            ok_count: self.ok_count,
            caution_count: self.caution_count,
            at_risk_count: self.at_risk_count,
            skipped_count: self.skipped_count,
            sections: self.sections.deep_view(),
        }
    }
}

/// The order in which report sections appear.
pub open spec fn category_order() -> Seq<CheckCategory> {
    seq![CheckCategory::Network, CheckCategory::Process, CheckCategory::Persistence, CheckCategory::System]
}

pub fn outcome_category(outcome: &CheckOutcome) -> (c: CheckCategory)
    ensures
        c == outcome.deep_view().category(),
{
    outcome.category()
}

pub open spec fn report_item(o: OutcomeModel) -> ItemModel {
    match o {
        OutcomeModel::Completed(r) => ItemModel {
            name: r.name,
            severity: Some(r.severity),
            verdict: r.verdict,
            findings: Seq::new(r.findings.len(), |i: int| (r.findings[i].label, r.findings[i].detail)),
            remediation: r.remediation,
            data_source: Some(r.data_source),
        },
        OutcomeModel::PermissionDenied { name, .. } => ItemModel {
            name,
            severity: None,
            verdict: "Not run - permission was not granted for this scan."@,
            findings: seq![],
            remediation: None,
            data_source: None,
        },
        OutcomeModel::Error { name, message, .. } => ItemModel {
            name,
            severity: None,
            verdict: message,
            findings: seq![],
            remediation: None,
            data_source: None,
        },
    }
}

pub fn to_report_item(outcome: &CheckOutcome) -> (item: ReportItem)
    ensures
        item.deep_view() == report_item(outcome.deep_view()),
{
    match outcome {
        CheckOutcome::Completed(r) => {
            let mut findings: Vec<(String, String)> = Vec::new();
            let ghost fs = r.findings.deep_view();
            let mut k: usize = 0;
            while k < r.findings.len()
                invariant
                    k <= r.findings@.len(),
                    fs == r.findings.deep_view(),
                    findings.deep_view() =~= Seq::new(k as nat, |i: int| (fs[i].label, fs[i].detail)),
                decreases r.findings@.len() - k,
            {
                let ghost before = findings.deep_view();
                findings.push((r.findings[k].label.clone(), r.findings[k].detail.clone()));
                assert(findings.deep_view() =~= before.push((fs[k as int].label, fs[k as int].detail)));
                k = k + 1;
            }
            let remediation = match &r.remediation {
                Some(s) => Some(s.clone()),
                None => None,
            };
            ReportItem {
                name: r.name.clone(),
                severity: Some(r.severity),
                verdict: r.verdict.clone(),
                findings,
                remediation,
                data_source: Some(r.data_source.clone()),
            }
        },
        CheckOutcome::PermissionDenied { name, .. } => {
            let findings: Vec<(String, String)> = Vec::new();
            assert(findings.deep_view() =~= seq![]);
            ReportItem {
                name: name.clone(),
                severity: None,
                verdict: String::from_str("Not run - permission was not granted for this scan."),
                findings,
                remediation: None,
                data_source: None,
            }
        },
        CheckOutcome::Error { name, message, .. } => {
            let findings: Vec<(String, String)> = Vec::new();
            assert(findings.deep_view() =~= seq![]);
            ReportItem {
                name: name.clone(),
                severity: None,
                verdict: message.clone(),
                findings,
                remediation: None,
                data_source: None,
            }
        },
    }
}

/// How many outcomes have the given severity (`None`: skipped or errored).
pub open spec fn count_with(os: Seq<OutcomeModel>, s: Option<Severity>) -> nat
    decreases os.len(),
{
    if os.len() == 0 {
        0
    } else {
        count_with(os.drop_last(), s) + if os.last().severity() == s {
            1nat
        } else {
            0nat
        }
    }
}

/// The report items of the outcomes of one category, in order.
pub open spec fn items_of(os: Seq<OutcomeModel>, c: CheckCategory) -> Seq<ItemModel>
    decreases os.len(),
{
    if os.len() == 0 {
        seq![]
    } else {
        items_of(os.drop_last(), c) + if os.last().category() == c {
            seq![report_item(os.last())]
        } else {
            seq![]
        }
    }
}

/// One section per category (in `category_order`) that has any outcome.
pub open spec fn sections_of(os: Seq<OutcomeModel>, cats: Seq<CheckCategory>) -> Seq<SectionModel>
    decreases cats.len(),
{
    if cats.len() == 0 {
        seq![]
    } else {
        let items = items_of(os, cats.last());
        sections_of(os, cats.drop_last()) + if items.len() > 0 {
            seq![SectionModel { category_label: category_text(cats.last()), items }]
        } else {
            seq![]
        }
    }
}

/// What `chrono` gives for an RFC 3339 timestamp rendered in RFC 2822 form
/// (in UTC); `None` when the text is not RFC 3339, or when its UTC year is
/// outside 0 to 9999, which RFC 2822 cannot represent.
pub uninterp spec fn chrono_rfc2822(rfc3339: Seq<char>) -> Option<Seq<char>>;

/// Calls `chrono::DateTime::parse_from_rfc3339`, converts the result to UTC
/// and writes it with the `Fixed::RFC2822` format item through
/// `DelayedFormat::write_to`, which returns an error (where `to_rfc2822`
/// would panic) for a year it cannot represent. The result is named by
/// `chrono_rfc2822`.
#[verifier::external_body]
fn rfc3339_to_rfc2822(ts: &str) -> (r: Option<String>)
    ensures
        r.deep_view() == chrono_rfc2822(ts@),
{
    let utc = chrono::DateTime::parse_from_rfc3339(ts).ok()?.with_timezone(&chrono::Utc);
    let items = [chrono::format::Item::Fixed(chrono::format::Fixed::RFC2822)];
    let mut out = String::new();
    match utc.format_with_items(items.iter()).write_to(&mut out) {
        Ok(()) => Some(out),
        Err(_) => None,
    }
}

/// The report's rendering of a record timestamp: RFC 2822 when the stored
/// text is RFC 3339 and representable in RFC 2822, else the stored text
/// itself.
pub open spec fn report_timestamp(ts: Seq<char>) -> Seq<char> {
    match chrono_rfc2822(ts) {
        Some(s) => s,
        None => ts,
    }
}

pub open spec fn report_spec(record: ScanRecord) -> ReportModel {
    let os = record.outcomes.deep_view();
    ReportModel {
        timestamp: report_timestamp(record.timestamp@),
        overall_severity: record.overall_severity,
        executed_count: record.executed_count,
        total_count: record.total_count,
        ok_count: count_with(os, Some(Severity::Okay)) as usize,
        caution_count: count_with(os, Some(Severity::Caution)) as usize,
        at_risk_count: count_with(os, Some(Severity::AtRisk)) as usize,
        skipped_count: count_with(os, None) as usize,
        sections: sections_of(os, category_order()),
    }
}

pub proof fn lemma_count_with_le(os: Seq<OutcomeModel>, s: Option<Severity>)
    ensures
        count_with(os, s) <= os.len(),
    decreases os.len(),
{
    if os.len() > 0 {
        lemma_count_with_le(os.drop_last(), s);
    }
}

fn items_in(outcomes: &Vec<CheckOutcome>, c: CheckCategory) -> (r: Vec<ReportItem>)
    ensures
        r.deep_view() == items_of(outcomes.deep_view(), c),
{
    let ghost os = outcomes.deep_view();
    let mut items: Vec<ReportItem> = Vec::new();
    let mut k: usize = 0;
    while k < outcomes.len()
        invariant
            k <= outcomes@.len(),
            os == outcomes.deep_view(),
            items.deep_view() == items_of(os.take(k as int), c),
        decreases outcomes@.len() - k,
    {
        assert(os.take(k + 1).drop_last() =~= os.take(k as int));
        assert(os.take(k + 1).last() == os[k as int]);
        let ghost before = items.deep_view();
        if outcome_category(&outcomes[k]) == c {
            items.push(to_report_item(&outcomes[k]));
            assert(items.deep_view() =~= before + seq![report_item(os[k as int])]);
        } else {
            assert(items.deep_view() =~= before + seq![]);
        }
        k = k + 1;
    }
    assert(os.take(k as int) =~= os);
    items
}

/// Pure data-preparation step, shared by both exporters: a normalized,
/// category-grouped view with the executive-summary counts computed once.
pub fn prepare_report_data(record: &ScanRecord) -> (d: ReportData)
    ensures
        d.deep_view() == report_spec(*record),
{
    let ghost os = record.outcomes.deep_view();
    let mut ok_count: usize = 0;
    let mut caution_count: usize = 0;
    let mut at_risk_count: usize = 0;
    let mut skipped_count: usize = 0;
    let mut k: usize = 0;
    while k < record.outcomes.len()
        invariant
            k <= record.outcomes@.len(),
            os == record.outcomes.deep_view(),
            ok_count == count_with(os.take(k as int), Some(Severity::Okay)),
            caution_count == count_with(os.take(k as int), Some(Severity::Caution)),
            at_risk_count == count_with(os.take(k as int), Some(Severity::AtRisk)),
            skipped_count == count_with(os.take(k as int), None),
        decreases record.outcomes@.len() - k,
    {
        proof {
            lemma_count_with_le(os.take(k as int), Some(Severity::Okay));
            lemma_count_with_le(os.take(k as int), Some(Severity::Caution));
            lemma_count_with_le(os.take(k as int), Some(Severity::AtRisk));
            lemma_count_with_le(os.take(k as int), None);
        }
        assert(os.take(k + 1).drop_last() =~= os.take(k as int));
        assert(os.take(k + 1).last() == os[k as int]);
        match record.outcomes[k].severity() {
            Some(Severity::Okay) => ok_count = ok_count + 1,
            Some(Severity::Caution) => caution_count = caution_count + 1,
            Some(Severity::AtRisk) => at_risk_count = at_risk_count + 1,
            None => skipped_count = skipped_count + 1,
        }
        k = k + 1;
    }
    assert(os.take(k as int) =~= os);
    let order = vec![CheckCategory::Network, CheckCategory::Process, CheckCategory::Persistence, CheckCategory::System];
    assert(order@ =~= category_order());
    let mut sections: Vec<ReportSection> = Vec::new();
    let mut j: usize = 0;
    while j < order.len()
        invariant
            j <= order@.len(),
            order@ == category_order(),
            os == record.outcomes.deep_view(),
            sections.deep_view() == sections_of(os, order@.take(j as int)),
        decreases order@.len() - j,
    {
        assert(order@.take(j + 1).drop_last() =~= order@.take(j as int));
        assert(order@.take(j + 1).last() == order@[j as int]);
        let cat = order[j];
        let items = items_in(&record.outcomes, cat);
        let ghost before = sections.deep_view();
        if items.len() > 0 {
            let ghost im = items.deep_view();
            sections.push(ReportSection { category_label: category_label(cat), items });
            assert(sections.deep_view() =~= before + seq![
                SectionModel { category_label: category_text(cat), items: im }
            ]);
        } else {
            assert(sections.deep_view() =~= before + seq![]);
        }
        j = j + 1;
    }
    assert(order@.take(j as int) =~= order@);
    let timestamp = match rfc3339_to_rfc2822(record.timestamp.as_str()) {
        Some(s) => s,
        None => record.timestamp.clone(),
    };
    ReportData {
        timestamp,
        overall_severity: record.overall_severity,
        executed_count: record.executed_count,
        total_count: record.total_count,
        ok_count,
        caution_count,
        at_risk_count,
        skipped_count,
        sections,
    }
}

pub open spec fn explanation_of(s: Severity) -> Seq<char> {
    match s {
        Severity::Okay => "No problems were found among the checks that ran. This does not guarantee the device is fully secure - only that these specific checks found nothing concerning."@,
        Severity::Caution => "One or more checks found something worth reviewing. None of it is necessarily an active compromise, but it's worth addressing the items below."@,
        Severity::AtRisk => "One or more checks found something that indicates a real security problem. Review the flagged items below and act on the remediation guidance."@,
    }
}

pub fn overall_explanation(severity: Severity) -> (r: &'static str)
    ensures
        r@ == explanation_of(severity),
{
    match severity {
        Severity::Okay => "No problems were found among the checks that ran. This does not guarantee the device is fully secure - only that these specific checks found nothing concerning.",
        Severity::Caution => "One or more checks found something worth reviewing. None of it is necessarily an active compromise, but it's worth addressing the items below.",
        Severity::AtRisk => "One or more checks found something that indicates a real security problem. Review the flagged items below and act on the remediation guidance.",
    }
}

// ---------------------------------------------------------------------------
// HTML
// ---------------------------------------------------------------------------

pub const PAGE_START: &'static str = "<!doctype html>\n<html lang=\"en\">\n<head>\n<meta charset=\"utf-8\">\n<title>NetGuard Scan Report - ";
pub const PAGE_HEADER: &'static str = "</title>\n<style>\n  :root {\n    --ok: #1f9d55; --caution: #b7791f; --at-risk: #c53030;\n    --bg: #ffffff; --fg: #1a1f16; --muted: #5b6b57; --border: #dbe6da; --panel: #f4f9f2;\n  }\n  body {\n    font-family: -apple-system, \"Segoe UI\", Roboto, Arial, sans-serif;\n    background: var(--bg); color: var(--fg); margin: 0; padding: 2.5rem;\n    max-width: 900px; margin: 0 auto; line-height: 1.55;\n  }\n  header { border-bottom: 3px solid #2f7a4d; padding-bottom: 1rem; margin-bottom: 1.5rem; }\n  header h1 { margin: 0 0 0.25rem; font-size: 1.7rem; }\n  header p { margin: 0.15rem 0; color: var(--muted); }\n  .overall { display: inline-block; padding: 0.2rem 0.75rem; border-radius: 999px; font-weight: 600; color: #fff; }\n  .overall.ok { background: var(--ok); }\n  .overall.caution { background: var(--caution); }\n  .overall.at-risk { background: var(--at-risk); }\n  .summary { background: var(--panel); border: 1px solid var(--border); border-radius: 12px; padding: 1.25rem 1.5rem; margin-bottom: 2rem; }\n  .summary h2 { margin-top: 0; font-size: 1.1rem; }\n  .summary p { margin: 0.35rem 0; }\n  .counts { display: flex; gap: 1.5rem; margin-top: 0.75rem; flex-wrap: wrap; }\n  .count { font-size: 0.85rem; color: var(--muted); }\n  .count strong { display: block; font-size: 1.3rem; color: var(--fg); }\n  .category { margin-bottom: 1.75rem; break-inside: avoid; }\n  .category h2 { font-size: 1.15rem; border-bottom: 2px solid var(--border); padding-bottom: 0.35rem; margin-bottom: 0.75rem; }\n  article.check { border: 1px solid var(--border); border-radius: 10px; padding: 1rem 1.25rem; margin-bottom: 0.85rem; break-inside: avoid; }\n  article.check.skipped { opacity: 0.75; }\n  h3 { margin: 0 0 0.5rem; font-size: 1.02rem; }\n  .badge { display: inline-block; font-size: 0.68rem; font-weight: 700; text-transform: uppercase; letter-spacing: 0.04em; padding: 0.15rem 0.5rem; border-radius: 999px; color: #fff; margin-right: 0.5rem; vertical-align: middle; }\n  .badge.ok { background: var(--ok); }\n  .badge.caution { background: var(--caution); }\n  .badge.at-risk { background: var(--at-risk); }\n  .badge.skipped { background: #8a8a8a; }\n  .verdict { font-weight: 500; margin: 0.25rem 0 0.5rem; }\n  ul.findings { margin: 0.5rem 0; padding-left: 1.25rem; color: var(--muted); font-size: 0.94rem; }\n  .remediation { background: var(--panel); border-left: 3px solid var(--caution); padding: 0.5rem 0.75rem; margin: 0.5rem 0; font-size: 0.92rem; }\n  .data-source { font-size: 0.76rem; color: var(--muted); margin-top: 0.5rem; }\n  footer { margin-top: 2rem; padding-top: 1rem; border-top: 1px solid var(--border); font-size: 0.8rem; color: var(--muted); }\n  @media print { body { padding: 0.5in; } article.check { box-shadow: none; } }\n</style>\n</head>\n<body>\n<header>\n  <h1>NetGuard Scan Report</h1>\n  <p>Generated ";
pub const PAGE_SUMMARY: &'static str = "</p>\n</header>\n<section class=\"summary\">\n  <h2>Executive summary</h2>\n  <p>Overall result: <span class=\"overall ";
pub const PAGE_LABEL: &'static str = "\">";
pub const PAGE_EXECUTED: &'static str = "</span> - based on ";
pub const PAGE_TOTAL: &'static str = " of ";
pub const PAGE_EXPLANATION: &'static str = " checks that ran this scan.</p>\n  <p>";
pub const PAGE_OK: &'static str = "</p>\n  <div class=\"counts\">\n    <div class=\"count\"><strong>";
pub const PAGE_CAUTION: &'static str = "</strong>OK</div>\n    <div class=\"count\"><strong>";
pub const PAGE_AT_RISK: &'static str = "</strong>Caution</div>\n    <div class=\"count\"><strong>";
pub const PAGE_SKIPPED: &'static str = "</strong>At Risk</div>\n    <div class=\"count\"><strong>";
pub const PAGE_SECTIONS: &'static str = "</strong>Skipped</div>\n  </div>\n</section>\n";
pub const PAGE_END: &'static str = "\n<footer>\n  NetGuard is a diagnostic and triage tool, not an antivirus - it does not scan for malware or remove anything.\n  This report reflects a single point-in-time scan of this device only.\n</footer>\n</body>\n</html>";
pub open spec fn finding_li(f: (Seq<char>, Seq<char>)) -> Seq<char> {
    "<li><strong>"@ + escape(f.0) + "</strong>: "@ + escape(f.1) + "</li>"@
}

pub open spec fn finding_lis(fs: Seq<(Seq<char>, Seq<char>)>) -> Seq<char>
    decreases fs.len(),
{
    if fs.len() == 0 {
        seq![]
    } else {
        finding_lis(fs.drop_last()) + finding_li(fs.last())
    }
}

pub open spec fn badge_of(s: Option<Severity>) -> (Seq<char>, Seq<char>) {
    match s {
        Some(sev) => (class_of(sev), label_of(sev)),
        None => ("skipped"@, "Skipped"@),
    }
}

/// One check as an `<article>`: its badge, name, verdict, findings (as a
/// list, when there are any), remediation and data source.
pub open spec fn article_html(item: ItemModel) -> Seq<char> {
    let (bc, bl) = badge_of(item.severity);
    let lis = finding_lis(item.findings);
    let findings_block = if lis.len() == 0 {
        seq![]
    } else {
        "<ul class=\"findings\">"@ + lis + "</ul>"@
    };
    let remediation = match item.remediation {
        Some(rem) => "<p class=\"remediation\"><strong>What to do:</strong> "@ + escape(rem) + "</p>"@,
        None => seq![],
    };
    let data_source = match item.data_source {
        Some(ds) => "<p class=\"data-source\">Data source: "@ + escape(ds) + "</p>"@,
        None => seq![],
    };
    "<article class=\"check "@ + bc + "\">\n  <h3><span class=\"badge "@ + bc + "\">"@ + bl + "</span> "@ + escape(item.name)
        + "</h3>\n  <p class=\"verdict\">"@ + escape(item.verdict) + "</p>\n  "@ + findings_block + "\n  "@
        + remediation + "\n  "@ + data_source + "\n</article>"@
}

pub open spec fn articles_html(items: Seq<ItemModel>) -> Seq<char>
    decreases items.len(),
{
    if items.len() == 0 {
        seq![]
    } else {
        articles_html(items.drop_last()) + article_html(items.last())
    }
}

pub open spec fn section_html(s: SectionModel) -> Seq<char> {
    "<section class=\"category\">\n  <h2>"@ + escape(s.category_label) + "</h2>\n  "@ + articles_html(s.items)
        + "\n</section>"@
}

pub open spec fn sections_html(ss: Seq<SectionModel>) -> Seq<char>
    decreases ss.len(),
{
    if ss.len() == 0 {
        seq![]
    } else {
        sections_html(ss.drop_last()) + section_html(ss.last())
    }
}

/// The whole report page for prepared report data.
pub open spec fn report_html(d: ReportModel) -> Seq<char> {
    PAGE_START@ + d.timestamp + PAGE_HEADER@ + d.timestamp + PAGE_SUMMARY@ + class_of(d.overall_severity)
        + PAGE_LABEL@ + label_of(d.overall_severity) + PAGE_EXECUTED@ + decimal(d.executed_count as nat)
        + PAGE_TOTAL@ + decimal(d.total_count as nat) + PAGE_EXPLANATION@ + explanation_of(d.overall_severity)
        + PAGE_OK@ + decimal(d.ok_count as nat) + PAGE_CAUTION@ + decimal(d.caution_count as nat)
        + PAGE_AT_RISK@ + decimal(d.at_risk_count as nat) + PAGE_SKIPPED@ + decimal(d.skipped_count as nat)
        + PAGE_SECTIONS@ + sections_html(d.sections) + PAGE_END@
}

fn article_string(item: &ReportItem) -> (r: String)
    ensures
        r@ == article_html(item.deep_view()),
{
    let (bc, bl): (&str, &str) = match item.severity {
        Some(sev) => (severity_class(sev), severity_label(sev)),
        None => ("skipped", "Skipped"),
    };
    let ghost fs = item.findings.deep_view();
    let mut lis = String::new();
    let mut k: usize = 0;
    while k < item.findings.len()
        invariant
            k <= item.findings@.len(),
            fs == item.findings.deep_view(),
            lis@ == finding_lis(fs.take(k as int)),
        decreases item.findings@.len() - k,
    {
        assert(fs.take(k + 1).drop_last() =~= fs.take(k as int));
        assert(fs.take(k + 1).last() == fs[k as int]);
        let (label, detail) = (&item.findings[k].0, &item.findings[k].1);
        let ghost before = lis@;
        push_str(&mut lis, "<li><strong>");
        push_str(&mut lis, escape_html(label.as_str()).as_str());
        push_str(&mut lis, "</strong>: ");
        push_str(&mut lis, escape_html(detail.as_str()).as_str());
        push_str(&mut lis, "</li>");
        assert(lis@ =~= before + finding_li(fs[k as int]));
        k = k + 1;
    }
    assert(fs.take(k as int) =~= fs);
    let lv = crate::text::chars_of(lis.as_str());
    let findings_block = if lv.len() == 0 {
        String::new()
    } else {
        concat3("<ul class=\"findings\">", lis.as_str(), "</ul>")
    };
    let remediation = match &item.remediation {
        Some(rem) => concat3(
            "<p class=\"remediation\"><strong>What to do:</strong> ",
            escape_html(rem.as_str()).as_str(),
            "</p>",
        ),
        None => String::new(),
    };
    let data_source = match &item.data_source {
        Some(ds) => concat3("<p class=\"data-source\">Data source: ", escape_html(ds.as_str()).as_str(), "</p>"),
        None => String::new(),
    };
    proof {
        reveal_strlit("");
    }
    let mut r = concat3("<article class=\"check ", bc, "\">\n  <h3><span class=\"badge ");
    push_str(&mut r, bc);
    push_str(&mut r, "\">");
    push_str(&mut r, bl);
    push_str(&mut r, "</span> ");
    push_str(&mut r, escape_html(item.name.as_str()).as_str());
    push_str(&mut r, "</h3>\n  <p class=\"verdict\">");
    push_str(&mut r, escape_html(item.verdict.as_str()).as_str());
    push_str(&mut r, "</p>\n  ");
    push_str(&mut r, findings_block.as_str());
    push_str(&mut r, "\n  ");
    push_str(&mut r, remediation.as_str());
    push_str(&mut r, "\n  ");
    push_str(&mut r, data_source.as_str());
    push_str(&mut r, "\n</article>");
    assert(r@ =~= article_html(item.deep_view()));
    r
}

fn section_string(section: &ReportSection) -> (r: String)
    ensures
        r@ == section_html(section.deep_view()),
{
    let ghost items = section.items.deep_view();
    let mut checks = String::new();
    let mut k: usize = 0;
    while k < section.items.len()
        invariant
            k <= section.items@.len(),
            items == section.items.deep_view(),
            checks@ == articles_html(items.take(k as int)),
        decreases section.items@.len() - k,
    {
        assert(items.take(k + 1).drop_last() =~= items.take(k as int));
        assert(items.take(k + 1).last() == items[k as int]);
        push_str(&mut checks, article_string(&section.items[k]).as_str());
        k = k + 1;
    }
    assert(items.take(k as int) =~= items);
    let mut r = concat3("<section class=\"category\">\n  <h2>", escape_html(section.category_label).as_str(), "</h2>\n  ");
    push_str(&mut r, checks.as_str());
    push_str(&mut r, "\n</section>");
    assert(r@ =~= section_html(section.deep_view()));
    r
}

/// The report page for prepared report data.
pub fn render_report_data_html(data: &ReportData) -> (r: String)
    ensures
        r@ == report_html(data.deep_view()),
{
    let ghost ss = data.sections.deep_view();
    let mut sections = String::new();
    let mut k: usize = 0;
    while k < data.sections.len()
        invariant
            k <= data.sections@.len(),
            ss == data.sections.deep_view(),
            sections@ == sections_html(ss.take(k as int)),
        decreases data.sections@.len() - k,
    {
        assert(ss.take(k + 1).drop_last() =~= ss.take(k as int));
        assert(ss.take(k + 1).last() == ss[k as int]);
        push_str(&mut sections, section_string(&data.sections[k]).as_str());
        k = k + 1;
    }
    assert(ss.take(k as int) =~= ss);
    let mut r = concat3(PAGE_START, data.timestamp.as_str(), PAGE_HEADER);
    push_str(&mut r, data.timestamp.as_str());
    push_str(&mut r, PAGE_SUMMARY);
    push_str(&mut r, severity_class(data.overall_severity));
    push_str(&mut r, PAGE_LABEL);
    push_str(&mut r, severity_label(data.overall_severity));
    push_str(&mut r, PAGE_EXECUTED);
    push_str(&mut r, count_string(data.executed_count).as_str());
    push_str(&mut r, PAGE_TOTAL);
    push_str(&mut r, count_string(data.total_count).as_str());
    push_str(&mut r, PAGE_EXPLANATION);
    push_str(&mut r, overall_explanation(data.overall_severity));
    push_str(&mut r, PAGE_OK);
    push_str(&mut r, count_string(data.ok_count).as_str());
    push_str(&mut r, PAGE_CAUTION);
    push_str(&mut r, count_string(data.caution_count).as_str());
    push_str(&mut r, PAGE_AT_RISK);
    push_str(&mut r, count_string(data.at_risk_count).as_str());
    push_str(&mut r, PAGE_SKIPPED);
    push_str(&mut r, count_string(data.skipped_count).as_str());
    push_str(&mut r, PAGE_SECTIONS);
    push_str(&mut r, sections.as_str());
    push_str(&mut r, PAGE_END);
    assert(r@ =~= report_html(data.deep_view()));
    r
}

/// Renders a full `ScanRecord` as a self-contained, printable HTML report.
pub fn render_report_html(record: &ScanRecord) -> (r: String)
    ensures
        r@ == report_html(report_spec(*record)),
{
    let data = prepare_report_data(record);
    render_report_data_html(&data)
}

} // verus!
