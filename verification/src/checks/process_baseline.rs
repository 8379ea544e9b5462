//! Running-process baseline diff.
//!
//! Data source: the live process table (captured once per scan in
//! [`ScanContext`]). Flags processes whose executable path looks unfamiliar -
//! running from a Temp directory, or named with a random-looking hex string -
//! against a small built-in allowlist of common, expected Windows/vendor
//! process names.

use super::{finding, make_result, max_severity, result_model, CheckKind, CheckResult, CheckResultModel, Finding, FindingModel, ScanContext, Severity, lookup_last, diff_base};
use crate::text::{
    chars_of, concat2, contains, contains_lower_in, count_string, decimal, decimal_string, ends_with,
    ends_with_in, has_string, in_list, lower_in, lower_seq, push_str, str_texts, string_of_all, texts,
};
use vstd::prelude::*;

verus! {

pub struct ProcessBaselineCheck;

pub const DATA_SOURCE: &'static str = "live process table (sysinfo)";

/// Common, expected process names on a typical Windows laptop, matched by
/// exact lowercase name. Absence from this list alone never raises
/// severity.
pub open spec fn baseline_allowlist() -> Seq<Seq<char>> {
    seq![
        "system"@, "system idle process"@, "registry"@, "smss.exe"@, "csrss.exe"@, "wininit.exe"@,
        "services.exe"@, "lsass.exe"@, "winlogon.exe"@, "explorer.exe"@, "dwm.exe"@, "svchost.exe"@,
        "taskhostw.exe"@, "runtimebroker.exe"@, "searchindexer.exe"@, "searchapp.exe"@, "shellexperiencehost.exe"@,
        "startmenuexperiencehost.exe"@, "sihost.exe"@, "ctfmon.exe"@, "spoolsv.exe"@, "wmiprvse.exe"@,
        "conhost.exe"@, "chrome.exe"@, "msedge.exe"@, "firefox.exe"@, "code.exe"@, "cargo.exe"@, "node.exe"@,
    ]
}

fn allowlist() -> (v: Vec<&'static str>)
    ensures
        str_texts(v@) == baseline_allowlist(),
{
    let v = vec![
        "system", "system idle process", "registry", "smss.exe", "csrss.exe", "wininit.exe",
        "services.exe", "lsass.exe", "winlogon.exe", "explorer.exe", "dwm.exe", "svchost.exe",
        "taskhostw.exe", "runtimebroker.exe", "searchindexer.exe", "searchapp.exe", "shellexperiencehost.exe",
        "startmenuexperiencehost.exe", "sihost.exe", "ctfmon.exe", "spoolsv.exe", "wmiprvse.exe",
        "conhost.exe", "chrome.exe", "msedge.exe", "firefox.exe", "code.exe", "cargo.exe", "node.exe",
    ];
    assert(str_texts(v@) =~= baseline_allowlist());
    v
}

/// Model of one entry of the process table.
pub struct ProcessModel {
    pub pid: u32,
    pub name: Seq<char>,
    pub exe_path: Option<Seq<char>>,
}

/// One running process as seen in the process table.
#[derive(Debug, Clone)]
pub struct ProcessInfo {
    pub pid: u32,
    pub name: String,
    pub exe_path: Option<String>,
}

impl DeepView for ProcessInfo {
    type V = ProcessModel;

    open spec fn deep_view(&self) -> ProcessModel {
        ProcessModel { pid: self.pid, name: self.name@, exe_path: self.exe_path.deep_view() }
    }
}

// ---------------------------------------------------------------------------
// Random-looking names (regex)
// ---------------------------------------------------------------------------

/// What `regex::Regex::new(pattern)` then `is_match(haystack)` gives: `None`
/// when the pattern does not compile.
pub uninterp spec fn regex_match(pattern: Seq<char>, haystack: Seq<char>) -> Option<bool>;

/// An 8+ character hex-looking basename, e.g. `a1b2c3d4e5` - a common
/// pattern for dropped/generated malware binaries.
pub open spec fn random_name_pattern() -> Seq<char> {
    "^[0-9a-f]{8,}$"@
}

/// What `^[0-9a-f]{8,}$` matches: eight or more characters, each a digit or
/// one of `a`-`f`.
pub open spec fn is_hex_name(s: Seq<char>) -> bool {
    s.len() >= 8 && forall|i: int| 0 <= i < s.len() ==> ('0' <= #[trigger] s[i] <= '9') || ('a' <= s[i] <= 'f')
}

/// Calls `regex::Regex::new(pattern)` and, when it compiles, `is_match` on
/// `haystack`. The result is named by `regex_match`; for the one pattern
/// this library uses, the regex crate's syntax documentation gives its
/// meaning: `^` and `$` anchor at the start and end of the text, the class
/// `[0-9a-f]` is those character ranges, and `{8,}` means eight or more.
#[verifier::external_body]
fn regex_is_match(pattern: &str, haystack: &str) -> (r: Option<bool>)
    ensures
        r == regex_match(pattern@, haystack@),
        pattern@ == random_name_pattern() ==> r == Some(is_hex_name(haystack@)),
{
    match regex::Regex::new(pattern) {
        Ok(re) => Some(re.is_match(haystack)),
        Err(_) => None,
    }
}

/// The name without a `.exe` suffix, lower-cased.
pub open spec fn name_stem(name: Seq<char>) -> Seq<char> {
    lower_seq(
        if ends_with(name, ".exe"@) {
            name.subrange(0, name.len() - 4)
        } else {
            name
        },
    )
}

pub open spec fn random_looking(name: Seq<char>) -> bool {
    is_hex_name(name_stem(name))
}

pub fn has_random_looking_name(name: &str) -> (b: bool)
    ensures
        b == random_looking(name@),
{
    let v = chars_of(name);
    assert(v@.subrange(0, v@.len() as int) =~= v@);
    proof {
        reveal_strlit(".exe");
    }
    let end = if ends_with_in(&v, 0, v.len(), &chars_of(".exe")) {
        v.len() - 4
    } else {
        v.len()
    };
    let stem = lower_in(&v, 0, end);
    assert(v@.subrange(0, v@.len() - 4) =~= v@.subrange(0, v@.len() - 4));
    let s = string_of_all(&stem);
    match regex_is_match("^[0-9a-f]{8,}$", s.as_str()) {
        Some(b) => b,
        None => false,
    }
}

// ---------------------------------------------------------------------------
// Evaluation
// ---------------------------------------------------------------------------

pub open spec fn temp_path(path: Seq<char>) -> bool {
    let lower = lower_seq(path);
    contains(lower, "\\appdata\\local\\temp\\"@) || contains(lower, "\\windows\\temp\\"@) || contains(
        lower,
        "\\temp\\"@,
    )
}

pub fn is_temp_path(path: &str) -> (b: bool)
    ensures
        b == temp_path(path@),
{
    let v = chars_of(path);
    assert(v@.subrange(0, v@.len() as int) =~= v@);
    contains_lower_in(&v, 0, v.len(), &chars_of("\\appdata\\local\\temp\\")) || contains_lower_in(
        &v,
        0,
        v.len(),
        &chars_of("\\windows\\temp\\"),
    ) || contains_lower_in(&v, 0, v.len(), &chars_of("\\temp\\"))
}

pub open spec fn path_or_empty(p: ProcessModel) -> Seq<char> {
    match p.exe_path {
        Some(s) => s,
        None => seq![],
    }
}

pub open spec fn key_of(p: ProcessModel) -> Seq<char> {
    p.name + "|"@ + path_or_empty(p)
}

/// A stable identifier for a process, used for next-scan baseline diffing:
/// `name|exe_path`, deliberately *not* including the PID (PIDs are reused
/// constantly and would make every process look "new" every scan).
pub fn raw_key(p: &ProcessInfo) -> (k: String)
    ensures
        k@ == key_of(p.deep_view()),
{
    let mut k = concat2(p.name.as_str(), "|");
    match &p.exe_path {
        Some(s) => push_str(&mut k, s.as_str()),
        None => {},
    }
    k
}

pub open spec fn pid_label(p: ProcessModel) -> Seq<char> {
    p.name + " (PID "@ + decimal(p.pid as nat) + ")"@
}

/// What one process contributes: nothing for an allowlisted name. One
/// running from Temp gives a finding, at `AtRisk` when its name also looks
/// random or it is new since the last scan (`prev` is `None` on the first
/// scan), at `Caution` otherwise. One elsewhere with a random-looking name
/// gives a `Caution` finding; any other gives nothing.
pub open spec fn process_eval(p: ProcessModel, prev: Option<Seq<Seq<char>>>) -> Option<(Severity, FindingModel)> {
    let path = path_or_empty(p);
    let temp = path.len() > 0 && temp_path(path);
    let random = random_looking(p.name);
    let is_new = match prev {
        Some(keys) => !keys.contains(key_of(p)),
        None => false,
    };
    if baseline_allowlist().contains(lower_seq(p.name)) {
        None
    } else if !temp {
        if random {
            Some((Severity::Caution, finding(pid_label(p), "Has a random-looking name: "@ + path)))
        } else {
            None
        }
    } else if random {
        Some(
            (
                Severity::AtRisk,
                finding(
                    pid_label(p) + if is_new { " - new since last scan"@ } else { seq![] },
                    "Runs from a Temp directory with a random-looking name: "@ + path,
                ),
            ),
        )
    } else if is_new {
        Some(
            (
                Severity::AtRisk,
                finding(pid_label(p) + " - new since last scan"@, "Newly appeared, running from a Temp directory: "@ + path),
            ),
        )
    } else {
        Some((Severity::Caution, finding(pid_label(p), "Runs from a Temp directory: "@ + path)))
    }
}

pub open spec fn baseline_fold(ps: Seq<ProcessModel>, prev: Option<Seq<Seq<char>>>) -> (Severity, Seq<FindingModel>)
    decreases ps.len(),
{
    if ps.len() == 0 {
        (Severity::Okay, seq![])
    } else {
        let r = baseline_fold(ps.drop_last(), prev);
        match process_eval(ps.last(), prev) {
            None => r,
            Some((sev, f)) => (max_severity(r.0, sev), r.1.push(f)),
        }
    }
}

pub open spec fn baseline_spec(ps: Seq<ProcessModel>, prev: Option<Seq<Seq<char>>>) -> (Severity, Seq<FindingModel>) {
    let (sev, f) = baseline_fold(ps, prev);
    let f1 = f.push(finding("Processes examined"@, decimal(ps.len())));
    if f.len() == 0 {
        (sev, seq![finding("Result"@, "No unfamiliar processes running from Temp locations"@)] + f1)
    } else {
        (sev, f1)
    }
}

/// `previous_keys` is `None` on the first-ever scan. When present, a
/// flagged process whose key wasn't running last scan is "new since last
/// scan," which escalates a Temp-path finding from `Caution` to `AtRisk`.
pub fn evaluate(processes: &Vec<ProcessInfo>, previous_keys: Option<&Vec<String>>) -> (r: (Severity, Vec<Finding>))
    ensures
        (r.0, r.1.deep_view()) == baseline_spec(
            processes.deep_view(),
            match previous_keys {
                Some(keys) => Some(texts(keys@)),
                None => None,
            },
        ),
{
    let ghost ps = processes.deep_view();
    let ghost prev = match previous_keys {
        Some(keys) => Some(texts(keys@)),
        None => None::<Seq<Seq<char>>>,
    };
    let allow = allowlist();
    let mut severity = Severity::Okay;
    let mut findings: Vec<Finding> = Vec::new();
    let mut k: usize = 0;
    while k < processes.len()
        invariant
            k <= processes@.len(),
            ps == processes.deep_view(),
            str_texts(allow@) == baseline_allowlist(),
            prev == match previous_keys {
                Some(keys) => Some(texts(keys@)),
                None => None::<Seq<Seq<char>>>,
            },
            (severity, findings.deep_view()) == baseline_fold(ps.take(k as int), prev),
        decreases processes@.len() - k,
    {
        assert(ps.take(k + 1).drop_last() =~= ps.take(k as int));
        assert(ps.take(k + 1).last() == ps[k as int]);
        let p = &processes[k];
        let ghost pm = ps[k as int];
        let ghost before = findings.deep_view();
        let nv = chars_of(p.name.as_str());
        assert(nv@.subrange(0, nv@.len() as int) =~= nv@);
        let lower_name = string_of_all(&lower_in(&nv, 0, nv.len()));
        let path: &str = match &p.exe_path {
            Some(s) => s.as_str(),
            None => "",
        };
        proof {
            reveal_strlit("");
        }
        let allowed = in_list(&allow, lower_name.as_str());
        if !allowed {
            let temp = chars_of(path).len() > 0 && is_temp_path(path);
            let random_name = has_random_looking_name(p.name.as_str());
            let is_new = match previous_keys {
                Some(prev_keys) => !has_string(prev_keys, raw_key(p).as_str()),
                None => false,
            };
            if temp && random_name {
                severity = Severity::AtRisk;
                let mut label = concat2(p.name.as_str(), " (PID ");
                push_str(&mut label, decimal_string(p.pid as u64).as_str());
                push_str(&mut label, ")");
                if is_new {
                    push_str(&mut label, " - new since last scan");
                }
                findings.push(Finding::of(label, concat2("Runs from a Temp directory with a random-looking name: ", path)));
            } else if temp {
                let mut label = concat2(p.name.as_str(), " (PID ");
                push_str(&mut label, decimal_string(p.pid as u64).as_str());
                push_str(&mut label, ")");
                if is_new {
                    severity = Severity::AtRisk;
                    push_str(&mut label, " - new since last scan");
                    findings.push(Finding::of(label, concat2("Newly appeared, running from a Temp directory: ", path)));
                } else {
                    severity = severity.max(Severity::Caution);
                    findings.push(Finding::of(label, concat2("Runs from a Temp directory: ", path)));
                }
            } else if random_name {
                let mut label = concat2(p.name.as_str(), " (PID ");
                push_str(&mut label, decimal_string(p.pid as u64).as_str());
                push_str(&mut label, ")");
                severity = severity.max(Severity::Caution);
                findings.push(Finding::of(label, concat2("Has a random-looking name: ", path)));
            }
        }
        assert(findings.deep_view() =~= match process_eval(pm, prev) {
            None => before,
            Some((_, f)) => before.push(f),
        });
        k = k + 1;
    }
    assert(ps.take(k as int) =~= ps);
    let flagged = findings.len();
    findings.push(Finding::of(String::from_str("Processes examined"), count_string(processes.len())));
    if flagged == 0 {
        let ghost f1 = findings.deep_view();
        findings.insert(0, Finding::new("Result", "No unfamiliar processes running from Temp locations"));
        assert(findings.deep_view() =~= seq![
            finding("Result"@, "No unfamiliar processes running from Temp locations"@)
        ] + f1);
    }
    (severity, findings)
}

proof fn lemma_fold_known(ps: Seq<ProcessModel>, keys: Seq<Seq<char>>)
    requires
        forall|i: int| 0 <= i < ps.len() ==> keys.contains(#[trigger] key_of(ps[i])),
    ensures
        baseline_fold(ps, Some(keys)) == baseline_fold(ps, None),
    decreases ps.len(),
{
    if ps.len() > 0 {
        assert forall|i: int| 0 <= i < ps.drop_last().len() implies keys.contains(
            #[trigger] key_of(ps.drop_last()[i]),
        ) by {
            assert(ps.drop_last()[i] == ps[i]);
            assert(keys.contains(key_of(ps[i])));
        }
        lemma_fold_known(ps.drop_last(), keys);
        assert(keys.contains(key_of(ps[ps.len() - 1])));
        assert(process_eval(ps.last(), Some(keys)) == process_eval(ps.last(), None));
    }
}

/// When every running process was already running at the previous scan,
/// the result is the same as on a first-ever scan (no previous keys).
pub proof fn law_known_processes_as_first_scan(ps: Seq<ProcessModel>, keys: Seq<Seq<char>>)
    requires
        forall|i: int| 0 <= i < ps.len() ==> keys.contains(#[trigger] key_of(ps[i])),
    ensures
        baseline_spec(ps, Some(keys)) == baseline_spec(ps, None),
{
    lemma_fold_known(ps, keys);
}

/// A process running from Temp that was not running at the previous scan
/// is escalated from `Caution` (what the first-ever scan reports) to
/// `AtRisk`.
pub proof fn law_new_temp_process_escalates(p: ProcessModel, keys: Seq<Seq<char>>)
    requires
        !baseline_allowlist().contains(lower_seq(p.name)),
        path_or_empty(p).len() > 0,
        temp_path(path_or_empty(p)),
        !random_looking(p.name),
        !keys.contains(key_of(p)),
    ensures
        process_eval(p, None) matches Some((s, _)) && s == Severity::Caution,
        process_eval(p, Some(keys)) matches Some((s, _)) && s == Severity::AtRisk,
{
}

pub open spec fn baseline_verdict(s: Severity) -> Seq<char> {
    match s {
        Severity::Okay => "No unfamiliar processes running from suspicious locations."@,
        Severity::Caution => "Process(es) running from a Temp directory or with a random-looking name found."@,
        Severity::AtRisk => "New process(es) since the last scan running from Temp (some with randomly-named executables) found - review immediately."@,
    }
}

/// The result for the process table and the previous scan's keys of this
/// check; its raw keys are those of every process.
pub open spec fn baseline_result(
    ps: Seq<ProcessModel>,
    previous: Seq<(Seq<char>, Seq<Seq<char>>)>,
) -> CheckResultModel {
    let (sev, fs) = baseline_spec(ps, diff_base(previous, CheckKind::ProcessBaseline.spec_id()));
    result_model(
        CheckKind::ProcessBaseline,
        sev,
        baseline_verdict(sev),
        fs,
        if sev != Severity::Okay {
            Some("Identify each flagged process in Task Manager. If you don't recognize it or its install source, end the process and investigate/remove it."@)
        } else {
            None
        },
        DATA_SOURCE@,
        Seq::new(ps.len(), |i: int| key_of(ps[i])),
    )
}

/// An empty entry for this check among the previous scan's keys means
/// nothing to diff against: the result is the one of a first-ever scan.
pub proof fn law_empty_previous_entry_is_first_scan(
    ps: Seq<ProcessModel>,
    previous: Seq<(Seq<char>, Seq<Seq<char>>)>,
)
    requires
        lookup_last(previous, CheckKind::ProcessBaseline.spec_id()) == Some(Seq::<Seq<char>>::empty()),
    ensures
        baseline_result(ps, previous) == baseline_result(ps, Seq::empty()),
{
}

impl ProcessBaselineCheck {
    pub fn id(&self) -> (r: &'static str)
        ensures
            r@ == CheckKind::ProcessBaseline.spec_id(),
    {
        CheckKind::ProcessBaseline.id()
    }

    pub fn name(&self) -> (r: &'static str)
        ensures
            r@ == CheckKind::ProcessBaseline.spec_name(),
    {
        CheckKind::ProcessBaseline.name()
    }

    /// Evaluates the process table of the scan context against the keys the
    /// previous scan recorded for this check.
    pub fn run(&self, ctx: &ScanContext) -> (r: CheckResult)
        ensures
            r.deep_view() == baseline_result(ctx.processes.deep_view(), ctx.previous_raw_keys.deep_view()),
    {
        let previous_keys = ctx.previous_keys(CheckKind::ProcessBaseline.id());
        proof {
            match previous_keys {
                Some(keys) => crate::text::lemma_texts_deep_view(*keys),
                None => {},
            }
        }
        let (severity, findings) = evaluate(&ctx.processes, previous_keys);
        let verdict = match severity {
            Severity::Okay => String::from_str("No unfamiliar processes running from suspicious locations."),
            Severity::Caution => String::from_str("Process(es) running from a Temp directory or with a random-looking name found."),
            Severity::AtRisk => String::from_str(
                "New process(es) since the last scan running from Temp (some with randomly-named executables) found - review immediately.",
            ),
        };
        let remediation = if severity != Severity::Okay {
            Some(String::from_str("Identify each flagged process in Task Manager. If you don't recognize it or its install source, end the process and investigate/remove it."))
        } else {
            None
        };
        let ghost ps = ctx.processes.deep_view();
        let mut raw_keys: Vec<String> = Vec::new();
        let mut k: usize = 0;
        while k < ctx.processes.len()
            invariant
                k <= ctx.processes@.len(),
                ps == ctx.processes.deep_view(),
                raw_keys.deep_view() =~= Seq::new(k as nat, |i: int| key_of(ps[i])),
            decreases ctx.processes@.len() - k,
        {
            let key = raw_key(&ctx.processes[k]);
            assert(key@ == key_of(ps[k as int]));
            let ghost before = raw_keys.deep_view();
            raw_keys.push(key);
            assert(raw_keys.deep_view() =~= before.push(key_of(ps[k as int])));
            k = k + 1;
        }
        make_result(CheckKind::ProcessBaseline, severity, verdict, findings, remediation, DATA_SOURCE, raw_keys)
    }
}

} // verus!
