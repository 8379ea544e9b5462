//! Windows Defender real-time protection status check.
//!
//! Data source: PowerShell `Get-MpComputerStatus` (a read-only status
//! query - this is not a virus scan, and does not download/execute any
//! definitions).

use super::{
    finding, finding_with, make_result, result_model, ActionModel, CheckKind, CheckResult, CheckResultModel,
    Finding, FindingModel, RemediationAction, Severity,
};
use super::dns_gateway::str_result;
use crate::text::{
    chars_of, eq_lower_in, find, find_char_in, line_ranges, lines, lower_seq, ranges_text, trim, trim_in,
    valid_ranges,
};
use vstd::prelude::*;

verus! {

pub open spec fn defender_action() -> FindingModel {
    finding_with(
        "Fix this"@,
        "Open Windows Security to review or re-enable real-time protection."@,
        ActionModel::DeepLink { uri: "windowsdefender:"@, label: "Open Windows Security"@ },
    )
}

fn open_defender_action() -> (f: Finding)
    ensures
        f.deep_view() == defender_action(),
{
    Finding::with_action(
        "Fix this",
        "Open Windows Security to review or re-enable real-time protection.",
        RemediationAction::DeepLink {
            uri: String::from_str("windowsdefender:"),
            label: String::from_str("Open Windows Security"),
        },
    )
}

pub struct DefenderStatusCheck;

pub const DATA_SOURCE: &'static str = "PowerShell Get-MpComputerStatus";

#[derive(Debug, Clone, Copy, PartialEq, Eq, Structural)]
pub struct DefenderState {
    pub real_time_protection: Option<bool>,
    pub antivirus_enabled: Option<bool>,
}

impl Default for DefenderState {
    fn default() -> (r: DefenderState)
        ensures
            r.real_time_protection is None,
            r.antivirus_enabled is None,
    {
        DefenderState { real_time_protection: None, antivirus_enabled: None }
    }
}

/// `true` / `false` in any case, surrounding white space ignored.
pub open spec fn bool_value(value: Seq<char>) -> Option<bool> {
    let l = lower_seq(trim(value));
    if l == "true"@ {
        Some(true)
    } else if l == "false"@ {
        Some(false)
    } else {
        None
    }
}

fn parse_bool_in(v: &Vec<char>, lo: usize, hi: usize) -> (r: Option<bool>)
    requires
        lo <= hi <= v.len(),
    ensures
        r == bool_value(v@.subrange(lo as int, hi as int)),
{
    let (a, b) = trim_in(v, lo, hi);
    if eq_lower_in(v, a, b, &chars_of("true")) {
        Some(true)
    } else if eq_lower_in(v, a, b, &chars_of("false")) {
        Some(false)
    } else {
        None
    }
}

/// One `Key : Value` line; a later value replaces an earlier one (also
/// with `None` when it is not a boolean).
pub open spec fn defender_step(st: DefenderState, line: Seq<char>) -> DefenderState {
    match find(line, seq![':']) {
        None => st,
        Some(idx) => {
            let key = lower_seq(trim(line.subrange(0, idx)));
            let value = trim(line.subrange(idx + 1, line.len() as int));
            if key == "realtimeprotectionenabled"@ {
                DefenderState { real_time_protection: bool_value(value), antivirus_enabled: st.antivirus_enabled }
            } else if key == "antivirusenabled"@ {
                DefenderState { real_time_protection: st.real_time_protection, antivirus_enabled: bool_value(value) }
            } else {
                st
            }
        },
    }
}

pub open spec fn defender_fold(ls: Seq<Seq<char>>) -> DefenderState
    decreases ls.len(),
{
    if ls.len() == 0 {
        DefenderState { real_time_protection: None, antivirus_enabled: None }
    } else {
        defender_step(defender_fold(ls.drop_last()), ls.last())
    }
}

pub open spec fn parse_defender_spec(output: Seq<char>) -> DefenderState {
    defender_fold(lines(output))
}

/// Parses the `Key : Value` lines PowerShell's default list formatter
/// produces for a single-object `Format-List` output.
pub fn parse_defender_status(output: &str) -> (state: DefenderState)
    ensures
        state == parse_defender_spec(output@),
{
    let v = chars_of(output);
    let ls = line_ranges(&v);
    let p_rtp = chars_of("realtimeprotectionenabled");
    let p_av = chars_of("antivirusenabled");
    let mut state = DefenderState::default();
    let mut k: usize = 0;
    while k < ls.len()
        invariant
            k <= ls@.len(),
            valid_ranges(v@, ls@),
            ranges_text(v@, ls@) == lines(v@),
            v@ == output@,
            p_rtp@ == "realtimeprotectionenabled"@,
            p_av@ == "antivirusenabled"@,
            state == defender_fold(lines(v@).take(k as int)),
        decreases ls@.len() - k,
    {
        let ghost raw = lines(v@)[k as int];
        assert(lines(v@).take(k + 1).drop_last() =~= lines(v@).take(k as int));
        assert(lines(v@).take(k + 1).last() == raw);
        let (a, b) = ls[k];
        assert(raw == v@.subrange(a as int, b as int));
        match find_char_in(&v, a, b, ':') {
            Some(idx) => {
                assert(raw.subrange(0, idx - a) =~= v@.subrange(a as int, idx as int));
                assert(raw.subrange(idx - a + 1, raw.len() as int) =~= v@.subrange(idx + 1, b as int));
                let (ka, kb) = trim_in(&v, a, idx);
                let (va, vb) = trim_in(&v, idx + 1, b);
                if eq_lower_in(&v, ka, kb, &p_rtp) {
                    state.real_time_protection = parse_bool_in(&v, va, vb);
                } else if eq_lower_in(&v, ka, kb, &p_av) {
                    state.antivirus_enabled = parse_bool_in(&v, va, vb);
                }
            },
            None => {},
        }
        k = k + 1;
    }
    assert(lines(v@).take(k as int) =~= lines(v@));
    state
}

pub open spec fn on_off(b: bool) -> Seq<char> {
    if b {
        "Enabled"@
    } else {
        "Disabled"@
    }
}

pub open spec fn defender_spec(st: DefenderState) -> (Severity, Seq<FindingModel>, Seq<char>) {
    let f1: Seq<FindingModel> = match st.real_time_protection {
        Some(rtp) => seq![finding("Real-time protection"@, on_off(rtp))],
        None => seq![],
    };
    let f2: Seq<FindingModel> = match st.antivirus_enabled {
        Some(av) => seq![finding("Antivirus enabled"@, on_off(av))],
        None => seq![],
    };
    let fs = f1 + f2;
    match st.real_time_protection {
        Some(true) => (Severity::Okay, fs, "Real-time protection is enabled."@),
        Some(false) => (Severity::AtRisk, fs, "Real-time protection is turned off."@),
        None => (
            Severity::Caution,
            fs.push(finding("Note"@, "Could not determine status - a third-party antivirus may be managing protection instead of Defender."@)),
            "Could not determine Defender real-time protection status."@,
        ),
    }
}

fn on_off_str(b: bool) -> (s: &'static str)
    ensures
        s@ == on_off(b),
{
    if b {
        "Enabled"
    } else {
        "Disabled"
    }
}

pub fn evaluate(state: &DefenderState) -> (r: (Severity, Vec<Finding>, String))
    ensures
        (r.0, r.1.deep_view(), r.2@) == defender_spec(*state),
{
    let mut findings: Vec<Finding> = Vec::new();
    if let Some(rtp) = state.real_time_protection {
        findings.push(Finding::new("Real-time protection", on_off_str(rtp)));
    }
    if let Some(av) = state.antivirus_enabled {
        findings.push(Finding::new("Antivirus enabled", on_off_str(av)));
    }
    let ghost fs = findings.deep_view();
    match state.real_time_protection {
        Some(true) => (Severity::Okay, findings, String::from_str("Real-time protection is enabled.")),
        Some(false) => (Severity::AtRisk, findings, String::from_str("Real-time protection is turned off.")),
        None => {
            findings.push(
                Finding::new(
                    "Note",
                    "Could not determine status - a third-party antivirus may be managing protection instead of Defender.",
                ),
            );
            (
                Severity::Caution,
                findings,
                String::from_str("Could not determine Defender real-time protection status."),
            )
        },
    }
}

pub open spec fn defender_result(out: Result<Seq<char>, Seq<char>>) -> CheckResultModel {
    match out {
        Ok(o) => {
            let (sev, fs, verdict) = defender_spec(parse_defender_spec(o));
            if sev == Severity::AtRisk {
                result_model(
                    CheckKind::Defender,
                    sev,
                    verdict,
                    fs.push(defender_action()),
                    Some("Open Windows Security > Virus & threat protection and turn Real-time protection back on."@),
                    DATA_SOURCE@,
                    seq![],
                )
            } else if sev == Severity::Caution {
                result_model(
                    CheckKind::Defender,
                    sev,
                    verdict,
                    fs.push(defender_action()),
                    Some("If you use a different antivirus product, confirm it's active and up to date. Otherwise open Windows Security to check Defender's status directly."@),
                    DATA_SOURCE@,
                    seq![],
                )
            } else {
                result_model(CheckKind::Defender, sev, verdict, fs, None, DATA_SOURCE@, seq![])
            }
        },
        Err(e) => result_model(
            CheckKind::Defender,
            Severity::Caution,
            "Could not query Windows Defender status."@,
            seq![finding("PowerShell error"@, e)],
            Some("Ensure PowerShell is available and Windows Defender is installed."@),
            DATA_SOURCE@,
            seq![],
        ),
    }
}

/// An unknown real-time protection status is never reported as `Okay`:
/// the result is `Okay` exactly when real-time protection is reported on.
pub proof fn law_defender_ok_iff_real_time_on(st: DefenderState)
    ensures
        defender_spec(st).0 == Severity::Okay <==> st.real_time_protection == Some(true),
        st.real_time_protection is None ==> defender_spec(st).0 == Severity::Caution,
{
}

impl DefenderStatusCheck {
    pub fn id(&self) -> (r: &'static str)
        ensures
            r@ == CheckKind::Defender.spec_id(),
    {
        CheckKind::Defender.id()
    }

    pub fn name(&self) -> (r: &'static str)
        ensures
            r@ == CheckKind::Defender.spec_name(),
    {
        CheckKind::Defender.name()
    }

    /// Evaluates the output of `Get-MpComputerStatus` (or the error running
    /// it).
    pub fn run(&self, output: Result<String, String>) -> (r: CheckResult)
        ensures
            r.deep_view() == defender_result(str_result(output)),
    {
        let raw_keys: Vec<String> = Vec::new();
        assert(raw_keys.deep_view() =~= seq![]);
        let ghost res = str_result(output);
        match output {
            Ok(out) => {
                let state = parse_defender_status(out.as_str());
                let (severity, findings, verdict) = evaluate(&state);
                let ghost ev = defender_spec(state);
                let mut findings = findings;
                let remediation = if severity == Severity::AtRisk {
                    findings.push(open_defender_action());
                    assert(findings.deep_view() =~= ev.1.push(defender_action()));
                    Some(String::from_str("Open Windows Security > Virus & threat protection and turn Real-time protection back on."))
                } else if severity == Severity::Caution {
                    findings.push(open_defender_action());
                    assert(findings.deep_view() =~= ev.1.push(defender_action()));
                    Some(String::from_str("If you use a different antivirus product, confirm it's active and up to date. Otherwise open Windows Security to check Defender's status directly."))
                } else {
                    None
                };
                assert(res == Ok::<Seq<char>, Seq<char>>(out@));
                make_result(CheckKind::Defender, severity, verdict, findings, remediation, DATA_SOURCE, raw_keys)
            },
            Err(e) => {
                let ghost em = e@;
                let findings = vec![Finding::of(String::from_str("PowerShell error"), e)];
                assert(findings.deep_view() =~= seq![finding("PowerShell error"@, em)]);
                make_result(
                    CheckKind::Defender,
                    Severity::Caution,
                    String::from_str("Could not query Windows Defender status."),
                    findings,
                    Some(String::from_str("Ensure PowerShell is available and Windows Defender is installed.")),
                    DATA_SOURCE,
                    raw_keys,
                )
            },
        }
    }
}

} // verus!
