//! Credential / LSASS protection check.
//!
//! Data sources: `HKLM\SYSTEM\CurrentControlSet\Control\Lsa\RunAsPPL`
//! (LSASS protected-process-light; 1 or 2 = enabled), whose value is handed
//! in, and Credential Guard status via the same `Win32_DeviceGuard` CIM
//! query used by the memory integrity check (`SecurityServicesRunning`
//! containing service code `1` = Credential Guard).

use super::{
    finding, finding_with, make_result, result_model, ActionModel, CheckKind, CheckResult, CheckResultModel,
    Finding, FindingModel, RemediationAction, Severity,
};
use super::dns_gateway::str_result;
use super::memory_integrity::{contains_code, int_list, int_list_in};
use crate::text::{chars_of, eq_lower_in, find, find_char_in, line_ranges, lines, lower_seq, ranges_text, trim, trim_in, valid_ranges};
use vstd::prelude::*;

verus! {

pub open spec fn lsa_action() -> FindingModel {
    finding_with(
        "Fix this"@,
        "Open Core isolation settings to turn on Local Security Authority protection."@,
        ActionModel::DeepLink { uri: "ms-settings:windowsdefender-core-isolation"@, label: "Open Core isolation settings"@ },
    )
}

fn open_core_isolation_action() -> (f: Finding)
    ensures
        f.deep_view() == lsa_action(),
{
    Finding::with_action(
        "Fix this",
        "Open Core isolation settings to turn on Local Security Authority protection.",
        RemediationAction::DeepLink {
            uri: String::from_str("ms-settings:windowsdefender-core-isolation"),
            label: String::from_str("Open Core isolation settings"),
        },
    )
}

pub struct CredentialProtectionCheck;

pub const DATA_SOURCE: &'static str = "HKLM\\SYSTEM\\CurrentControlSet\\Control\\Lsa (RunAsPPL); PowerShell Get-CimInstance root\\Microsoft\\Windows\\DeviceGuard Win32_DeviceGuard";

/// The `SecurityServicesRunning`/`Configured` code for Credential Guard.
pub const CREDENTIAL_GUARD_SERVICE_CODE: u32 = 1;

#[derive(Debug, Clone, Copy, PartialEq, Eq, Structural)]
pub struct CredentialProtectionState {
    pub run_as_ppl: Option<u32>,
    pub credential_guard_running: bool,
}

impl Default for CredentialProtectionState {
    fn default() -> (r: CredentialProtectionState)
        ensures
            r.run_as_ppl is None,
            !r.credential_guard_running,
    {
        CredentialProtectionState { run_as_ppl: None, credential_guard_running: false }
    }
}

/// What one line says: for a `SecurityServicesRunning : {...}` line,
/// whether the list holds the Credential Guard code.
pub open spec fn cg_line(line: Seq<char>) -> Option<bool> {
    match find(line, seq![':']) {
        None => None,
        Some(idx) => if lower_seq(trim(line.subrange(0, idx))) == "securityservicesrunning"@ {
            Some(int_list(trim(line.subrange(idx + 1, line.len() as int))).contains(CREDENTIAL_GUARD_SERVICE_CODE))
        } else {
            None
        },
    }
}

/// The first `SecurityServicesRunning` line decides; without one, Credential
/// Guard is not running.
pub open spec fn cg_running(ls: Seq<Seq<char>>) -> bool
    decreases ls.len(),
{
    if ls.len() == 0 {
        false
    } else {
        match cg_line(ls[0]) {
            Some(b) => b,
            None => cg_running(ls.drop_first()),
        }
    }
}

/// Parses the same `SecurityServicesRunning : {...}` line format as the
/// memory integrity check, returning whether Credential Guard is running.
pub fn parse_credential_guard_running(output: &str) -> (b: bool)
    ensures
        b == cg_running(lines(output@)),
{
    let v = chars_of(output);
    let ls = line_ranges(&v);
    let p_run = chars_of("securityservicesrunning");
    let ghost all = lines(v@);
    let mut k: usize = 0;
    assert(all.subrange(0, all.len() as int) =~= all);
    while k < ls.len()
        invariant
            k <= ls@.len(),
            valid_ranges(v@, ls@),
            ranges_text(v@, ls@) == all,
            all == lines(v@),
            v@ == output@,
            p_run@ == "securityservicesrunning"@,
            cg_running(all) == cg_running(all.subrange(k as int, all.len() as int)),
        decreases ls@.len() - k,
    {
        let ghost rest = all.subrange(k as int, all.len() as int);
        assert(rest.drop_first() =~= all.subrange(k + 1, all.len() as int));
        assert(rest[0] == all[k as int]);
        let (a, b) = ls[k];
        let ghost raw = all[k as int];
        assert(raw == v@.subrange(a as int, b as int));
        match find_char_in(&v, a, b, ':') {
            Some(idx) => {
                assert(raw.subrange(0, idx - a) =~= v@.subrange(a as int, idx as int));
                assert(raw.subrange(idx - a + 1, raw.len() as int) =~= v@.subrange(idx + 1, b as int));
                let (ka, kb) = trim_in(&v, a, idx);
                if eq_lower_in(&v, ka, kb, &p_run) {
                    let (va, vb) = trim_in(&v, idx + 1, b);
                    let running = int_list_in(&v, va, vb);
                    return contains_code(&running, CREDENTIAL_GUARD_SERVICE_CODE);
                }
            },
            None => {},
        }
        k = k + 1;
    }
    false
}

pub open spec fn lsass_protected_spec(run_as_ppl: Option<u32>) -> bool {
    run_as_ppl == Some(1u32) || run_as_ppl == Some(2u32)
}

fn lsass_protected(run_as_ppl: Option<u32>) -> (b: bool)
    ensures
        b == lsass_protected_spec(run_as_ppl),
{
    match run_as_ppl {
        Some(n) => n == 1 || n == 2,
        None => false,
    }
}

pub open spec fn credential_spec(st: CredentialProtectionState) -> (Severity, Seq<FindingModel>, Seq<char>) {
    let lsa = lsass_protected_spec(st.run_as_ppl);
    let fs = seq![
        finding("LSASS protected-process-light (RunAsPPL)"@, if lsa { "Enabled"@ } else { "Disabled"@ }),
        finding("Credential Guard running"@, if st.credential_guard_running { "Yes"@ } else { "No"@ }),
    ];
    if lsa || st.credential_guard_running {
        (Severity::Okay, fs, "At least one credential protection mechanism (LSASS PPL or Credential Guard) is active."@)
    } else {
        (
            Severity::Caution,
            fs,
            "Neither LSASS protection (RunAsPPL) nor Credential Guard is active - stored credentials are more exposed to memory-scraping tools."@,
        )
    }
}

pub fn evaluate(state: &CredentialProtectionState) -> (r: (Severity, Vec<Finding>, String))
    ensures
        (r.0, r.1.deep_view(), r.2@) == credential_spec(*state),
{
    let lsa_protected = lsass_protected(state.run_as_ppl);
    let findings = vec![
        Finding::new("LSASS protected-process-light (RunAsPPL)", if lsa_protected { "Enabled" } else { "Disabled" }),
        Finding::new("Credential Guard running", if state.credential_guard_running { "Yes" } else { "No" }),
    ];
    assert(findings.deep_view() =~= credential_spec(*state).1);
    if lsa_protected || state.credential_guard_running {
        (
            Severity::Okay,
            findings,
            String::from_str("At least one credential protection mechanism (LSASS PPL or Credential Guard) is active."),
        )
    } else {
        (
            Severity::Caution,
            findings,
            String::from_str("Neither LSASS protection (RunAsPPL) nor Credential Guard is active - stored credentials are more exposed to memory-scraping tools."),
        )
    }
}

/// The result for the `RunAsPPL` registry value (when it could be read) and
/// the output of the `Win32_DeviceGuard` query (an error counts as
/// Credential Guard not running).
pub open spec fn credential_result(run_as_ppl: Option<u32>, cim: Result<Seq<char>, Seq<char>>) -> CheckResultModel {
    let running = match cim {
        Ok(o) => cg_running(lines(o)),
        Err(_) => false,
    };
    let (sev, fs, verdict) = credential_spec(CredentialProtectionState { run_as_ppl, credential_guard_running: running });
    if sev != Severity::Okay {
        result_model(
            CheckKind::CredentialProtection,
            sev,
            verdict,
            fs.push(lsa_action()),
            Some("Open Windows Security > Device security > Core isolation and turn on Local Security Authority protection (or enable Credential Guard via Group Policy on supported editions)."@),
            DATA_SOURCE@,
            seq![],
        )
    } else {
        result_model(CheckKind::CredentialProtection, sev, verdict, fs, None, DATA_SOURCE@, seq![])
    }
}

impl CredentialProtectionCheck {
    pub fn id(&self) -> (r: &'static str)
        ensures
            r@ == CheckKind::CredentialProtection.spec_id(),
    {
        CheckKind::CredentialProtection.id()
    }

    pub fn name(&self) -> (r: &'static str)
        ensures
            r@ == CheckKind::CredentialProtection.spec_name(),
    {
        CheckKind::CredentialProtection.name()
    }

    /// Evaluates the `RunAsPPL` registry value and the output of the
    /// `Win32_DeviceGuard` query.
    pub fn run(&self, run_as_ppl: Option<u32>, cim_output: Result<String, String>) -> (r: CheckResult)
        ensures
            r.deep_view() == credential_result(run_as_ppl, str_result(cim_output)),
    {
        let credential_guard_running = match cim_output {
            Ok(output) => parse_credential_guard_running(output.as_str()),
            Err(_) => false,
        };
        let state = CredentialProtectionState { run_as_ppl, credential_guard_running };
        let (severity, findings, verdict) = evaluate(&state);
        let ghost ev = credential_spec(state);
        let mut findings = findings;
        let remediation = if severity != Severity::Okay {
            findings.push(open_core_isolation_action());
            assert(findings.deep_view() =~= ev.1.push(lsa_action()));
            Some(String::from_str("Open Windows Security > Device security > Core isolation and turn on Local Security Authority protection (or enable Credential Guard via Group Policy on supported editions)."))
        } else {
            None
        };
        let raw_keys: Vec<String> = Vec::new();
        assert(raw_keys.deep_view() =~= seq![]);
        make_result(CheckKind::CredentialProtection, severity, verdict, findings, remediation, DATA_SOURCE, raw_keys)
    }
}

} // verus!
