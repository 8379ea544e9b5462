//! Memory integrity (HVCI) / exploit protection posture check.
//!
//! Data source: `Get-CimInstance -Namespace root\Microsoft\Windows\DeviceGuard
//! -ClassName Win32_DeviceGuard`, read via PowerShell. `SecurityServicesRunning`
//! / `SecurityServicesConfigured` are arrays of small integer codes; `2` is
//! Hypervisor-protected Code Integrity (memory integrity / HVCI).

use super::{
    finding, finding_with, make_result, result_model, ActionModel, CheckKind, CheckResult, CheckResultModel,
    Finding, FindingModel, RemediationAction, Severity,
};
use super::dns_gateway::str_result;
use crate::text::{
    chars_of, collect, decimal, decimal_string, eq_lower_in, find, find_char_in, join, join_strings,
    line_ranges, lines, lower_seq, parse_uint, parse_uint_in, push_str, ranges_text, split, split_in,
    strip_chars_in, strip_end_char, strip_start_char, texts, trim, trim_in, valid_ranges,
};
use vstd::prelude::*;

verus! {

pub open spec fn core_isolation_action() -> FindingModel {
    finding_with(
        "Fix this"@,
        "Open Core isolation settings to turn on Memory integrity (requires a restart)."@,
        ActionModel::DeepLink { uri: "ms-settings:windowsdefender-core-isolation"@, label: "Open Core isolation settings"@ },
    )
}

fn open_core_isolation_action() -> (f: Finding)
    ensures
        f.deep_view() == core_isolation_action(),
{
    Finding::with_action(
        "Fix this",
        "Open Core isolation settings to turn on Memory integrity (requires a restart).",
        RemediationAction::DeepLink {
            uri: String::from_str("ms-settings:windowsdefender-core-isolation"),
            label: String::from_str("Open Core isolation settings"),
        },
    )
}

pub struct MemoryIntegrityCheck;

pub const DATA_SOURCE: &'static str = "PowerShell Get-CimInstance root\\Microsoft\\Windows\\DeviceGuard Win32_DeviceGuard";

/// The `SecurityServicesRunning`/`Configured` code for Hypervisor-protected
/// Code Integrity (memory integrity).
pub const HVCI_SERVICE_CODE: u32 = 2;

pub struct DeviceGuardModel {
    pub configured: Seq<u32>,
    pub running: Seq<u32>,
}

#[derive(Debug, Clone, PartialEq, Eq)]
pub struct DeviceGuardState {
    pub configured: Vec<u32>,
    pub running: Vec<u32>,
}

impl DeepView for DeviceGuardState {
    type V = DeviceGuardModel;

    open spec fn deep_view(&self) -> DeviceGuardModel {
        DeviceGuardModel { configured: self.configured@, running: self.running@ }
    }
}

impl Default for DeviceGuardState {
    fn default() -> (r: DeviceGuardState)
        ensures
            r.configured@ == Seq::<u32>::empty(),
            r.running@ == Seq::<u32>::empty(),
    {
        DeviceGuardState { configured: Vec::new(), running: Vec::new() }
    }
}

/// One comma-separated piece of an array, when it is a `u32`.
pub open spec fn int_piece(p: Seq<char>) -> Option<u32> {
    match parse_uint(trim(p), 4294967295) {
        Some(n) => Some(n as u32),
        None => None,
    }
}

/// The `u32` values of `{1, 2}`-style text (braces stripped, split at `,`,
/// pieces that are not numbers skipped).
pub open spec fn int_list(s: Seq<char>) -> Seq<u32> {
    collect(split(strip_end_char(strip_start_char(s, '{'), '}'), seq![',']), |p: Seq<char>| int_piece(p))
}

/// A PowerShell array rendered by `Format-List`, e.g. `{1, 2}`, a bare
/// `2`, or an empty `{}`.
pub open spec fn int_array(s: Seq<char>) -> Seq<u32> {
    int_list(trim(s))
}

/// The numbers in `v[lo..hi)` read as `int_list`.
pub fn int_list_in(v: &Vec<char>, lo: usize, hi: usize) -> (r: Vec<u32>)
    requires
        lo <= hi <= v.len(),
    ensures
        r@ == int_list(v@.subrange(lo as int, hi as int)),
{
    let (a, b) = strip_chars_in(v, lo, hi, '{', '}');
    let comma = vec![','];
    assert(comma@ =~= seq![',']);
    let parts = split_in(v, a, b, &comma);
    let ghost ps = split(v@.subrange(a as int, b as int), seq![',']);
    let mut r: Vec<u32> = Vec::new();
    let mut k: usize = 0;
    while k < parts.len()
        invariant
            k <= parts@.len(),
            valid_ranges(v@, parts@),
            ranges_text(v@, parts@) == ps,
            r@ == collect(ps.take(k as int), |p: Seq<char>| int_piece(p)),
        decreases parts@.len() - k,
    {
        assert(ps.take(k + 1).drop_last() =~= ps.take(k as int));
        let (pa, pb) = parts[k];
        assert(ps.take(k + 1).last() == v@.subrange(pa as int, pb as int));
        let (ta, tb) = trim_in(v, pa, pb);
        let ghost before = r@;
        match parse_uint_in(v, ta, tb, 4294967295) {
            Some(n) => {
                r.push(n as u32);
                assert(r@ =~= before + seq![n as u32]);
            },
            None => {
                assert(r@ =~= before + seq![]);
            },
        }
        k = k + 1;
    }
    assert(ps.take(k as int) =~= ps);
    r
}

/// Parses a PowerShell array rendered by `Format-List`.
pub fn parse_int_array(value: &str) -> (r: Vec<u32>)
    ensures
        r@ == int_array(value@),
{
    let v = chars_of(value);
    assert(v@.subrange(0, v@.len() as int) =~= v@);
    let (a, b) = trim_in(&v, 0, v.len());
    int_list_in(&v, a, b)
}

/// One `key : value` line; a later value replaces an earlier one.
pub open spec fn dg_step(st: DeviceGuardModel, line: Seq<char>) -> DeviceGuardModel {
    match find(line, seq![':']) {
        None => st,
        Some(idx) => {
            let key = lower_seq(trim(line.subrange(0, idx)));
            let value = trim(line.subrange(idx + 1, line.len() as int));
            if key == "securityservicesconfigured"@ {
                DeviceGuardModel { configured: int_array(value), running: st.running }
            } else if key == "securityservicesrunning"@ {
                DeviceGuardModel { configured: st.configured, running: int_array(value) }
            } else {
                st
            }
        },
    }
}

pub open spec fn dg_fold(ls: Seq<Seq<char>>) -> DeviceGuardModel
    decreases ls.len(),
{
    if ls.len() == 0 {
        DeviceGuardModel { configured: seq![], running: seq![] }
    } else {
        dg_step(dg_fold(ls.drop_last()), ls.last())
    }
}

pub open spec fn parse_device_guard_spec(output: Seq<char>) -> DeviceGuardModel {
    dg_fold(lines(output))
}

pub fn parse_device_guard_status(output: &str) -> (state: DeviceGuardState)
    ensures
        state.deep_view() == parse_device_guard_spec(output@),
{
    let v = chars_of(output);
    let ls = line_ranges(&v);
    let p_conf = chars_of("securityservicesconfigured");
    let p_run = chars_of("securityservicesrunning");
    let mut state = DeviceGuardState::default();
    let mut k: usize = 0;
    assert(state.deep_view() == dg_fold(lines(v@).take(0)));
    while k < ls.len()
        invariant
            k <= ls@.len(),
            valid_ranges(v@, ls@),
            ranges_text(v@, ls@) == lines(v@),
            v@ == output@,
            p_conf@ == "securityservicesconfigured"@,
            p_run@ == "securityservicesrunning"@,
            state.deep_view() == dg_fold(lines(v@).take(k as int)),
        decreases ls@.len() - k,
    {
        let ghost raw = lines(v@)[k as int];
        assert(lines(v@).take(k + 1).drop_last() =~= lines(v@).take(k as int));
        assert(lines(v@).take(k + 1).last() == raw);
        let (a, b) = ls[k];
        assert(raw == v@.subrange(a as int, b as int));
        match find_char_in(&v, a, b, ':') {
            Some(idx) => {
                assert(raw.subrange(0, idx - a) =~= v@.subrange(a as int, idx as int));
                assert(raw.subrange(idx - a + 1, raw.len() as int) =~= v@.subrange(idx + 1, b as int));
                let (ka, kb) = trim_in(&v, a, idx);
                let (va, vb) = trim_in(&v, idx + 1, b);
                if eq_lower_in(&v, ka, kb, &p_conf) {
                    let (ta, tb) = trim_in(&v, va, vb);
                    state.configured = int_list_in(&v, ta, tb);
                } else if eq_lower_in(&v, ka, kb, &p_run) {
                    let (ta, tb) = trim_in(&v, va, vb);
                    state.running = int_list_in(&v, ta, tb);
                }
            },
            None => {},
        }
        k = k + 1;
    }
    assert(lines(v@).take(k as int) =~= lines(v@));
    state
}

/// `{:?}` of a list of numbers: `[1, 2]`.
pub open spec fn debug_list(s: Seq<u32>) -> Seq<char> {
    "["@ + join(Seq::new(s.len(), |i: int| decimal(s[i] as nat)), ", "@) + "]"@
}

pub fn debug_list_string(s: &Vec<u32>) -> (r: String)
    ensures
        r@ == debug_list(s@),
{
    let mut parts: Vec<String> = Vec::new();
    let mut k: usize = 0;
    while k < s.len()
        invariant
            k <= s@.len(),
            texts(parts@) =~= Seq::new(k as nat, |i: int| decimal(s@[i] as nat)),
        decreases s@.len() - k,
    {
        let d = decimal_string(s[k] as u64);
        assert(d@ == decimal(s@[k as int] as nat));
        let ghost before = texts(parts@);
        parts.push(d);
        assert(texts(parts@) =~= before.push(decimal(s@[k as int] as nat)));
        k = k + 1;
    }
    let mut r = String::from_str("[");
    push_str(&mut r, join_strings(&parts, ", ").as_str());
    push_str(&mut r, "]");
    r
}

pub open spec fn mi_spec(st: DeviceGuardModel) -> (Severity, Seq<FindingModel>, Seq<char>) {
    let fs = seq![
        finding("Security services configured"@, debug_list(st.configured)),
        finding("Security services running"@, debug_list(st.running)),
    ];
    if st.running.contains(HVCI_SERVICE_CODE) {
        (Severity::Okay, fs, "Memory integrity (HVCI) is enabled and running."@)
    } else if st.configured.contains(HVCI_SERVICE_CODE) {
        (Severity::Caution, fs, "Memory integrity (HVCI) is configured but not currently running."@)
    } else {
        (Severity::Caution, fs, "Memory integrity (HVCI) is not enabled on this device."@)
    }
}

pub fn contains_code(v: &Vec<u32>, code: u32) -> (b: bool)
    ensures
        b == v@.contains(code),
{
    let mut k: usize = 0;
    while k < v.len()
        invariant
            k <= v@.len(),
            forall|i: int| 0 <= i < k ==> v@[i] != code,
        decreases v@.len() - k,
    {
        if v[k] == code {
            return true;
        }
        k = k + 1;
    }
    false
}

pub fn evaluate(state: &DeviceGuardState) -> (r: (Severity, Vec<Finding>, String))
    ensures
        (r.0, r.1.deep_view(), r.2@) == mi_spec(state.deep_view()),
{
    let findings = vec![
        Finding::of(String::from_str("Security services configured"), debug_list_string(&state.configured)),
        Finding::of(String::from_str("Security services running"), debug_list_string(&state.running)),
    ];
    assert(findings.deep_view() =~= mi_spec(state.deep_view()).1);
    if contains_code(&state.running, HVCI_SERVICE_CODE) {
        (Severity::Okay, findings, String::from_str("Memory integrity (HVCI) is enabled and running."))
    } else if contains_code(&state.configured, HVCI_SERVICE_CODE) {
        (Severity::Caution, findings, String::from_str("Memory integrity (HVCI) is configured but not currently running."))
    } else {
        (Severity::Caution, findings, String::from_str("Memory integrity (HVCI) is not enabled on this device."))
    }
}

pub open spec fn mi_result(out: Result<Seq<char>, Seq<char>>) -> CheckResultModel {
    match out {
        Ok(o) => {
            let (sev, fs, verdict) = mi_spec(parse_device_guard_spec(o));
            if sev != Severity::Okay {
                result_model(
                    CheckKind::MemoryIntegrity,
                    sev,
                    verdict,
                    fs.push(core_isolation_action()),
                    Some("Open Windows Security > Device security > Core isolation and turn on Memory integrity. A restart is required."@),
                    DATA_SOURCE@,
                    seq![],
                )
            } else {
                result_model(CheckKind::MemoryIntegrity, sev, verdict, fs, None, DATA_SOURCE@, seq![])
            }
        },
        Err(e) => result_model(
            CheckKind::MemoryIntegrity,
            Severity::Caution,
            "Could not query memory integrity status."@,
            seq![finding("PowerShell error"@, e)],
            Some("Ensure PowerShell is available and try again."@),
            DATA_SOURCE@,
            seq![],
        ),
    }
}

/// The result is `Okay` exactly when memory integrity is running; it is
/// never `AtRisk`.
pub proof fn law_memory_integrity_ok_iff_running(st: DeviceGuardModel)
    ensures
        mi_spec(st).0 == Severity::Okay <==> st.running.contains(HVCI_SERVICE_CODE),
        mi_spec(st).0 != Severity::AtRisk,
{
}

impl MemoryIntegrityCheck {
    pub fn id(&self) -> (r: &'static str)
        ensures
            r@ == CheckKind::MemoryIntegrity.spec_id(),
    {
        CheckKind::MemoryIntegrity.id()
    }

    pub fn name(&self) -> (r: &'static str)
        ensures
            r@ == CheckKind::MemoryIntegrity.spec_name(),
    {
        CheckKind::MemoryIntegrity.name()
    }

    /// Evaluates the output of the `Win32_DeviceGuard` query (or the error
    /// running it).
    pub fn run(&self, output: Result<String, String>) -> (r: CheckResult)
        ensures
            r.deep_view() == mi_result(str_result(output)),
    {
        let raw_keys: Vec<String> = Vec::new();
        assert(raw_keys.deep_view() =~= seq![]);
        let ghost res = str_result(output);
        match output {
            Ok(out) => {
                let state = parse_device_guard_status(out.as_str());
                let (severity, findings, verdict) = evaluate(&state);
                let ghost ev = mi_spec(state.deep_view());
                let mut findings = findings;
                let remediation = if severity != Severity::Okay {
                    findings.push(open_core_isolation_action());
                    assert(findings.deep_view() =~= ev.1.push(core_isolation_action()));
                    Some(String::from_str("Open Windows Security > Device security > Core isolation and turn on Memory integrity. A restart is required."))
                } else {
                    None
                };
                assert(res == Ok::<Seq<char>, Seq<char>>(out@));
                make_result(CheckKind::MemoryIntegrity, severity, verdict, findings, remediation, DATA_SOURCE, raw_keys)
            },
            Err(e) => {
                let ghost em = e@;
                let findings = vec![Finding::of(String::from_str("PowerShell error"), e)];
                assert(findings.deep_view() =~= seq![finding("PowerShell error"@, em)]);
                make_result(
                    CheckKind::MemoryIntegrity,
                    Severity::Caution,
                    String::from_str("Could not query memory integrity status."),
                    findings,
                    Some(String::from_str("Ensure PowerShell is available and try again.")),
                    DATA_SOURCE,
                    raw_keys,
                )
            },
        }
    }
}

} // verus!
