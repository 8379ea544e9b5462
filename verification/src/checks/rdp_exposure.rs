//! Remote Desktop (RDP) exposure check.
//!
//! Data sources: `HKLM\SYSTEM\CurrentControlSet\Control\Terminal Server`
//! (`fDenyTSConnections`, 0 = RDP enabled), `...\WinStations\RDP-Tcp`
//! (`UserAuthentication`, 1 = Network Level Authentication required), whose
//! values are handed in, and `netsh advfirewall firewall show rule
//! name=all` filtered to rules whose name contains "Remote Desktop".

use super::{
    finding, finding_with, make_result, result_model, ActionModel, CheckKind, CheckResult, CheckResultModel,
    Finding, FindingModel, RemediationAction, Severity,
};
use super::dns_gateway::str_result;
use crate::text::{
    chars_of, contains, contains_lower_in, eq_lower_in, line_ranges, lines, lower_seq, ranges_text, starts_with,
    starts_with_in, trim, trim_in, valid_ranges,
};
use vstd::prelude::*;

verus! {

pub open spec fn disable_rdp() -> ActionModel {
    ActionModel::DirectFix { action_id: "rdp_disable"@, label: "Disable Remote Desktop"@, params: seq![] }
}

fn disable_rdp_action() -> (a: RemediationAction)
    ensures
        a.deep_view() == disable_rdp(),
{
    let params: Vec<(String, String)> = Vec::new();
    assert(params.deep_view() =~= seq![]);
    RemediationAction::DirectFix {
        action_id: String::from_str("rdp_disable"),
        label: String::from_str("Disable Remote Desktop"),
        params,
    }
}

pub struct RdpExposureCheck;

pub const DATA_SOURCE: &'static str = "HKLM\\SYSTEM\\...\\Terminal Server (fDenyTSConnections, UserAuthentication); netsh advfirewall firewall show rule name=all";

#[derive(Debug, Clone, Copy, PartialEq, Eq, Structural)]
pub struct RdpState {
    /// `None` means the value couldn't be read (key/value missing).
    pub deny_connections: Option<u32>,
    pub nla_required: Option<u32>,
    pub firewall_rule_enabled: bool,
}

impl Default for RdpState {
    fn default() -> (r: RdpState)
        ensures
            r.deny_connections is None,
            r.nla_required is None,
            !r.firewall_rule_enabled,
    {
        RdpState { deny_connections: None, nla_required: None, firewall_rule_enabled: false }
    }
}

/// Scans the rule listing from its first line on, `in_rule` telling whether
/// the current rule's name mentions Remote Desktop: true at the first
/// `Enabled: Yes` line (in any case) inside such a rule.
pub open spec fn rdp_scan(ls: Seq<Seq<char>>, in_rule: bool) -> bool
    decreases ls.len(),
{
    if ls.len() == 0 {
        false
    } else {
        let line = trim(ls[0]);
        if starts_with(line, "Rule Name:"@) {
            rdp_scan(ls.drop_first(), contains(lower_seq(line.subrange(10, line.len() as int)), "remote desktop"@))
        } else if in_rule && starts_with(line, "Enabled:"@) && lower_seq(trim(line.subrange(8, line.len() as int)))
            == "yes"@ {
            true
        } else {
            rdp_scan(ls.drop_first(), in_rule)
        }
    }
}

/// Parses `netsh advfirewall firewall show rule name=all` output, returning
/// true if any rule whose name mentions Remote Desktop has `Enabled: Yes`.
pub fn parse_rdp_firewall_enabled(output: &str) -> (b: bool)
    ensures
        b == rdp_scan(lines(output@), false),
{
    let v = chars_of(output);
    let ls = line_ranges(&v);
    let p_rule = chars_of("Rule Name:");
    let p_enabled = chars_of("Enabled:");
    let p_rd = chars_of("remote desktop");
    let p_yes = chars_of("yes");
    proof {
        reveal_strlit("Rule Name:");
        reveal_strlit("Enabled:");
    }
    let ghost all = lines(v@);
    let mut in_rdp_rule = false;
    let mut k: usize = 0;
    assert(all.subrange(0, all.len() as int) =~= all);
    while k < ls.len()
        invariant
            k <= ls@.len(),
            valid_ranges(v@, ls@),
            ranges_text(v@, ls@) == all,
            all == lines(v@),
            v@ == output@,
            p_rule@ == "Rule Name:"@,
            p_rule@.len() == 10,
            p_enabled@ == "Enabled:"@,
            p_enabled@.len() == 8,
            p_rd@ == "remote desktop"@,
            p_yes@ == "yes"@,
            rdp_scan(all, false) == rdp_scan(all.subrange(k as int, all.len() as int), in_rdp_rule),
        decreases ls@.len() - k,
    {
        let ghost rest = all.subrange(k as int, all.len() as int);
        assert(rest.drop_first() =~= all.subrange(k + 1, all.len() as int));
        assert(rest[0] == all[k as int]);
        let (a, b) = ls[k];
        assert(all[k as int] == v@.subrange(a as int, b as int));
        let (ta, tb) = trim_in(&v, a, b);
        let ghost line = v@.subrange(ta as int, tb as int);
        if starts_with_in(&v, ta, tb, &p_rule) {
            assert(line.subrange(10, line.len() as int) =~= v@.subrange(ta + 10, tb as int));
            in_rdp_rule = contains_lower_in(&v, ta + 10, tb, &p_rd);
        } else if in_rdp_rule && starts_with_in(&v, ta, tb, &p_enabled) {
            assert(line.subrange(8, line.len() as int) =~= v@.subrange(ta + 8, tb as int));
            let (ea, eb) = trim_in(&v, ta + 8, tb);
            if eq_lower_in(&v, ea, eb, &p_yes) {
                return true;
            }
        }
        k = k + 1;
    }
    false
}

pub open spec fn yes_no(b: bool) -> Seq<char> {
    if b {
        "Yes"@
    } else {
        "No"@
    }
}

fn yes_no_str(b: bool) -> (s: &'static str)
    ensures
        s@ == yes_no(b),
{
    if b {
        "Yes"
    } else {
        "No"
    }
}

pub open spec fn rdp_spec(st: RdpState) -> (Severity, Seq<FindingModel>, Seq<char>) {
    let rdp_enabled = st.deny_connections == Some(0u32);
    let nla = st.nla_required == Some(1u32);
    let fs = seq![
        finding("RDP enabled"@, yes_no(rdp_enabled)),
        finding("Network Level Authentication required"@, yes_no(nla)),
        finding("Reachable via firewall"@, yes_no(st.firewall_rule_enabled)),
    ];
    if !rdp_enabled {
        (Severity::Okay, fs, "Remote Desktop is disabled."@)
    } else if !nla && st.firewall_rule_enabled {
        (
            Severity::AtRisk,
            fs.push(finding_with("Risk"@, "RDP is enabled, reachable through the firewall, and does not require Network Level Authentication."@, disable_rdp())),
            "Remote Desktop is enabled and reachable without Network Level Authentication."@,
        )
    } else if nla {
        (
            Severity::Caution,
            fs.push(finding_with("Turn off Remote Desktop"@, "RDP is enabled with NLA required. If you don't use it, disabling it removes the exposure entirely."@, disable_rdp())),
            "Remote Desktop is enabled with Network Level Authentication required."@,
        )
    } else {
        (
            Severity::Caution,
            fs.push(finding_with("Turn off Remote Desktop"@, "RDP is enabled without NLA. If you don't use it, disabling it removes the exposure entirely."@, disable_rdp())),
            "Remote Desktop is enabled without Network Level Authentication (not currently reachable via firewall)."@,
        )
    }
}

pub fn evaluate(state: &RdpState) -> (r: (Severity, Vec<Finding>, String))
    ensures
        (r.0, r.1.deep_view(), r.2@) == rdp_spec(*state),
{
    let rdp_enabled = match state.deny_connections {
        Some(n) => n == 0,
        None => false,
    };
    let nla_required = match state.nla_required {
        Some(n) => n == 1,
        None => false,
    };
    let mut findings = vec![
        Finding::new("RDP enabled", yes_no_str(rdp_enabled)),
        Finding::new("Network Level Authentication required", yes_no_str(nla_required)),
        Finding::new("Reachable via firewall", yes_no_str(state.firewall_rule_enabled)),
    ];
    let ghost fs = findings.deep_view();
    assert(fs =~= seq![
        finding("RDP enabled"@, yes_no(rdp_enabled)),
        finding("Network Level Authentication required"@, yes_no(nla_required)),
        finding("Reachable via firewall"@, yes_no(state.firewall_rule_enabled)),
    ]);
    if !rdp_enabled {
        return (Severity::Okay, findings, String::from_str("Remote Desktop is disabled."));
    }
    if !nla_required && state.firewall_rule_enabled {
        findings.push(
            Finding::with_action(
                "Risk",
                "RDP is enabled, reachable through the firewall, and does not require Network Level Authentication.",
                disable_rdp_action(),
            ),
        );
        return (
            Severity::AtRisk,
            findings,
            String::from_str("Remote Desktop is enabled and reachable without Network Level Authentication."),
        );
    }
    if nla_required {
        findings.push(
            Finding::with_action(
                "Turn off Remote Desktop",
                "RDP is enabled with NLA required. If you don't use it, disabling it removes the exposure entirely.",
                disable_rdp_action(),
            ),
        );
        return (
            Severity::Caution,
            findings,
            String::from_str("Remote Desktop is enabled with Network Level Authentication required."),
        );
    }
    findings.push(
        Finding::with_action(
            "Turn off Remote Desktop",
            "RDP is enabled without NLA. If you don't use it, disabling it removes the exposure entirely.",
            disable_rdp_action(),
        ),
    );
    (
        Severity::Caution,
        findings,
        String::from_str("Remote Desktop is enabled without Network Level Authentication (not currently reachable via firewall)."),
    )
}

pub open spec fn rdp_remediation(s: Severity) -> Option<Seq<char>> {
    match s {
        Severity::Okay => None,
        Severity::AtRisk => Some("Disable Remote Desktop if you don't need it (Settings > System > Remote Desktop), or require Network Level Authentication under System Properties > Remote."@),
        Severity::Caution => Some("If you don't use Remote Desktop, turn it off under Settings > System > Remote Desktop. If you do, make sure Network Level Authentication is required."@),
    }
}

/// The result for the two registry values (when they could be read) and the
/// output of the firewall rule listing (an error counts as no enabled rule).
pub open spec fn rdp_result(deny: Option<u32>, nla: Option<u32>, rules: Result<Seq<char>, Seq<char>>) -> CheckResultModel {
    let fw = match rules {
        Ok(o) => rdp_scan(lines(o), false),
        Err(_) => false,
    };
    let (sev, fs, verdict) = rdp_spec(RdpState { deny_connections: deny, nla_required: nla, firewall_rule_enabled: fw });
    result_model(CheckKind::RdpExposure, sev, verdict, fs, rdp_remediation(sev), DATA_SOURCE@, seq![])
}

impl RdpExposureCheck {
    pub fn id(&self) -> (r: &'static str)
        ensures
            r@ == CheckKind::RdpExposure.spec_id(),
    {
        CheckKind::RdpExposure.id()
    }

    pub fn name(&self) -> (r: &'static str)
        ensures
            r@ == CheckKind::RdpExposure.spec_name(),
    {
        CheckKind::RdpExposure.name()
    }

    /// Evaluates the `fDenyTSConnections` and `UserAuthentication` registry
    /// values and the output of the firewall rule listing.
    pub fn run(&self, deny_connections: Option<u32>, nla_required: Option<u32>, rules: Result<String, String>) -> (r:
        CheckResult)
        ensures
            r.deep_view() == rdp_result(deny_connections, nla_required, str_result(rules)),
    {
        let firewall_rule_enabled = match rules {
            Ok(output) => parse_rdp_firewall_enabled(output.as_str()),
            Err(_) => false,
        };
        let state = RdpState { deny_connections, nla_required, firewall_rule_enabled };
        let (severity, findings, verdict) = evaluate(&state);
        let remediation = match severity {
            Severity::Okay => None,
            Severity::AtRisk => Some(String::from_str("Disable Remote Desktop if you don't need it (Settings > System > Remote Desktop), or require Network Level Authentication under System Properties > Remote.")),
            Severity::Caution => Some(String::from_str("If you don't use Remote Desktop, turn it off under Settings > System > Remote Desktop. If you do, make sure Network Level Authentication is required.")),
        };
        let raw_keys: Vec<String> = Vec::new();
        assert(raw_keys.deep_view() =~= seq![]);
        make_result(CheckKind::RdpExposure, severity, verdict, findings, remediation, DATA_SOURCE, raw_keys)
    }
}

/// Remote Desktop that is enabled is never reported as fine: the result is
/// `Okay` exactly when `fDenyTSConnections` is not read as 0, and `AtRisk`
/// exactly when RDP is enabled, Network Level Authentication is not required
/// and a Remote Desktop firewall rule is enabled; otherwise, with RDP
/// enabled, it is `Caution`.
pub proof fn law_rdp_enabled_is_never_okay(st: RdpState)
    ensures
        (rdp_spec(st).0 == Severity::Okay) <==> st.deny_connections != Some(0u32),
        (rdp_spec(st).0 == Severity::AtRisk) <==> (st.deny_connections == Some(0u32) && st.nla_required != Some(
            1u32,
        ) && st.firewall_rule_enabled),
        st.deny_connections == Some(0u32) && !(st.nla_required != Some(1u32) && st.firewall_rule_enabled)
            ==> rdp_spec(st).0 == Severity::Caution,
{
}

} // verus!
