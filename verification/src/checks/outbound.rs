//! Unusual outbound connections check.
//!
//! Data source: `netstat -ano` (established outbound TCP connections),
//! cross-referenced against a small curated list of ports/patterns
//! associated with remote-access tooling.

use super::{
    finding, make_result, max_severity, process_label, result_model, CheckKind, CheckResult, CheckResultModel,
    Finding, FindingModel, ProcessModel, ScanContext, Severity,
};
use super::dns_gateway::str_result;
use super::ports::{parse_netstat, parse_netstat_spec, NetstatEntry, NetstatModel};
use crate::text::{
    chars_of, concat2, concat3, count_string, decimal, eq_lower_in, lower_seq, parse_uint, parse_uint_in,
    push_str, rfind, rfind_char_in, strip_end_char_in, strip_end_char, strip_start_char,
};
use vstd::prelude::*;

verus! {

pub struct OutboundConnectionsCheck;

pub const DATA_SOURCE: &'static str = "netstat -ano (established connections)";

/// The remote ports associated with remote-access tooling, with their
/// severity.
pub open spec fn watched_port(port: u16) -> Option<(Seq<char>, Severity)> {
    if port == 4444 {
        Some(("Common exploit/backdoor callback port"@, Severity::AtRisk))
    } else if port == 31337 {
        Some(("Classic backdoor port"@, Severity::AtRisk))
    } else if port == 6667 {
        Some(("IRC - historically used for botnet command & control"@, Severity::Caution))
    } else if port == 5938 {
        Some(("TeamViewer relay traffic"@, Severity::Caution))
    } else if port == 7070 {
        Some(("AnyDesk relay traffic"@, Severity::Caution))
    } else if port == 1080 {
        Some(("SOCKS proxy tunnel"@, Severity::Caution))
    } else {
        None
    }
}

fn watched_port_of(port: u16) -> (r: Option<(&'static str, Severity)>)
    ensures
        match (r, watched_port(port)) {
            (Some((l, s)), Some((ls, ss))) => l@ == ls && s == ss,
            (None, None) => true,
            _ => false,
        },
{
    if port == 4444 {
        Some(("Common exploit/backdoor callback port", Severity::AtRisk))
    } else if port == 31337 {
        Some(("Classic backdoor port", Severity::AtRisk))
    } else if port == 6667 {
        Some(("IRC - historically used for botnet command & control", Severity::Caution))
    } else if port == 5938 {
        Some(("TeamViewer relay traffic", Severity::Caution))
    } else if port == 7070 {
        Some(("AnyDesk relay traffic", Severity::Caution))
    } else if port == 1080 {
        Some(("SOCKS proxy tunnel", Severity::Caution))
    } else {
        None
    }
}

pub open spec fn established(e: NetstatModel) -> bool {
    match e.state {
        Some(s) => lower_seq(s) == "established"@,
        None => false,
    }
}

pub fn is_established(e: &NetstatEntry) -> (b: bool)
    ensures
        b == established(e.deep_view()),
{
    match &e.state {
        Some(s) => {
            let v = chars_of(s.as_str());
            assert(v@.subrange(0, v@.len() as int) =~= v@);
            eq_lower_in(&v, 0, v.len(), &chars_of("established"))
        },
        None => false,
    }
}

/// The port after the last `:` of a remote address (a closing `]` of an
/// IPv6 address ignored).
pub open spec fn foreign_port_spec(addr: Seq<char>) -> Option<u16> {
    match rfind(addr, ':') {
        Some(i) => match parse_uint(strip_end_char(addr.subrange(i + 1, addr.len() as int), ']'), 65535) {
            Some(n) => Some(n as u16),
            None => None,
        },
        None => None,
    }
}

pub fn foreign_port(addr: &str) -> (r: Option<u16>)
    ensures
        r == foreign_port_spec(addr@),
{
    let v = chars_of(addr);
    assert(v@.subrange(0, v@.len() as int) =~= v@);
    match rfind_char_in(&v, 0, v.len(), ':') {
        Some(i) => {
            let b2 = strip_end_char_in(&v, i + 1, v.len(), ']');
            match parse_uint_in(&v, i + 1, b2, 65535) {
                Some(n) => Some(n as u16),
                None => None,
            }
        },
        None => None,
    }
}

pub open spec fn outbound_finding(e: NetstatModel, label: Seq<char>, procs: Seq<ProcessModel>) -> FindingModel {
    finding(
        "Outbound to "@ + e.foreign_addr + " ("@ + label + ")"@,
        "Owned by "@ + process_label(procs, e.pid),
    )
}

/// The established connections, in order.
pub open spec fn outbound(es: Seq<NetstatModel>) -> Seq<NetstatModel>
    decreases es.len(),
{
    if es.len() == 0 {
        seq![]
    } else if established(es.last()) {
        outbound(es.drop_last()).push(es.last())
    } else {
        outbound(es.drop_last())
    }
}

pub open spec fn outbound_fold(es: Seq<NetstatModel>, procs: Seq<ProcessModel>) -> (Severity, Seq<FindingModel>)
    decreases es.len(),
{
    if es.len() == 0 {
        (Severity::Okay, seq![])
    } else {
        let p = outbound_fold(es.drop_last(), procs);
        let e = es.last();
        if !established(e) {
            p
        } else {
            match foreign_port_spec(e.foreign_addr) {
                None => p,
                Some(port) => match watched_port(port) {
                    None => p,
                    Some((label, sev)) => (max_severity(p.0, sev), p.1.push(outbound_finding(e, label, procs))),
                },
            }
        }
    }
}

pub open spec fn outbound_spec(es: Seq<NetstatModel>, procs: Seq<ProcessModel>) -> (Severity, Seq<FindingModel>) {
    let (sev, f) = outbound_fold(es, procs);
    let f1 = f.push(finding("Established outbound connections"@, decimal(outbound(es).len())));
    if f1.len() == 1 {
        (sev, seq![finding("Result"@, "No connections matched known remote-access patterns"@)] + f1)
    } else {
        (sev, f1)
    }
}

pub proof fn lemma_outbound_len(es: Seq<NetstatModel>)
    ensures
        outbound(es).len() <= es.len(),
    decreases es.len(),
{
    if es.len() > 0 {
        lemma_outbound_len(es.drop_last());
    }
}

pub fn evaluate(entries: &Vec<NetstatEntry>, ctx: &ScanContext) -> (r: (Severity, Vec<Finding>))
    ensures
        (r.0, r.1.deep_view()) == outbound_spec(entries.deep_view(), ctx.processes.deep_view()),
{
    let ghost es = entries.deep_view();
    let ghost procs = ctx.processes.deep_view();
    let mut severity = Severity::Okay;
    let mut findings: Vec<Finding> = Vec::new();
    let mut count: usize = 0;
    let mut k: usize = 0;
    while k < entries.len()
        invariant
            k <= entries@.len(),
            es == entries.deep_view(),
            procs == ctx.processes.deep_view(),
            (severity, findings.deep_view()) == outbound_fold(es.take(k as int), procs),
            count == outbound(es.take(k as int)).len(),
            count <= k,
        decreases entries@.len() - k,
    {
        proof {
            lemma_outbound_len(es.take(k as int));
        }
        assert(es.take(k + 1).drop_last() =~= es.take(k as int));
        assert(es.take(k + 1).last() == es[k as int]);
        let e = &entries[k];
        let ghost before = findings.deep_view();
        if is_established(e) {
            count = count + 1;
            match foreign_port(e.foreign_addr.as_str()) {
                Some(port) => match watched_port_of(port) {
                    Some((label, sev)) => {
                        severity = severity.max(sev);
                        let mut lab = concat2("Outbound to ", e.foreign_addr.as_str());
                        push_str(&mut lab, " (");
                        push_str(&mut lab, label);
                        push_str(&mut lab, ")");
                        findings.push(Finding::of(lab, concat2("Owned by ", ctx.process_name(e.pid).as_str())));
                        assert(findings.deep_view() =~= before.push(outbound_finding(es[k as int], label@, procs)));
                    },
                    None => {},
                },
                None => {},
            }
        }
        k = k + 1;
    }
    assert(es.take(k as int) =~= es);
    findings.push(Finding::of(String::from_str("Established outbound connections"), count_string(count)));
    if findings.len() == 1 {
        let ghost f1 = findings.deep_view();
        findings.insert(0, Finding::new("Result", "No connections matched known remote-access patterns"));
        assert(findings.deep_view() =~= seq![
            finding("Result"@, "No connections matched known remote-access patterns"@)
        ] + f1);
    }
    (severity, findings)
}

pub open spec fn outbound_verdict(s: Severity) -> Seq<char> {
    match s {
        Severity::Okay => "No outbound connections matched known remote-access-tool patterns."@,
        Severity::Caution => "Outbound connection(s) matching remote-access tooling patterns found - review if expected."@,
        Severity::AtRisk => "Outbound connection(s) matching known backdoor/exploit patterns found."@,
    }
}

pub open spec fn outbound_result(out: Result<Seq<char>, Seq<char>>, procs: Seq<ProcessModel>) -> CheckResultModel {
    match out {
        Ok(o) => {
            let (sev, fs) = outbound_spec(parse_netstat_spec(o), procs);
            result_model(
                CheckKind::Outbound,
                sev,
                outbound_verdict(sev),
                fs,
                if sev != Severity::Okay {
                    Some("Confirm the owning process/connection is something you recognize and intentionally installed. If not, disconnect from the network and investigate the process."@)
                } else {
                    None
                },
                DATA_SOURCE@,
                seq![],
            )
        },
        Err(e) => result_model(
            CheckKind::Outbound,
            Severity::Caution,
            "Could not enumerate outbound connections."@,
            seq![finding("netstat error"@, e)],
            Some("Ensure `netstat` is available and try again."@),
            DATA_SOURCE@,
            seq![],
        ),
    }
}

impl OutboundConnectionsCheck {
    pub fn id(&self) -> (r: &'static str)
        ensures
            r@ == CheckKind::Outbound.spec_id(),
    {
        CheckKind::Outbound.id()
    }

    pub fn name(&self) -> (r: &'static str)
        ensures
            r@ == CheckKind::Outbound.spec_name(),
    {
        CheckKind::Outbound.name()
    }

    /// Evaluates the output of `netstat -ano` (or the error running it).
    pub fn run(&self, ctx: &ScanContext, output: Result<String, String>) -> (r: CheckResult)
        ensures
            r.deep_view() == outbound_result(str_result(output), ctx.processes.deep_view()),
    {
        let raw_keys: Vec<String> = Vec::new();
        assert(raw_keys.deep_view() =~= seq![]);
        let ghost res = str_result(output);
        match output {
            Ok(out) => {
                let entries = parse_netstat(out.as_str());
                let (severity, findings) = evaluate(&entries, ctx);
                let verdict = match severity {
                    Severity::Okay => String::from_str(
                        "No outbound connections matched known remote-access-tool patterns.",
                    ),
                    Severity::Caution => String::from_str(
                        "Outbound connection(s) matching remote-access tooling patterns found - review if expected.",
                    ),
                    Severity::AtRisk => String::from_str(
                        "Outbound connection(s) matching known backdoor/exploit patterns found.",
                    ),
                };
                let remediation = if severity != Severity::Okay {
                    Some(String::from_str("Confirm the owning process/connection is something you recognize and intentionally installed. If not, disconnect from the network and investigate the process."))
                } else {
                    None
                };
                assert(res == Ok::<Seq<char>, Seq<char>>(out@));
                make_result(CheckKind::Outbound, severity, verdict, findings, remediation, DATA_SOURCE, raw_keys)
            },
            Err(e) => {
                let ghost em = e@;
                let findings = vec![Finding::of(String::from_str("netstat error"), e)];
                assert(findings.deep_view() =~= seq![finding("netstat error"@, em)]);
                make_result(
                    CheckKind::Outbound,
                    Severity::Caution,
                    String::from_str("Could not enumerate outbound connections."),
                    findings,
                    Some(String::from_str("Ensure `netstat` is available and try again.")),
                    DATA_SOURCE,
                    raw_keys,
                )
            },
        }
    }
}

} // verus!
