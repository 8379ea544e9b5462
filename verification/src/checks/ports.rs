//! Open listening ports check.
//!
//! Data source: `netstat -ano` (listening TCP/UDP sockets + owning PID),
//! cross-referenced with the process table captured in [`ScanContext`] to
//! name the owning process.

use super::{
    finding, make_result, max_severity, process_label, result_model, CheckKind, CheckResult, CheckResultModel,
    Finding, FindingModel, ProcessModel, ScanContext, Severity,
};
use super::dns_gateway::str_result;
use crate::text::{
    chars_of, collect, concat2, count_string, decimal, decimal_string, eq_in, eq_lower_in, find, find_in,
    line_ranges, lines, lower_seq, parse_uint, parse_uint_in, push_str, ranges_text, rfind, rfind_char_in, same_text,
    starts_with, starts_with_in, string_of, trim, trim_in, valid_ranges, word_ranges, words,
};
use vstd::prelude::*;

verus! {

pub struct OpenPortsCheck;

pub const DATA_SOURCE: &'static str = "netstat -ano";

pub struct NetstatModel {
    pub proto: Seq<char>,
    pub local_addr: Seq<char>,
    pub local_port: u16,
    pub foreign_addr: Seq<char>,
    pub state: Option<Seq<char>>,
    pub pid: u32,
}

#[derive(Debug, Clone, PartialEq, Eq)]
pub struct NetstatEntry {
    pub proto: String,
    pub local_addr: String,
    pub local_port: u16,
    pub foreign_addr: String,
    pub state: Option<String>,
    pub pid: u32,
}

impl DeepView for NetstatEntry {
    type V = NetstatModel;

    open spec fn deep_view(&self) -> NetstatModel {
        NetstatModel {
            proto: self.proto@,
            local_addr: self.local_addr@,
            local_port: self.local_port,
            foreign_addr: self.foreign_addr@,
            state: self.state.deep_view(),
            pid: self.pid,
        }
    }
}

/// `host:port`, with a bracketed IPv6 host (`[::]:445`) kept in brackets;
/// otherwise split at the last `:`.
pub open spec fn host_port(s: Seq<char>) -> Option<(Seq<char>, Seq<char>)> {
    if s.len() > 0 && s[0] == '[' {
        let rest = s.drop_first();
        match find(rest, "]:"@) {
            Some(i) => Some(("["@ + rest.subrange(0, i) + "]"@, rest.subrange(i + 2, rest.len() as int))),
            None => None,
        }
    } else {
        match rfind(s, ':') {
            Some(i) => Some((s.subrange(0, i), s.subrange(i + 1, s.len() as int))),
            None => None,
        }
    }
}

/// One row of `netstat -ano`: `TCP local foreign state pid` or
/// `UDP local foreign pid`, with a numeric pid and local port.
pub open spec fn netstat_line(line: Seq<char>) -> Option<NetstatModel> {
    let t = trim(line);
    let cols = words(t);
    if !(starts_with(t, "TCP"@) || starts_with(t, "UDP"@)) {
        None
    } else if !((cols.len() == 5 && cols[0] == "TCP"@) || (cols.len() == 4 && cols[0] == "UDP"@)) {
        None
    } else {
        let tcp = cols.len() == 5;
        let pid_str = if tcp { cols[4] } else { cols[3] };
        match (parse_uint(pid_str, 4294967295), host_port(cols[1])) {
            (Some(pid), Some((addr, port_str))) => match parse_uint(port_str, 65535) {
                Some(port) => Some(
                    NetstatModel {
                        proto: cols[0],
                        local_addr: addr,
                        local_port: port as u16,
                        foreign_addr: cols[2],
                        state: if tcp { Some(cols[3]) } else { None },
                        pid: pid as u32,
                    },
                ),
                None => None,
            },
            _ => None,
        }
    }
}

pub open spec fn parse_netstat_spec(output: Seq<char>) -> Seq<NetstatModel> {
    collect(lines(output), |l: Seq<char>| netstat_line(l))
}

/// The host and port ranges of `v[lo..hi)` read as `host_port`; a bracketed
/// host is returned without its brackets, which `bracketed` reports.
fn host_port_in(v: &Vec<char>, lo: usize, hi: usize) -> (r: Option<(usize, usize, usize, usize, bool)>)
    requires
        lo <= hi <= v.len(),
    ensures
        match (r, host_port(v@.subrange(lo as int, hi as int))) {
            (Some((ha, hb, pa, pb, br)), Some((h, p))) => {
                &&& ha <= hb <= v.len()
                &&& pa <= pb <= v.len()
                &&& h == if br {
                    "["@ + v@.subrange(ha as int, hb as int) + "]"@
                } else {
                    v@.subrange(ha as int, hb as int)
                }
                &&& p == v@.subrange(pa as int, pb as int)
            },
            (None, None) => true,
            _ => false,
        },
{
    let ghost s = v@.subrange(lo as int, hi as int);
    if lo < hi && v[lo] == '[' {
        let pat = chars_of("]:");
        proof {
            reveal_strlit("]:");
        }
        assert(s.drop_first() =~= v@.subrange(lo + 1, hi as int));
        match find_in(v, lo + 1, hi, &pat) {
            Some(j) => {
                assert(s.drop_first().subrange(0, j - (lo + 1)) =~= v@.subrange(lo + 1, j as int));
                assert(s.drop_first().subrange(j - (lo + 1) + 2, s.drop_first().len() as int) =~= v@.subrange(
                    j + 2,
                    hi as int,
                ));
                Some((lo + 1, j, j + 2, hi, true))
            },
            None => None,
        }
    } else {
        match rfind_char_in(v, lo, hi, ':') {
            Some(j) => {
                assert(s.subrange(0, j - lo) =~= v@.subrange(lo as int, j as int));
                assert(s.subrange(j - lo + 1, s.len() as int) =~= v@.subrange(j + 1, hi as int));
                Some((lo, j, j + 1, hi, false))
            },
            None => None,
        }
    }
}

/// Parses `netstat -ano` output. Tolerant of the header rows, IPv6
/// addresses (`[::]:port`), and UDP rows that have no `State` column.
pub fn parse_netstat(output: &str) -> (entries: Vec<NetstatEntry>)
    ensures
        entries.deep_view() == parse_netstat_spec(output@),
{
    let v = chars_of(output);
    let ls = line_ranges(&v);
    let p_tcp = chars_of("TCP");
    let p_udp = chars_of("UDP");
    let mut entries: Vec<NetstatEntry> = Vec::new();
    let mut k: usize = 0;
    while k < ls.len()
        invariant
            k <= ls@.len(),
            valid_ranges(v@, ls@),
            ranges_text(v@, ls@) == lines(v@),
            v@ == output@,
            p_tcp@ == "TCP"@,
            p_udp@ == "UDP"@,
            entries.deep_view() == collect(lines(v@).take(k as int), |l: Seq<char>| netstat_line(l)),
        decreases ls@.len() - k,
    {
        let ghost raw = lines(v@)[k as int];
        assert(lines(v@).take(k + 1).drop_last() =~= lines(v@).take(k as int));
        assert(lines(v@).take(k + 1).last() == raw);
        let (a, b) = ls[k];
        assert(raw == v@.subrange(a as int, b as int));
        let (ta, tb) = trim_in(&v, a, b);
        let ghost before = entries.deep_view();
        let ghost expected = netstat_line(raw);
        let mut pushed = false;
        if starts_with_in(&v, ta, tb, &p_tcp) || starts_with_in(&v, ta, tb, &p_udp) {
            let cols = word_ranges(&v, ta, tb);
            let ghost cs = ranges_text(v@, cols@);
            let n = cols.len();
            if n >= 4 {
                let (c0a, c0b) = cols[0];
                assert(cs[0] == v@.subrange(c0a as int, c0b as int));
                let tcp = n == 5 && eq_in(&v, c0a, c0b, &p_tcp);
                let udp = n == 4 && eq_in(&v, c0a, c0b, &p_udp);
                if tcp || udp {
                    let (pida, pidb) = if tcp {
                        cols[4]
                    } else {
                        cols[3]
                    };
                    assert(cs[if tcp { 4int } else { 3int }] == v@.subrange(pida as int, pidb as int));
                    let (la, lb) = cols[1];
                    let (fa, fb) = cols[2];
                    assert(cs[1] == v@.subrange(la as int, lb as int));
                    assert(cs[2] == v@.subrange(fa as int, fb as int));
                    match parse_uint_in(&v, pida, pidb, 4294967295) {
                        Some(pid) => match host_port_in(&v, la, lb) {
                            Some((ha, hb, pa, pb, br)) => match parse_uint_in(&v, pa, pb, 65535) {
                                Some(port) => {
                                    let host = if br {
                                        let mut h = String::from_str("[");
                                        push_str(&mut h, string_of(&v, ha, hb).as_str());
                                        push_str(&mut h, "]");
                                        h
                                    } else {
                                        string_of(&v, ha, hb)
                                    };
                                    let state = if tcp {
                                        let (sa, sb) = cols[3];
                                        assert(cs[3] == v@.subrange(sa as int, sb as int));
                                        Some(string_of(&v, sa, sb))
                                    } else {
                                        None
                                    };
                                    let e = NetstatEntry {
                                        proto: string_of(&v, c0a, c0b),
                                        local_addr: host,
                                        local_port: port as u16,
                                        foreign_addr: string_of(&v, fa, fb),
                                        state,
                                        pid: pid as u32,
                                    };
                                    assert(expected == Some(e.deep_view()));
                                    entries.push(e);
                                    pushed = true;
                                    assert(entries.deep_view() =~= before + seq![e.deep_view()]);
                                },
                                None => {},
                            },
                            None => {},
                        },
                        None => {},
                    }
                }
            }
        }
        if !pushed {
            assert(expected is None);
            assert(entries.deep_view() =~= before + seq![]);
        }
        k = k + 1;
    }
    assert(lines(v@).take(k as int) =~= lines(v@));
    entries
}

pub open spec fn listening(e: NetstatModel) -> bool {
    match e.state {
        Some(s) => lower_seq(s) == "listening"@,
        None => true,
    }
}

/// Whether the entry is a listener (UDP sockets, which have no state, count
/// as listeners).
pub fn is_listening(e: &NetstatEntry) -> (b: bool)
    ensures
        b == listening(e.deep_view()),
{
    match &e.state {
        Some(s) => {
            let v = chars_of(s.as_str());
            assert(v@.subrange(0, v@.len() as int) =~= v@);
            eq_lower_in(&v, 0, v.len(), &chars_of("listening"))
        },
        None => true,
    }
}

pub open spec fn all_interfaces(addr: Seq<char>) -> bool {
    addr == "0.0.0.0"@ || addr == "[::]"@ || addr == "*"@
}

/// The services known to be risky when listening, with their severity.
pub open spec fn risky_port(port: u16) -> Option<(Seq<char>, Severity)> {
    if port == 23 {
        Some(("Telnet (unencrypted remote shell)"@, Severity::AtRisk))
    } else if port == 21 {
        Some(("FTP (unencrypted file transfer)"@, Severity::Caution))
    } else if port == 3389 {
        Some(("RDP (Remote Desktop)"@, Severity::Caution))
    } else if port == 5900 {
        Some(("VNC remote desktop"@, Severity::Caution))
    } else if port == 5938 {
        Some(("TeamViewer remote access"@, Severity::Caution))
    } else if port == 7070 {
        Some(("AnyDesk remote access"@, Severity::Caution))
    } else if port == 4444 {
        Some(("Commonly used by exploit/backdoor tooling (e.g. Metasploit default)"@, Severity::AtRisk))
    } else if port == 31337 {
        Some(("Classic backdoor port (\"elite\")"@, Severity::AtRisk))
    } else if port == 6666 {
        Some(("Commonly used by IRC-based botnets/backdoors"@, Severity::AtRisk))
    } else if port == 1080 {
        Some(("SOCKS proxy - can indicate tunneling malware"@, Severity::Caution))
    } else {
        None
    }
}

fn risky_port_of(port: u16) -> (r: Option<(&'static str, Severity)>)
    ensures
        match (r, risky_port(port)) {
            (Some((l, s)), Some((ls, ss))) => l@ == ls && s == ss,
            (None, None) => true,
            _ => false,
        },
{
    if port == 23 {
        Some(("Telnet (unencrypted remote shell)", Severity::AtRisk))
    } else if port == 21 {
        Some(("FTP (unencrypted file transfer)", Severity::Caution))
    } else if port == 3389 {
        Some(("RDP (Remote Desktop)", Severity::Caution))
    } else if port == 5900 {
        Some(("VNC remote desktop", Severity::Caution))
    } else if port == 5938 {
        Some(("TeamViewer remote access", Severity::Caution))
    } else if port == 7070 {
        Some(("AnyDesk remote access", Severity::Caution))
    } else if port == 4444 {
        Some(("Commonly used by exploit/backdoor tooling (e.g. Metasploit default)", Severity::AtRisk))
    } else if port == 31337 {
        Some(("Classic backdoor port (\"elite\")", Severity::AtRisk))
    } else if port == 6666 {
        Some(("Commonly used by IRC-based botnets/backdoors", Severity::AtRisk))
    } else if port == 1080 {
        Some(("SOCKS proxy - can indicate tunneling malware", Severity::Caution))
    } else {
        None
    }
}

/// The listening entries, in order.
pub open spec fn listeners(es: Seq<NetstatModel>) -> Seq<NetstatModel>
    decreases es.len(),
{
    if es.len() == 0 {
        seq![]
    } else if listening(es.last()) {
        listeners(es.drop_last()).push(es.last())
    } else {
        listeners(es.drop_last())
    }
}

/// The (port, pid) pairs of some entries.
pub open spec fn port_pids(es: Seq<NetstatModel>) -> Seq<(u16, u32)> {
    Seq::new(es.len(), |i: int| (es[i].local_port, es[i].pid))
}

pub open spec fn port_finding(e: NetstatModel, label: Seq<char>, procs: Seq<ProcessModel>) -> FindingModel {
    finding(
        "Port "@ + decimal(e.local_port as nat) + " ("@ + label + ")"@,
        e.proto + " listening on "@ + (if all_interfaces(e.local_addr) {
            "all interfaces"@
        } else {
            "localhost/specific interface only"@
        }) + " - owned by "@ + process_label(procs, e.pid),
    )
}

/// Each listener, the first time its (port, pid) pair is seen, that uses a
/// risky port gives a finding and raises the severity to the port's.
pub open spec fn ports_fold(es: Seq<NetstatModel>, procs: Seq<ProcessModel>) -> (Severity, Seq<FindingModel>)
    decreases es.len(),
{
    if es.len() == 0 {
        (Severity::Okay, seq![])
    } else {
        let p = ports_fold(es.drop_last(), procs);
        let e = es.last();
        if !listening(e) || port_pids(listeners(es.drop_last())).contains((e.local_port, e.pid)) {
            p
        } else {
            match risky_port(e.local_port) {
                None => p,
                Some((label, sev)) => (max_severity(p.0, sev), p.1.push(port_finding(e, label, procs))),
            }
        }
    }
}

pub open spec fn ports_spec(es: Seq<NetstatModel>, procs: Seq<ProcessModel>) -> (Severity, Seq<FindingModel>) {
    let (sev, f) = ports_fold(es, procs);
    let f1 = f.push(finding("Total listening sockets"@, decimal(listeners(es).len())));
    if f1.len() == 1 {
        (sev, seq![finding("Result"@, "No unusual listening ports found"@)] + f1)
    } else {
        (sev, f1)
    }
}

fn has_pair(seen: &Vec<(u16, u32)>, port: u16, pid: u32) -> (b: bool)
    ensures
        b == seen@.contains((port, pid)),
{
    let mut k: usize = 0;
    while k < seen.len()
        invariant
            k <= seen@.len(),
            forall|i: int| 0 <= i < k ==> seen@[i] != (port, pid),
        decreases seen@.len() - k,
    {
        let (a, b) = seen[k];
        if a == port && b == pid {
            assert(seen@[k as int] == (port, pid));
            return true;
        }
        k = k + 1;
    }
    false
}

pub proof fn lemma_listeners_len(es: Seq<NetstatModel>)
    ensures
        listeners(es).len() <= es.len(),
    decreases es.len(),
{
    if es.len() > 0 {
        lemma_listeners_len(es.drop_last());
    }
}

pub fn evaluate(entries: &Vec<NetstatEntry>, ctx: &ScanContext) -> (r: (Severity, Vec<Finding>))
    ensures
        (r.0, r.1.deep_view()) == ports_spec(entries.deep_view(), ctx.processes.deep_view()),
{
    let ghost es = entries.deep_view();
    let ghost procs = ctx.processes.deep_view();
    let mut severity = Severity::Okay;
    let mut findings: Vec<Finding> = Vec::new();
    let mut seen: Vec<(u16, u32)> = Vec::new();
    let mut k: usize = 0;
    while k < entries.len()
        invariant
            k <= entries@.len(),
            es == entries.deep_view(),
            procs == ctx.processes.deep_view(),
            (severity, findings.deep_view()) == ports_fold(es.take(k as int), procs),
            seen@ == port_pids(listeners(es.take(k as int))),
            seen@.len() <= k,
        decreases entries@.len() - k,
    {
        proof {
            lemma_listeners_len(es.take(k as int));
        }
        assert(es.take(k + 1).drop_last() =~= es.take(k as int));
        assert(es.take(k + 1).last() == es[k as int]);
        let e = &entries[k];
        let ghost before = findings.deep_view();
        if is_listening(e) {
            let dup = has_pair(&seen, e.local_port, e.pid);
            if !dup {
                match risky_port_of(e.local_port) {
                    Some((label, sev)) => {
                        severity = severity.max(sev);
                        let mut lab = concat2("Port ", decimal_string(e.local_port as u64).as_str());
                        push_str(&mut lab, " (");
                        push_str(&mut lab, label);
                        push_str(&mut lab, ")");
                        let mut detail = concat2(e.proto.as_str(), " listening on ");
                        let addr = e.local_addr.as_str();
                        let all = same_text(addr, "0.0.0.0") || same_text(addr, "[::]") || same_text(addr, "*");
                        push_str(
                            &mut detail,
                            if all {
                                "all interfaces"
                            } else {
                                "localhost/specific interface only"
                            },
                        );
                        push_str(&mut detail, " - owned by ");
                        push_str(&mut detail, ctx.process_name(e.pid).as_str());
                        findings.push(Finding::of(lab, detail));
                        assert(findings.deep_view() =~= before.push(port_finding(es[k as int], label@, procs)));
                    },
                    None => {},
                }
            }
            let ghost sb = seen@;
            seen.push((e.local_port, e.pid));
            assert(seen@ =~= port_pids(listeners(es.take(k + 1))));
        } else {
            assert(listeners(es.take(k + 1)) == listeners(es.take(k as int)));
        }
        k = k + 1;
    }
    assert(es.take(k as int) =~= es);
    proof {
        lemma_listeners_len(es);
    }
    let ghost f0 = findings.deep_view();
    findings.push(Finding::of(String::from_str("Total listening sockets"), count_string(seen.len())));
    if findings.len() == 1 {
        let ghost f1 = findings.deep_view();
        findings.insert(0, Finding::new("Result", "No unusual listening ports found"));
        assert(findings.deep_view() =~= seq![finding("Result"@, "No unusual listening ports found"@)] + f1);
    }
    (severity, findings)
}

pub open spec fn ports_verdict(s: Severity) -> Seq<char> {
    match s {
        Severity::Okay => "No unusual listening ports found."@,
        Severity::Caution => "One or more listening ports are worth reviewing."@,
        Severity::AtRisk => "Listening port(s) associated with high-risk / backdoor services found."@,
    }
}

pub open spec fn ports_result(out: Result<Seq<char>, Seq<char>>, procs: Seq<ProcessModel>) -> CheckResultModel {
    match out {
        Ok(o) => {
            let (sev, fs) = ports_spec(parse_netstat_spec(o), procs);
            result_model(
                CheckKind::Ports,
                sev,
                ports_verdict(sev),
                fs,
                if sev != Severity::Okay {
                    Some("Confirm each flagged port is expected (e.g. a remote-access tool you installed). If not, stop the service/process and consider uninstalling it."@)
                } else {
                    None
                },
                DATA_SOURCE@,
                seq![],
            )
        },
        Err(e) => result_model(
            CheckKind::Ports,
            Severity::Caution,
            "Could not enumerate listening ports."@,
            seq![finding("netstat error"@, e)],
            Some("Ensure `netstat` is available and try again."@),
            DATA_SOURCE@,
            seq![],
        ),
    }
}

impl OpenPortsCheck {
    pub fn id(&self) -> (r: &'static str)
        ensures
            r@ == CheckKind::Ports.spec_id(),
    {
        CheckKind::Ports.id()
    }

    pub fn name(&self) -> (r: &'static str)
        ensures
            r@ == CheckKind::Ports.spec_name(),
    {
        CheckKind::Ports.name()
    }

    /// Evaluates the output of `netstat -ano` (or the error running it).
    pub fn run(&self, ctx: &ScanContext, output: Result<String, String>) -> (r: CheckResult)
        ensures
            r.deep_view() == ports_result(str_result(output), ctx.processes.deep_view()),
    {
        let raw_keys: Vec<String> = Vec::new();
        assert(raw_keys.deep_view() =~= seq![]);
        let ghost res = str_result(output);
        match output {
            Ok(out) => {
                let entries = parse_netstat(out.as_str());
                let (severity, findings) = evaluate(&entries, ctx);
                let verdict = match severity {
                    Severity::Okay => String::from_str("No unusual listening ports found."),
                    Severity::Caution => String::from_str("One or more listening ports are worth reviewing."),
                    Severity::AtRisk => String::from_str(
                        "Listening port(s) associated with high-risk / backdoor services found.",
                    ),
                };
                let remediation = if severity != Severity::Okay {
                    Some(String::from_str("Confirm each flagged port is expected (e.g. a remote-access tool you installed). If not, stop the service/process and consider uninstalling it."))
                } else {
                    None
                };
                assert(res == Ok::<Seq<char>, Seq<char>>(out@));
                make_result(CheckKind::Ports, severity, verdict, findings, remediation, DATA_SOURCE, raw_keys)
            },
            Err(e) => {
                let ghost em = e@;
                let findings = vec![Finding::of(String::from_str("netstat error"), e)];
                assert(findings.deep_view() =~= seq![finding("netstat error"@, em)]);
                make_result(
                    CheckKind::Ports,
                    Severity::Caution,
                    String::from_str("Could not enumerate listening ports."),
                    findings,
                    Some(String::from_str("Ensure `netstat` is available and try again.")),
                    DATA_SOURCE,
                    raw_keys,
                )
            },
        }
    }
}

} // verus!
