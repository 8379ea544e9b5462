//! ARP table anomaly heuristic - a lightweight MITM/ARP-spoofing indicator
//! that reads the OS ARP cache rather than capturing packets.
//!
//! Data source: `arp -a` (ARP cache) and `ipconfig /all` (to identify the
//! default gateway IP).

use super::dns_gateway::{parse_ipconfig, parse_ipconfig_spec, str_result};
use super::{finding, make_result, result_model, CheckKind, CheckResult, CheckResultModel, Finding, FindingModel, Severity};
use crate::text::{
    chars_of, collect, concat2, contains, count_char, count_char_in, count_string, decimal, dedup, dedup_strings,
    find_char_in, join, join_strings, lemma_texts_deep_view, line_ranges, lines, lower_in, lower_seq, push_str,
    ranges_text, starts_with, starts_with_in, string_of, string_of_all, texts, trim, trim_in, valid_ranges,
    word_ranges, words,
};
use vstd::prelude::*;

verus! {

pub struct ArpAnomalyCheck;

pub const DATA_SOURCE: &'static str = "arp -a; ipconfig /all";

/// A MAC address claiming at least this many distinct IPs is reported.
pub const MANY_IPS_THRESHOLD: usize = 8;

pub struct ArpModel {
    pub ip: Seq<char>,
    pub mac: Seq<char>,
}

#[derive(Debug, Clone, PartialEq, Eq)]
pub struct ArpEntry {
    pub ip: String,
    pub mac: String,
}

impl DeepView for ArpEntry {
    type V = ArpModel;

    open spec fn deep_view(&self) -> ArpModel {
        ArpModel { ip: self.ip@, mac: self.mac@ }
    }
}

/// One line of `arp -a`: an address with three dots followed by a
/// hardware address containing `-` or `:` (lower-cased); header lines and
/// blank lines give nothing.
pub open spec fn arp_line(line: Seq<char>) -> Option<ArpModel> {
    let t = trim(line);
    if t.len() == 0 || starts_with(t, "Interface"@) || starts_with(t, "Internet Address"@) {
        None
    } else {
        let cols = words(t);
        if cols.len() >= 2 && count_char(cols[0], '.') == 3 && (contains(cols[1], seq!['-']) || contains(
            cols[1],
            seq![':'],
        )) {
            Some(ArpModel { ip: cols[0], mac: lower_seq(cols[1]) })
        } else {
            None
        }
    }
}

pub open spec fn parse_arp_spec(output: Seq<char>) -> Seq<ArpModel> {
    collect(lines(output), |l: Seq<char>| arp_line(l))
}

/// Parses `arp -a` output across one or more interface sections.
pub fn parse_arp_table(output: &str) -> (entries: Vec<ArpEntry>)
    ensures
        entries.deep_view() == parse_arp_spec(output@),
{
    let v = chars_of(output);
    let ls = line_ranges(&v);
    let p_iface = chars_of("Interface");
    let p_header = chars_of("Internet Address");
    let dash = vec!['-'];
    let colon = vec![':'];
    assert(dash@ =~= seq!['-']);
    assert(colon@ =~= seq![':']);
    let mut entries: Vec<ArpEntry> = Vec::new();
    let mut k: usize = 0;
    while k < ls.len()
        invariant
            k <= ls@.len(),
            valid_ranges(v@, ls@),
            ranges_text(v@, ls@) == lines(v@),
            v@ == output@,
            p_iface@ == "Interface"@,
            p_header@ == "Internet Address"@,
            dash@ == seq!['-'],
            colon@ == seq![':'],
            entries.deep_view() == collect(lines(v@).take(k as int), |l: Seq<char>| arp_line(l)),
        decreases ls@.len() - k,
    {
        let ghost raw = lines(v@)[k as int];
        assert(lines(v@).take(k + 1).drop_last() =~= lines(v@).take(k as int));
        assert(lines(v@).take(k + 1).last() == raw);
        let (a, b) = ls[k];
        assert(raw == v@.subrange(a as int, b as int));
        let (ta, tb) = trim_in(&v, a, b);
        let ghost before = entries.deep_view();
        let mut pushed = false;
        if ta < tb && !starts_with_in(&v, ta, tb, &p_iface) && !starts_with_in(&v, ta, tb, &p_header) {
            let cols = word_ranges(&v, ta, tb);
            if cols.len() >= 2 {
                let (ia, ib) = cols[0];
                let (ma, mb) = cols[1];
                assert(ranges_text(v@, cols@)[0] == v@.subrange(ia as int, ib as int));
                assert(ranges_text(v@, cols@)[1] == v@.subrange(ma as int, mb as int));
                let dots = count_char_in(&v, ia, ib, '.');
                let mv = v.clone();
                if dots == 3 && (find_char_in(&v, ma, mb, '-').is_some() || find_char_in(&v, ma, mb, ':').is_some()) {
                    let mac = lower_in(&v, ma, mb);
                    let entry = ArpEntry { ip: string_of(&v, ia, ib), mac: string_of_all(&mac) };
                    entries.push(entry);
                    pushed = true;
                    assert(entries.deep_view() =~= before + seq![entry.deep_view()]);
                }
            }
        }
        if !pushed {
            assert(entries.deep_view() =~= before + seq![]);
        }
        k = k + 1;
    }
    assert(lines(v@).take(k as int) =~= lines(v@));
    entries
}

/// The hardware addresses cached for `ip`, in cache order.
pub open spec fn macs_for(entries: Seq<ArpModel>, ip: Seq<char>) -> Seq<Seq<char>>
    decreases entries.len(),
{
    if entries.len() == 0 {
        seq![]
    } else {
        macs_for(entries.drop_last(), ip) + if entries.last().ip == ip {
            seq![entries.last().mac]
        } else {
            seq![]
        }
    }
}

/// The IP addresses cached for `mac`, in cache order.
pub open spec fn ips_for(entries: Seq<ArpModel>, mac: Seq<char>) -> Seq<Seq<char>>
    decreases entries.len(),
{
    if entries.len() == 0 {
        seq![]
    } else {
        ips_for(entries.drop_last(), mac) + if entries.last().mac == mac {
            seq![entries.last().ip]
        } else {
            seq![]
        }
    }
}

pub open spec fn all_macs(entries: Seq<ArpModel>) -> Seq<Seq<char>> {
    Seq::new(entries.len(), |i: int| entries[i].mac)
}

pub open spec fn gateway_conflict(gw: Seq<char>, macs: Seq<Seq<char>>) -> FindingModel {
    finding(
        "Gateway MAC conflict"@,
        "Default gateway "@ + gw + " maps to "@ + decimal(macs.len()) + " different MAC addresses: "@ + join(macs, ", "@),
    )
}

/// A finding for each gateway IP that resolves to more than one distinct
/// hardware address (distinct addresses listed in cache order).
pub open spec fn gateway_findings(entries: Seq<ArpModel>, gateways: Seq<Seq<char>>) -> Seq<FindingModel>
    decreases gateways.len(),
{
    if gateways.len() == 0 {
        seq![]
    } else {
        let gw = gateways.last();
        let macs = dedup(macs_for(entries, gw));
        gateway_findings(entries, gateways.drop_last()) + if macs.len() > 1 {
            seq![gateway_conflict(gw, macs)]
        } else {
            seq![]
        }
    }
}

pub open spec fn many_ips(mac: Seq<char>, n: nat) -> FindingModel {
    finding(
        "Single MAC, many IPs"@,
        mac + " appears in the ARP cache for "@ + decimal(n)
            + " different IP addresses, which can indicate ARP spoofing (or a router/virtualization NIC)"@,
    )
}

/// A finding for each hardware address (taken in order of first
/// appearance) that claims at least `MANY_IPS_THRESHOLD` distinct IPs.
pub open spec fn many_ip_findings(entries: Seq<ArpModel>, macs: Seq<Seq<char>>) -> Seq<FindingModel>
    decreases macs.len(),
{
    if macs.len() == 0 {
        seq![]
    } else {
        let mac = macs.last();
        let n = dedup(ips_for(entries, mac)).len();
        many_ip_findings(entries, macs.drop_last()) + if n >= MANY_IPS_THRESHOLD {
            seq![many_ips(mac, n)]
        } else {
            seq![]
        }
    }
}

/// `AtRisk` on a gateway conflict, else `Caution` when a hardware address
/// claims many IPs, else `Okay`; with the findings of both kinds, or a
/// summary finding when there are none.
pub open spec fn anomalies_spec(entries: Seq<ArpModel>, gateways: Seq<Seq<char>>) -> (Severity, Seq<FindingModel>) {
    let g = gateway_findings(entries, gateways);
    let m = many_ip_findings(entries, dedup(all_macs(entries)));
    let sev = if g.len() > 0 {
        Severity::AtRisk
    } else if m.len() > 0 {
        Severity::Caution
    } else {
        Severity::Okay
    };
    let f = g + m;
    if f.len() == 0 {
        (sev, seq![finding("ARP cache"@, decimal(entries.len()) + " entries checked, no gateway MAC conflicts found"@)])
    } else {
        (sev, f)
    }
}

fn macs_of(entries: &Vec<ArpEntry>, ip: &String) -> (r: Vec<String>)
    ensures
        texts(r@) == macs_for(entries.deep_view(), ip@),
{
    let mut r: Vec<String> = Vec::new();
    let mut k: usize = 0;
    while k < entries.len()
        invariant
            k <= entries@.len(),
            texts(r@) == macs_for(entries.deep_view().take(k as int), ip@),
        decreases entries@.len() - k,
    {
        let ghost es = entries.deep_view();
        assert(es.take(k + 1).drop_last() =~= es.take(k as int));
        assert(es.take(k + 1).last() == entries@[k as int].deep_view());
        let ghost before = r@;
        if entries[k].ip == *ip {
            r.push(entries[k].mac.clone());
            assert(texts(r@) =~= texts(before) + seq![entries@[k as int].mac@]);
        } else {
            assert(texts(r@) =~= texts(before) + seq![]);
        }
        k = k + 1;
    }
    assert(entries.deep_view().take(k as int) =~= entries.deep_view());
    r
}

fn ips_of(entries: &Vec<ArpEntry>, mac: &String) -> (r: Vec<String>)
    ensures
        texts(r@) == ips_for(entries.deep_view(), mac@),
{
    let mut r: Vec<String> = Vec::new();
    let mut k: usize = 0;
    while k < entries.len()
        invariant
            k <= entries@.len(),
            texts(r@) == ips_for(entries.deep_view().take(k as int), mac@),
        decreases entries@.len() - k,
    {
        let ghost es = entries.deep_view();
        assert(es.take(k + 1).drop_last() =~= es.take(k as int));
        assert(es.take(k + 1).last() == entries@[k as int].deep_view());
        let ghost before = r@;
        if entries[k].mac == *mac {
            r.push(entries[k].ip.clone());
            assert(texts(r@) =~= texts(before) + seq![entries@[k as int].ip@]);
        } else {
            assert(texts(r@) =~= texts(before) + seq![]);
        }
        k = k + 1;
    }
    assert(entries.deep_view().take(k as int) =~= entries.deep_view());
    r
}

/// Detects the two classic lightweight ARP-cache anomalies:
/// 1. The default gateway IP resolving to more than one distinct MAC.
/// 2. A single MAC address claiming an unusually large number of distinct
///    IPs (possible spoofing tool), reported as a softer heuristic.
pub fn find_anomalies(entries: &Vec<ArpEntry>, gateway_ips: &Vec<String>) -> (r: (Severity, Vec<Finding>))
    ensures
        (r.0, r.1.deep_view()) == anomalies_spec(entries.deep_view(), texts(gateway_ips@)),
{
    let ghost es = entries.deep_view();
    let mut findings: Vec<Finding> = Vec::new();
    let mut k: usize = 0;
    while k < gateway_ips.len()
        invariant
            k <= gateway_ips@.len(),
            es == entries.deep_view(),
            findings.deep_view() == gateway_findings(es, texts(gateway_ips@).take(k as int)),
        decreases gateway_ips@.len() - k,
    {
        let ghost gws = texts(gateway_ips@);
        assert(gws.take(k + 1).drop_last() =~= gws.take(k as int));
        assert(gws.take(k + 1).last() == gateway_ips@[k as int]@);
        let gw = &gateway_ips[k];
        let macs = dedup_strings(&macs_of(entries, gw));
        let ghost before = findings.deep_view();
        if macs.len() > 1 {
            proof {
                lemma_texts_deep_view(macs);
            }
            let mut detail = concat2("Default gateway ", gw.as_str());
            push_str(&mut detail, " maps to ");
            push_str(&mut detail, count_string(macs.len()).as_str());
            push_str(&mut detail, " different MAC addresses: ");
            push_str(&mut detail, join_strings(&macs, ", ").as_str());
            findings.push(Finding::of(String::from_str("Gateway MAC conflict"), detail));
            assert(findings.deep_view() =~= before + seq![gateway_conflict(gw@, texts(macs@))]);
        } else {
            assert(findings.deep_view() =~= before + seq![]);
        }
        k = k + 1;
    }
    assert(texts(gateway_ips@).take(k as int) =~= texts(gateway_ips@));
    let ghost g = findings.deep_view();
    let gw_hits = findings.len();
    let mut all: Vec<String> = Vec::new();
    let mut j: usize = 0;
    while j < entries.len()
        invariant
            j <= entries@.len(),
            es == entries.deep_view(),
            all@.len() == j,
            forall|i: int| 0 <= i < j ==> (#[trigger] all@[i])@ == es[i].mac,
        decreases entries@.len() - j,
    {
        assert(es[j as int].mac == entries@[j as int].mac@);
        all.push(entries[j].mac.clone());
        j = j + 1;
    }
    assert(texts(all@) =~= all_macs(es));
    let macs = dedup_strings(&all);
    let ghost ms = texts(macs@);
    let mut m: usize = 0;
    while m < macs.len()
        invariant
            m <= macs@.len(),
            es == entries.deep_view(),
            ms == texts(macs@),
            findings.deep_view() == g + many_ip_findings(es, ms.take(m as int)),
            gw_hits == g.len(),
            g.len() <= findings@.len(),
        decreases macs@.len() - m,
    {
        assert(ms.take(m + 1).drop_last() =~= ms.take(m as int));
        assert(ms.take(m + 1).last() == macs@[m as int]@);
        let mac = &macs[m];
        let ips = dedup_strings(&ips_of(entries, mac));
        let ghost before = findings.deep_view();
        if ips.len() >= MANY_IPS_THRESHOLD {
            let mut detail = concat2(mac.as_str(), " appears in the ARP cache for ");
            push_str(&mut detail, count_string(ips.len()).as_str());
            push_str(
                &mut detail,
                " different IP addresses, which can indicate ARP spoofing (or a router/virtualization NIC)",
            );
            findings.push(Finding::of(String::from_str("Single MAC, many IPs"), detail));
            assert(findings.deep_view() =~= before + seq![many_ips(mac@, ips@.len() as nat)]);
        } else {
            assert(findings.deep_view() =~= before + seq![]);
        }
        m = m + 1;
    }
    assert(ms.take(m as int) =~= ms);
    let many = findings.len() - gw_hits;
    let severity = if gw_hits > 0 {
        Severity::AtRisk
    } else if many > 0 {
        Severity::Caution
    } else {
        Severity::Okay
    };
    if findings.len() == 0 {
        let detail = concat2(count_string(entries.len()).as_str(), " entries checked, no gateway MAC conflicts found");
        findings.push(Finding::of(String::from_str("ARP cache"), detail));
        assert(findings.deep_view() =~= seq![finding("ARP cache"@, detail@)]);
    }
    (severity, findings)
}

pub open spec fn arp_remediation() -> Seq<char> {
    "Disconnect from this network if untrusted, reconnect to refresh the ARP cache, and consider running a wired connection or trusted VPN."@
}

pub open spec fn arp_verdict(s: Severity) -> Seq<char> {
    match s {
        Severity::Okay => "No ARP spoofing indicators found."@,
        Severity::Caution => "Possible ARP anomaly detected - worth a closer look."@,
        Severity::AtRisk => "Gateway MAC conflict detected - possible ARP spoofing / MITM."@,
    }
}

/// The result for the output of `ipconfig /all` (for the gateway IPs) and
/// of `arp -a`, or the errors running them.
pub open spec fn arp_result(ipconfig: Result<Seq<char>, Seq<char>>, arp: Result<Seq<char>, Seq<char>>) -> CheckResultModel {
    let gateways = match ipconfig {
        Ok(out) => parse_ipconfig_spec(out).default_gateways,
        Err(_) => seq![],
    };
    match arp {
        Ok(out) => {
            let (sev, f) = anomalies_spec(parse_arp_spec(out), gateways);
            result_model(
                CheckKind::Arp,
                sev,
                arp_verdict(sev),
                f,
                if sev != Severity::Okay { Some(arp_remediation()) } else { None },
                DATA_SOURCE@,
                seq![],
            )
        },
        Err(e) => result_model(
            CheckKind::Arp,
            Severity::Caution,
            "Could not read the ARP cache."@,
            seq![finding("arp error"@, e)],
            Some("Ensure the `arp` command is available and try again."@),
            DATA_SOURCE@,
            seq![],
        ),
    }
}

impl ArpAnomalyCheck {
    pub fn id(&self) -> (r: &'static str)
        ensures
            r@ == CheckKind::Arp.spec_id(),
    {
        CheckKind::Arp.id()
    }

    pub fn name(&self) -> (r: &'static str)
        ensures
            r@ == CheckKind::Arp.spec_name(),
    {
        CheckKind::Arp.name()
    }

    /// Evaluates the output of `ipconfig /all` and of `arp -a` (or the
    /// errors running them).
    pub fn run(&self, ipconfig: Result<String, String>, arp: Result<String, String>) -> (r: CheckResult)
        ensures
            r.deep_view() == arp_result(str_result(ipconfig), str_result(arp)),
    {
        let gateway_ips = match ipconfig {
            Ok(out) => parse_ipconfig(out.as_str()).default_gateways,
            Err(_) => Vec::new(),
        };
        proof {
            lemma_texts_deep_view(gateway_ips);
        }
        let ghost gws = match str_result(ipconfig) {
            Ok(out) => parse_ipconfig_spec(out).default_gateways,
            Err(_) => seq![],
        };
        assert(texts(gateway_ips@) == gws);
        let raw_keys: Vec<String> = Vec::new();
        assert(raw_keys.deep_view() =~= seq![]);
        let ghost ar = str_result(arp);
        match arp {
            Ok(output) => {
                let entries = parse_arp_table(output.as_str());
                let (severity, findings) = find_anomalies(&entries, &gateway_ips);
                assert((severity, findings.deep_view()) == anomalies_spec(parse_arp_spec(output@), gws));
                let verdict = match severity {
                    Severity::Okay => String::from_str("No ARP spoofing indicators found."),
                    Severity::Caution => String::from_str("Possible ARP anomaly detected - worth a closer look."),
                    Severity::AtRisk => String::from_str("Gateway MAC conflict detected - possible ARP spoofing / MITM."),
                };
                let remediation = if severity != Severity::Okay {
                    Some(String::from_str("Disconnect from this network if untrusted, reconnect to refresh the ARP cache, and consider running a wired connection or trusted VPN."))
                } else {
                    None
                };
                assert(verdict@ == arp_verdict(severity));
                assert(ar == Ok::<Seq<char>, Seq<char>>(output@));
                make_result(CheckKind::Arp, severity, verdict, findings, remediation, DATA_SOURCE, raw_keys)
            },
            Err(e) => {
                let ghost em = e@;
                let findings = vec![Finding::of(String::from_str("arp error"), e)];
                assert(findings.deep_view() =~= seq![finding("arp error"@, em)]);
                assert(ar == Err::<Seq<char>, Seq<char>>(em));
                make_result(
                    CheckKind::Arp,
                    Severity::Caution,
                    String::from_str("Could not read the ARP cache."),
                    findings,
                    Some(String::from_str("Ensure the `arp` command is available and try again.")),
                    DATA_SOURCE,
                    raw_keys,
                )
            },
        }
    }
}

} // verus!
